use rogue_turns::components::{
    Actor, Asleep, BlocksTile, CombatStats, FieldOfView, Monster, Name, PlayerId, Position, Tally,
};
use rogue_turns::fixed::Fixed;
use rogue_turns::melee::MeleeOutcome;
use rogue_turns::message::Messages;
use rogue_turns::monster::{
    do_turn_for_one_monster, enqueue_monster_turns, is_blocked, next_monster_turn, MonsterTurns,
    Sight, Turn, TurnAction,
};
use rogue_turns::world::{Attributes, World};

fn actor(index: usize) -> Actor {
    Actor { index, generation: 0 }
}

fn hero(world: &mut World, x: i32, y: i32) -> Actor {
    let mut attrs = Attributes::bare();
    attrs.position = Some(Position { x, y });
    attrs.stats =
        Some(CombatStats { hp: 1000, attack: Fixed::whole(5), defense: Fixed::whole(2) });
    attrs.tally = Some(Tally { damage_dealt: 0, damage_taken: 0, kills: 0 });
    attrs.blocks_tile = Some(BlocksTile);
    world.spawn(Some(Name(String::from("Hero"))), attrs)
}

fn monster(world: &mut World, name: &str, x: i32, y: i32) -> Actor {
    let mut attrs = Attributes::bare();
    attrs.position = Some(Position { x, y });
    attrs.stats = Some(CombatStats { hp: 9, attack: Fixed::whole(6), defense: Fixed::whole(1) });
    attrs.monster = Some(Monster);
    attrs.blocks_tile = Some(BlocksTile);
    let made = world.spawn(Some(Name(String::from(name))), attrs);
    world.set_fov(made, Some(FieldOfView::new(5)));
    made
}

fn drain(turns: &mut MonsterTurns) -> Vec<Turn> {
    let mut order = Vec::new();
    while let Some(turn) = turns.pop() {
        order.push(turn);
    }
    order
}

#[test]
fn a_new_queue_is_empty() {
    let mut turns = MonsterTurns::new();
    assert_eq!(turns.len(), 0);
    assert_eq!(turns.pop(), None);
    let mut turns = MonsterTurns::default();
    assert_eq!(turns.len(), 0);
    assert_eq!(turns.pop(), None);
}

#[test]
fn entries_leave_nearest_first() {
    let mut turns = MonsterTurns::new();
    for (i, d) in [5u32, 1, 9, 0, 3, u32::MAX, 2].iter().enumerate() {
        turns.push(*d, actor(i));
    }
    assert_eq!(turns.len(), 7);
    let order: Vec<u32> = drain(&mut turns).iter().map(|t| t.distance).collect();
    assert_eq!(order, vec![0, 1, 2, 3, 5, 9, u32::MAX]);
    assert_eq!(turns.len(), 0);
}

#[test]
fn entries_at_one_distance_leave_in_the_order_they_came() {
    let mut turns = MonsterTurns::new();
    turns.push(2, actor(7));
    turns.push(1, actor(3));
    turns.push(2, actor(1));
    turns.push(1, actor(9));
    turns.push(2, actor(4));
    let order: Vec<usize> = drain(&mut turns).iter().map(|t| t.actor.index).collect();
    assert_eq!(order, vec![3, 9, 7, 1, 4]);
}

#[test]
fn pushes_between_pops_keep_the_order() {
    let mut turns = MonsterTurns::new();
    turns.push(4, actor(0));
    turns.push(2, actor(1));
    assert_eq!(turns.pop(), Some(Turn { distance: 2, actor: actor(1) }));
    turns.push(3, actor(2));
    turns.push(9, actor(3));
    turns.push(4, actor(4));
    assert_eq!(turns.len(), 4);
    let order: Vec<usize> = drain(&mut turns).iter().map(|t| t.actor.index).collect();
    assert_eq!(order, vec![2, 0, 4, 3]);
}

#[test]
fn clear_empties_the_queue() {
    let mut turns = MonsterTurns::new();
    turns.push(4, actor(0));
    turns.push(2, actor(1));
    turns.pop();
    turns.clear();
    assert_eq!(turns.len(), 0);
    assert_eq!(turns.pop(), None);
    turns.push(1, actor(5));
    assert_eq!(turns.pop(), Some(Turn { distance: 1, actor: actor(5) }));
}

#[test]
fn the_queue_of_a_round_holds_the_monsters_by_distance() {
    let mut world = World::new();
    let far = monster(&mut world, "Far", 10, 3);
    let player = hero(&mut world, 2, 2);
    let near = monster(&mut world, "Near", 3, 3);
    let mid = monster(&mut world, "Mid", 2, -2);
    let also_mid = monster(&mut world, "Also", -2, 0);
    let mut placeless = Attributes::bare();
    placeless.monster = Some(Monster);
    world.spawn(None, placeless);
    world.spawn(None, Attributes::bare());
    let mut turns = MonsterTurns::new();
    turns.push(0, actor(99));
    enqueue_monster_turns(&mut turns, &world, PlayerId(player));
    assert_eq!(
        drain(&mut turns),
        vec![
            Turn { distance: 1, actor: near },
            Turn { distance: 4, actor: mid },
            Turn { distance: 4, actor: also_mid },
            Turn { distance: 8, actor: far },
        ]
    );
}

#[test]
fn pop_order_never_goes_down_in_distance() {
    let mut world = World::new();
    let player = hero(&mut world, 0, 0);
    let mut x: i32 = 7;
    for _ in 0..60 {
        x = x.wrapping_mul(1_103_515_245).wrapping_add(12_345);
        let y = x.wrapping_mul(69_069).wrapping_add(1);
        monster(&mut world, "M", x % 50, y % 50);
    }
    let mut turns = MonsterTurns::new();
    enqueue_monster_turns(&mut turns, &world, PlayerId(player));
    let order = drain(&mut turns);
    assert_eq!(order.len(), 60);
    let home = Position { x: 0, y: 0 };
    for pair in order.windows(2) {
        assert!(pair[0].distance <= pair[1].distance);
    }
    for turn in &order {
        let cell = world.get(turn.actor).unwrap().position.unwrap();
        assert_eq!(turn.distance, cell.span(&home));
    }
}

#[test]
fn the_queue_is_built_afresh() {
    let mut world = World::new();
    let player = hero(&mut world, 0, 0);
    let rat = monster(&mut world, "Rat", 1, 0);
    let mut turns = MonsterTurns::new();
    enqueue_monster_turns(&mut turns, &world, PlayerId(player));
    enqueue_monster_turns(&mut turns, &world, PlayerId(player));
    assert_eq!(drain(&mut turns), vec![Turn { distance: 1, actor: rat }]);
}

#[test]
fn monsters_that_left_the_store_are_passed_over() {
    let mut world = World::new();
    let player = hero(&mut world, 0, 0);
    let a = monster(&mut world, "Ant", 1, 0);
    let b = monster(&mut world, "Bee", 2, 0);
    let c = monster(&mut world, "Cat", 3, 0);
    let d = monster(&mut world, "Dog", 4, 0);
    let mut turns = MonsterTurns::new();
    enqueue_monster_turns(&mut turns, &world, PlayerId(player));
    world.despawn(a);
    world.despawn(c);
    world.despawn(d);
    let replacement = monster(&mut world, "Ape", 1, 0);
    assert_eq!(replacement.index, a.index);
    assert_eq!(next_monster_turn(&mut turns, &world), Some(b));
    assert_eq!(turns.len(), 2);
    assert_eq!(next_monster_turn(&mut turns, &world), None);
    assert_eq!(turns.len(), 0);
    assert_eq!(next_monster_turn(&mut turns, &world), None);
    assert!(world.is_alive(b));
    assert_eq!(world.get(b).unwrap().stats.unwrap().hp, 9);
}

#[test]
fn every_monster_in_the_store_gets_its_turn() {
    let mut world = World::new();
    let player = hero(&mut world, 0, 0);
    let a = monster(&mut world, "Ant", 3, 0);
    let b = monster(&mut world, "Bee", 2, 0);
    let mut turns = MonsterTurns::new();
    enqueue_monster_turns(&mut turns, &world, PlayerId(player));
    assert_eq!(next_monster_turn(&mut turns, &world), Some(b));
    assert_eq!(next_monster_turn(&mut turns, &world), Some(a));
    assert_eq!(next_monster_turn(&mut turns, &world), None);
}

#[test]
fn a_sleeping_monster_does_nothing_here() {
    let mut world = World::new();
    let player = hero(&mut world, 0, 0);
    let rat = monster(&mut world, "Rat", 1, 0);
    let mut attrs = world.get(rat).unwrap();
    attrs.asleep = Some(Asleep);
    world.set(rat, attrs);
    let mut msgs = Messages::new();
    let sight = Sight::Seen { step: Some(Position { x: 0, y: 0 }) };
    let action = do_turn_for_one_monster(&mut world, &mut msgs, 1, 1, PlayerId(player), rat, sight);
    assert_eq!(action, TurnAction::Slept);
    assert_eq!(msgs.len(), 0);
    assert_eq!(world.get(player).unwrap().stats.unwrap().hp, 1000);
    assert_eq!(world.get(rat).unwrap().position, Some(Position { x: 1, y: 0 }));
}

#[test]
fn a_monster_that_sees_nothing_or_has_no_step_idles() {
    let mut world = World::new();
    let player = hero(&mut world, 0, 0);
    let rat = monster(&mut world, "Rat", 5, 0);
    let mut msgs = Messages::new();
    for sight in [Sight::Hidden, Sight::Seen { step: None }] {
        let action =
            do_turn_for_one_monster(&mut world, &mut msgs, 1, 1, PlayerId(player), rat, sight);
        assert_eq!(action, TurnAction::Idled);
    }
    assert_eq!(msgs.len(), 0);
    assert_eq!(world.get(rat).unwrap().position, Some(Position { x: 5, y: 0 }));
    assert!(world.fov(rat).unwrap().dirty);
}

#[test]
fn a_step_onto_the_player_is_an_attack() {
    let mut world = World::new();
    let player = hero(&mut world, 0, 0);
    let rat = monster(&mut world, "Rat", 1, 0);
    let mut msgs = Messages::new();
    let mut hits = 0;
    for turn in 0..50 {
        let before = world.get(player).unwrap().stats.unwrap().hp;
        let sight = Sight::Seen { step: Some(Position { x: 0, y: 0 }) };
        let action =
            do_turn_for_one_monster(&mut world, &mut msgs, 4, turn, PlayerId(player), rat, sight);
        let after = world.get(player).unwrap().stats.unwrap().hp;
        match action {
            TurnAction::Attacked(MeleeOutcome::Hit { damage, .. }) => {
                assert_eq!(after, before - damage);
                hits += 1;
            }
            TurnAction::Attacked(MeleeOutcome::Miss) => assert_eq!(after, before),
            other => panic!("no attack: {:?}", other),
        }
        assert_eq!(world.get(rat).unwrap().position, Some(Position { x: 1, y: 0 }));
    }
    assert!(hits > 30);
    assert_eq!(msgs.len(), 50);
}

#[test]
fn a_step_elsewhere_moves_the_monster() {
    let mut world = World::new();
    let player = hero(&mut world, 0, 0);
    let rat = monster(&mut world, "Rat", 5, 0);
    let mut fov = FieldOfView::new(5);
    fov.dirty = false;
    world.set_fov(rat, Some(fov));
    let mut msgs = Messages::new();
    let sight = Sight::Seen { step: Some(Position { x: 4, y: 1 }) };
    let action = do_turn_for_one_monster(&mut world, &mut msgs, 1, 1, PlayerId(player), rat, sight);
    assert_eq!(
        action,
        TurnAction::Moved {
            from: Position { x: 5, y: 0 },
            to: Position { x: 4, y: 1 },
            blocks_tile: true
        }
    );
    assert_eq!(world.get(rat).unwrap().position, Some(Position { x: 4, y: 1 }));
    assert_eq!(world.get(rat).unwrap().stats.unwrap().hp, 9);
    assert!(world.fov(rat).unwrap().dirty);
    assert_eq!(msgs.len(), 0);
    assert_eq!(world.get(player).unwrap().position, Some(Position { x: 0, y: 0 }));
}

#[test]
fn a_monster_does_not_step_onto_a_blocked_cell() {
    let mut world = World::new();
    let player = hero(&mut world, 0, 0);
    let rat = monster(&mut world, "Rat", 5, 0);
    let wall = monster(&mut world, "Bat", 4, 1);
    let mut msgs = Messages::new();
    let cell = Position { x: 4, y: 1 };
    assert!(is_blocked(&world, cell, rat));
    assert!(!is_blocked(&world, cell, wall));
    let sight = Sight::Seen { step: Some(cell) };
    let action = do_turn_for_one_monster(&mut world, &mut msgs, 1, 1, PlayerId(player), rat, sight);
    assert_eq!(action, TurnAction::Idled);
    assert_eq!(world.get(rat).unwrap().position, Some(Position { x: 5, y: 0 }));
    let mut attrs = world.get(wall).unwrap();
    attrs.blocks_tile = None;
    world.set(wall, attrs);
    assert!(!is_blocked(&world, cell, rat));
    let action = do_turn_for_one_monster(&mut world, &mut msgs, 1, 1, PlayerId(player), rat, sight);
    assert_eq!(
        action,
        TurnAction::Moved { from: Position { x: 5, y: 0 }, to: cell, blocks_tile: true }
    );
}
