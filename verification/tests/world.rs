use rogue_turns::components::{Actor, CombatStats, FieldOfView, Name, Position};
use rogue_turns::fixed::Fixed;
use rogue_turns::world::{Attributes, World};

fn named(name: &str) -> Option<Name> {
    Some(Name(String::from(name)))
}

fn at(x: i32, y: i32) -> Attributes {
    let mut attrs = Attributes::bare();
    attrs.position = Some(Position { x, y });
    attrs
}

#[test]
fn bare_attributes_hold_nothing() {
    let attrs = Attributes::bare();
    assert!(attrs.position.is_none());
    assert!(attrs.stats.is_none());
    assert!(attrs.equipment.is_none());
    assert!(attrs.bonus.is_none());
    assert!(attrs.asleep.is_none());
    assert!(attrs.hurt_by.is_none());
    assert!(attrs.tally.is_none());
    assert!(attrs.experience.is_none());
    assert!(attrs.gives_experience.is_none());
    assert!(attrs.blocks_tile.is_none());
    assert!(attrs.monster.is_none());
    assert!(attrs.player.is_none());
}

#[test]
fn new_world_is_empty() {
    let world = World::new();
    assert_eq!(world.slot_count(), 0);
    assert!(!world.is_alive(Actor { index: 0, generation: 0 }));
    assert!(world.get(Actor { index: 0, generation: 0 }).is_none());
    assert!(world.actor_in_slot(0).is_none());
}

#[test]
fn spawn_fills_slots_in_order() {
    let mut world = World::new();
    let a = world.spawn(named("a"), at(1, 1));
    let b = world.spawn(None, at(2, 2));
    assert_eq!(a, Actor { index: 0, generation: 0 });
    assert_eq!(b, Actor { index: 1, generation: 0 });
    assert_eq!(world.slot_count(), 2);
    assert!(world.is_alive(a));
    assert!(world.is_alive(b));
    assert_eq!(world.get(a).unwrap().position, Some(Position { x: 1, y: 1 }));
    assert_eq!(world.get(b).unwrap().position, Some(Position { x: 2, y: 2 }));
    assert_eq!(world.name(a).unwrap().0, "a");
    assert!(world.name(b).is_none());
    assert_eq!(world.actor_in_slot(1), Some(b));
}

#[test]
fn despawn_frees_the_slot_and_the_handle_goes_stale() {
    let mut world = World::new();
    let a = world.spawn(named("a"), at(1, 1));
    let b = world.spawn(named("b"), at(2, 2));
    assert!(world.despawn(a));
    assert!(!world.is_alive(a));
    assert!(world.is_alive(b));
    assert!(world.get(a).is_none());
    assert!(world.name(a).is_none());
    assert!(world.actor_in_slot(0).is_none());
    assert!(!world.despawn(a));
    let mut attrs = Attributes::bare();
    attrs.stats = Some(CombatStats { hp: 1, attack: Fixed::whole(1), defense: Fixed::whole(1) });
    assert!(!world.set(a, attrs));
}

#[test]
fn a_freed_slot_is_used_again_under_the_next_generation() {
    let mut world = World::new();
    let a = world.spawn(named("a"), at(1, 1));
    let b = world.spawn(named("b"), at(2, 2));
    world.despawn(a);
    let c = world.spawn(named("c"), at(3, 3));
    assert_eq!(c, Actor { index: 0, generation: 1 });
    assert_eq!(world.slot_count(), 2);
    assert!(!world.is_alive(a));
    assert!(world.is_alive(b));
    assert!(world.is_alive(c));
    assert_eq!(world.name(c).unwrap().0, "c");
    assert_eq!(world.get(c).unwrap().position, Some(Position { x: 3, y: 3 }));
    assert!(world.get(a).is_none());
}

#[test]
fn a_slot_whose_generations_ran_out_is_retired() {
    let mut world = World::new();
    let a = world.spawn(None, at(1, 1));
    world.despawn(a);
    world.slots[0].generation = u64::MAX;
    let b = world.spawn(None, at(2, 2));
    assert_eq!(b, Actor { index: 1, generation: 0 });
}

#[test]
fn set_replaces_the_attributes() {
    let mut world = World::new();
    let a = world.spawn(named("a"), at(1, 1));
    let b = world.spawn(named("b"), at(2, 2));
    assert!(world.set(a, at(5, 6)));
    assert_eq!(world.get(a).unwrap().position, Some(Position { x: 5, y: 6 }));
    assert_eq!(world.get(b).unwrap().position, Some(Position { x: 2, y: 2 }));
    assert_eq!(world.name(a).unwrap().0, "a");
}

#[test]
fn field_of_view_is_kept_and_marked_dirty() {
    let mut world = World::new();
    let a = world.spawn(None, at(1, 1));
    let b = world.spawn(None, at(2, 2));
    assert!(world.fov(a).is_none());
    assert!(!world.mark_fov_dirty(a));
    let mut fov = FieldOfView::new(6);
    fov.dirty = false;
    fov.tiles.insert((1, 2), true);
    assert!(world.set_fov(a, Some(fov)));
    assert!(!world.fov(a).unwrap().dirty);
    assert!(world.mark_fov_dirty(a));
    let seen = world.fov(a).unwrap();
    assert!(seen.dirty);
    assert_eq!(seen.range, 6);
    assert_eq!(seen.tiles.get(&(1, 2)), Some(&true));
    assert!(world.fov(b).is_none());
    assert_eq!(world.slot_count(), 2);
    world.despawn(a);
    assert!(world.fov(a).is_none());
    assert!(!world.set_fov(a, None));
    assert!(!world.mark_fov_dirty(a));
}
