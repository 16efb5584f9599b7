//! A melee exchange between two actors of the store: who is hurt, by how
//! much, what is written to the log, and who is remembered for it.

use crate::components::{Actor, CombatStats, HurtBy, Tally};
use crate::melee::{
    resolve_melee, spec_resolve_melee, MeleeOutcome, Variance, STAT_LIMIT,
};
use crate::message::{decimal, push_decimal, Messages};
use crate::world::{Attributes, Slot, World, WorldView};
use vstd::prelude::*;
use vstd::string::StringExecFns;

verus! {

/// Whether an actor can take part in a melee exchange: it is in the store
/// and has a name and combat stats.
pub open spec fn can_fight(w: WorldView, actor: Actor) -> bool {
    &&& w.alive(actor)
    &&& w.name(actor) is Some
    &&& w.attrs(actor).stats is Some
}

/// What a piece of equipment adds to attack: nothing if it is not in the
/// store or carries no bonus.
pub open spec fn attack_bonus(w: WorldView, item: Option<Actor>) -> int {
    match item {
        Some(e) => if w.alive(e) && w.attrs(e).bonus is Some {
            w.attrs(e).bonus.unwrap().attack.raw as int
        } else {
            0
        },
        None => 0,
    }
}

/// What a piece of equipment adds to defense: nothing if it is not in the
/// store or carries no bonus.
pub open spec fn defense_bonus(w: WorldView, item: Option<Actor>) -> int {
    match item {
        Some(e) => if w.alive(e) && w.attrs(e).bonus is Some {
            w.attrs(e).bonus.unwrap().defense.raw as int
        } else {
            0
        },
        None => 0,
    }
}

/// Attack of an actor with what its weapon and armor add, in 65536ths.
pub open spec fn spec_attack_total(w: WorldView, actor: Actor) -> int
    recommends
        can_fight(w, actor),
{
    let attrs = w.attrs(actor);
    attrs.stats.unwrap().attack.raw + match attrs.equipment {
        Some(equip) => attack_bonus(w, equip.weapon) + attack_bonus(w, equip.armor),
        None => 0,
    }
}

/// Defense of an actor with what its weapon and armor add, in 65536ths.
pub open spec fn spec_defense_total(w: WorldView, actor: Actor) -> int
    recommends
        can_fight(w, actor),
{
    let attrs = w.attrs(actor);
    attrs.stats.unwrap().defense.raw + match attrs.equipment {
        Some(equip) => defense_bonus(w, equip.weapon) + defense_bonus(w, equip.armor),
        None => 0,
    }
}

fn attack_bonus_of(world: &World, item: Option<Actor>) -> (bonus: i64)
    requires
        world.wf(),
    ensures
        bonus == attack_bonus(world@, item),
        i32::MIN <= bonus <= i32::MAX,
{
    match item {
        Some(e) => match world.get(e) {
            Some(attrs) => match attrs.bonus {
                Some(b) => b.attack.raw as i64,
                None => 0,
            },
            None => 0,
        },
        None => 0,
    }
}

fn defense_bonus_of(world: &World, item: Option<Actor>) -> (bonus: i64)
    requires
        world.wf(),
    ensures
        bonus == defense_bonus(world@, item),
        i32::MIN <= bonus <= i32::MAX,
{
    match item {
        Some(e) => match world.get(e) {
            Some(attrs) => match attrs.bonus {
                Some(b) => b.defense.raw as i64,
                None => 0,
            },
            None => 0,
        },
        None => 0,
    }
}

/// Attack of an actor with what its weapon and armor add.
pub fn attack_total(world: &World, actor: Actor) -> (total: i64)
    requires
        world.wf(),
        world@.alive(actor),
        world@.attrs(actor).stats is Some,
    ensures
        total == spec_attack_total(world@, actor),
        -STAT_LIMIT <= total <= STAT_LIMIT,
{
    let attrs = world.get(actor).unwrap();
    let base: i64 = attrs.stats.unwrap().attack.raw as i64;
    match attrs.equipment {
        Some(equip) => base + attack_bonus_of(world, equip.weapon) + attack_bonus_of(
            world,
            equip.armor,
        ),
        None => base,
    }
}

/// Defense of an actor with what its weapon and armor add.
pub fn defense_total(world: &World, actor: Actor) -> (total: i64)
    requires
        world.wf(),
        world@.alive(actor),
        world@.attrs(actor).stats is Some,
    ensures
        total == spec_defense_total(world@, actor),
        -STAT_LIMIT <= total <= STAT_LIMIT,
{
    let attrs = world.get(actor).unwrap();
    let base: i64 = attrs.stats.unwrap().defense.raw as i64;
    match attrs.equipment {
        Some(equip) => base + defense_bonus_of(world, equip.weapon) + defense_bonus_of(
            world,
            equip.armor,
        ),
        None => base,
    }
}

/// How an exchange between two actors of the store ends in the round with
/// the given seed and turn counter.
pub open spec fn spec_melee_outcome(
    w: WorldView,
    game_seed: u64,
    turn_count: u64,
    attacker: Actor,
    defender: Actor,
) -> MeleeOutcome
    recommends
        can_fight(w, attacker),
        can_fight(w, defender),
{
    spec_resolve_melee(
        game_seed,
        turn_count,
        w.attrs(attacker).position,
        w.attrs(defender).position,
        w.attrs(defender).asleep is Some,
        spec_attack_total(w, attacker),
        spec_defense_total(w, defender),
    )
}

/// The outcome of an exchange depends on the game seed, the turn counter,
/// the cells of the two combatants, whether the defender sleeps, and the two
/// stat totals, and on nothing else: stores that agree on these give the same
/// outcome, whatever else they hold and whatever was fought before.
pub proof fn lemma_melee_deterministic(
    w1: WorldView,
    w2: WorldView,
    game_seed: u64,
    turn_count: u64,
    attacker: Actor,
    defender: Actor,
)
    requires
        w1.attrs(attacker).position == w2.attrs(attacker).position,
        w1.attrs(defender).position == w2.attrs(defender).position,
        w1.attrs(defender).asleep is Some <==> w2.attrs(defender).asleep is Some,
        spec_attack_total(w1, attacker) == spec_attack_total(w2, attacker),
        spec_defense_total(w1, defender) == spec_defense_total(w2, defender),
    ensures
        spec_melee_outcome(w1, game_seed, turn_count, attacker, defender) == spec_melee_outcome(
            w2,
            game_seed,
            turn_count,
            attacker,
            defender,
        ),
{
}

/// A sleeping defender is never missed.
pub proof fn lemma_asleep_never_missed(
    w: WorldView,
    game_seed: u64,
    turn_count: u64,
    attacker: Actor,
    defender: Actor,
)
    requires
        w.attrs(defender).asleep is Some,
    ensures
        !(spec_melee_outcome(w, game_seed, turn_count, attacker, defender) is Miss),
{
}

/// A blow never gives hit points back, and an exchange that takes none
/// leaves the store as it was: hit points, remembered attackers and tallies.
pub proof fn lemma_melee_only_takes(
    w: WorldView,
    attacker: Actor,
    defender: Actor,
    outcome: MeleeOutcome,
)
    requires
        w.alive(attacker),
        w.alive(defender),
        w.attrs(defender).stats is Some,
    ensures
        after_melee(w, attacker, defender, outcome).attrs(defender).stats.unwrap().hp <= w.attrs(
            defender,
        ).stats.unwrap().hp,
        !(outcome matches MeleeOutcome::Hit { damage, .. } && damage > 0) ==> after_melee(
            w,
            attacker,
            defender,
            outcome,
        ) == w,
{
}

/// A counter after `by` more: it stops at `u64::MAX`.
pub open spec fn counted(counter: u64, by: int) -> u64 {
    if counter + by > u64::MAX {
        u64::MAX
    } else {
        (counter + by) as u64
    }
}

/// Hit points after a loss: they stop at `i32::MIN`.
pub open spec fn lowered(hp: i32, loss: int) -> i32 {
    if hp - loss < i32::MIN {
        i32::MIN
    } else {
        (hp - loss) as i32
    }
}

/// The store after `actor`, if it keeps a tally, has `damage` more to its
/// damage dealt.
pub open spec fn with_damage_dealt(w: WorldView, actor: Actor, damage: int) -> WorldView {
    let attrs = w.attrs(actor);
    match attrs.tally {
        Some(t) => w.with_attrs(
            actor,
            Attributes {
                tally: Some(Tally { damage_dealt: counted(t.damage_dealt, damage), ..t }),
                ..attrs
            },
        ),
        None => w,
    }
}

/// The store after `actor`, if it keeps a tally, has `damage` more to its
/// damage taken.
pub open spec fn with_damage_taken(w: WorldView, actor: Actor, damage: int) -> WorldView {
    let attrs = w.attrs(actor);
    match attrs.tally {
        Some(t) => w.with_attrs(
            actor,
            Attributes {
                tally: Some(Tally { damage_taken: counted(t.damage_taken, damage), ..t }),
                ..attrs
            },
        ),
        None => w,
    }
}

/// The store after a blow for `damage` hit points has landed: the defender
/// has lost them and remembers the attacker, and both tallies have grown.
pub open spec fn wounded(w: WorldView, attacker: Actor, defender: Actor, damage: int) -> WorldView
    recommends
        can_fight(w, attacker),
        can_fight(w, defender),
        damage > 0,
{
    let attrs = w.attrs(defender);
    let stats = attrs.stats.unwrap();
    let hurt = w.with_attrs(
        defender,
        Attributes {
            stats: Some(CombatStats { hp: lowered(stats.hp, damage), ..stats }),
            hurt_by: Some(HurtBy::Someone(attacker)),
            ..attrs
        },
    );
    with_damage_taken(with_damage_dealt(hurt, attacker, damage), defender, damage)
}

/// The store after an exchange: as before, unless a blow landed for at least
/// one hit point.
pub open spec fn after_melee(
    w: WorldView,
    attacker: Actor,
    defender: Actor,
    outcome: MeleeOutcome,
) -> WorldView {
    match outcome {
        MeleeOutcome::Miss => w,
        MeleeOutcome::Hit { damage, variance } => if damage > 0 {
            wounded(w, attacker, defender, damage as int)
        } else {
            w
        },
    }
}

/// How a line about a blow ends.
pub open spec fn suffix(variance: Variance) -> Seq<char> {
    match variance {
        Variance::Normal => "!"@,
        Variance::Critical => "‼"@,
        Variance::Weak => "."@,
    }
}

/// The line that tells of an exchange.
pub open spec fn melee_line(attacker: Seq<char>, defender: Seq<char>, outcome: MeleeOutcome) -> Seq<
    char,
> {
    match outcome {
        MeleeOutcome::Miss => attacker + " misses "@ + defender + "."@,
        MeleeOutcome::Hit { damage, variance } => if damage > 0 {
            attacker + " hits "@ + defender + " for "@ + decimal(damage as nat) + " hp"@ + suffix(
                variance,
            )
        } else {
            attacker + " hits "@ + defender + ", but does no damage."@
        },
    }
}

/// Writes the line that tells of an exchange.
pub fn melee_text(attacker: &str, defender: &str, outcome: MeleeOutcome) -> (text: String)
    requires
        outcome matches MeleeOutcome::Hit { damage, .. } ==> damage >= 0,
    ensures
        text@ == melee_line(attacker@, defender@, outcome),
{
    let mut text = String::from_str(attacker);
    match outcome {
        MeleeOutcome::Miss => {
            text.append(" misses ");
            text.append(defender);
            text.append(".");
        },
        MeleeOutcome::Hit { damage, variance } => {
            text.append(" hits ");
            text.append(defender);
            if damage > 0 {
                text.append(" for ");
                push_decimal(&mut text, damage as u32);
                text.append(" hp");
                match variance {
                    Variance::Normal => text.append("!"),
                    Variance::Critical => text.append("‼"),
                    Variance::Weak => text.append("."),
                }
            } else {
                text.append(", but does no damage.");
            }
        },
    }
    text
}

/// Lands a blow for `damage` hit points on the defender.
pub fn wound(world: &mut World, attacker: Actor, defender: Actor, damage: i32)
    requires
        old(world).wf(),
        old(world)@.alive(attacker),
        old(world)@.alive(defender),
        old(world)@.attrs(defender).stats is Some,
        damage > 0,
    ensures
        final(world).wf(),
        final(world)@ == wounded(old(world)@, attacker, defender, damage as int),
{
    let mut hurt = world.get(defender).unwrap();
    let stats = hurt.stats.unwrap();
    let hp: i32 = if stats.hp >= i32::MIN + damage {
        stats.hp - damage
    } else {
        i32::MIN
    };
    hurt.stats = Some(CombatStats { hp, attack: stats.attack, defense: stats.defense });
    hurt.hurt_by = Some(HurtBy::Someone(attacker));
    world.set(defender, hurt);
    let mut dealer = world.get(attacker).unwrap();
    match dealer.tally {
        Some(t) => {
            dealer.tally = Some(
                Tally {
                    damage_dealt: t.damage_dealt.saturating_add(damage as u64),
                    damage_taken: t.damage_taken,
                    kills: t.kills,
                },
            );
            world.set(attacker, dealer);
        },
        None => {},
    }
    let mut taker = world.get(defender).unwrap();
    match taker.tally {
        Some(t) => {
            taker.tally = Some(
                Tally {
                    damage_dealt: t.damage_dealt,
                    damage_taken: t.damage_taken.saturating_add(damage as u64),
                    kills: t.kills,
                },
            );
            world.set(defender, taker);
        },
        None => {},
    }
}

/// One melee exchange between two actors of the store.
///
/// The dice are seeded from the game seed, the turn counter and the cells of
/// the two, so the outcome does not depend on what was fought before. A
/// sleeping defender is never missed. A blow that lands for at least one hit
/// point lowers the defender's hit points, makes the defender remember the
/// attacker, and adds to the damage dealt and taken of those who keep a
/// tally; any other outcome leaves the store as it was. One line is added to
/// the log either way.
pub fn melee_attack(
    world: &mut World,
    msgs: &mut Messages,
    game_seed: u64,
    turn_count: u64,
    attacker: Actor,
    defender: Actor,
) -> (outcome: MeleeOutcome)
    requires
        old(world).wf(),
        can_fight(old(world)@, attacker),
        can_fight(old(world)@, defender),
    ensures
        final(world).wf(),
        outcome == spec_melee_outcome(old(world)@, game_seed, turn_count, attacker, defender),
        final(world)@ == after_melee(old(world)@, attacker, defender, outcome),
        final(msgs)@ == old(msgs)@.push(
            melee_line(
                old(world)@.name(attacker).unwrap(),
                old(world)@.name(defender).unwrap(),
                outcome,
            ),
        ),
        old(world)@.attrs(defender).asleep is Some ==> !(outcome is Miss),
        !(outcome matches MeleeOutcome::Hit { damage, .. } && damage > 0) ==> final(world)@ == old(
            world,
        )@,
        final(world)@.attrs(defender).stats.unwrap().hp <= old(world)@.attrs(
            defender,
        ).stats.unwrap().hp,
{
    let att = world.get(attacker).unwrap();
    let def = world.get(defender).unwrap();
    let outcome = resolve_melee(
        game_seed,
        turn_count,
        att.position,
        def.position,
        def.asleep.is_some(),
        attack_total(world, attacker),
        defense_total(world, defender),
    );
    let text = melee_text(
        world.name(attacker).unwrap().0.as_str(),
        world.name(defender).unwrap().0.as_str(),
        outcome,
    );
    msgs.add(text);
    match outcome {
        MeleeOutcome::Hit { damage, variance } => {
            if damage > 0 {
                wound(world, attacker, defender, damage);
            }
        },
        MeleeOutcome::Miss => {},
    }
    outcome
}

/// The store with nobody remembering who hurt them.
pub open spec fn forgiven(w: WorldView) -> WorldView {
    WorldView {
        slots: Seq::new(
            w.slots.len(),
            |i: int|
                match w.slots[i].attrs {
                    Some(attrs) => Slot {
                        generation: w.slots[i].generation,
                        attrs: Some(Attributes { hurt_by: None, ..attrs }),
                    },
                    None => w.slots[i],
                },
        ),
        ..w
    }
}

/// Makes every actor forget who hurt it; to be called as a round begins.
pub fn clear_hurt_bys(world: &mut World)
    requires
        old(world).wf(),
    ensures
        final(world).wf(),
        final(world)@ == forgiven(old(world)@),
        forall|a: Actor| final(world)@.alive(a) ==> final(world)@.attrs(a).hurt_by is None,
{
    let n = world.slots.len();
    let mut i: usize = 0;
    while i < n
        invariant
            i <= n,
            n == world.slots.len(),
            world@.names == old(world)@.names,
            world@.fovs == old(world)@.fovs,
            world@.slots.len() == old(world)@.slots.len(),
            forall|j: int| 0 <= j < i ==> world@.slots[j] == forgiven(old(world)@).slots[j],
            forall|j: int| i <= j < n ==> world@.slots[j] == old(world)@.slots[j],
        decreases n - i,
    {
        let slot = world.slots[i];
        match slot.attrs {
            Some(attrs) => {
                let mut cleared = attrs;
                cleared.hurt_by = None;
                world.slots.set(i, Slot { generation: slot.generation, attrs: Some(cleared) });
            },
            None => {},
        }
        assert(world@.names =~= old(world)@.names);
        i += 1;
    }
    assert(world@.slots =~= forgiven(old(world)@).slots);
}

} // verus!
