//! The sweep that follows every loss of hit points: whoever is at zero hit
//! points or below is announced, credited to its killer and taken out of the
//! store, and the death of the player ends the sweep on the spot.

use crate::components::{Actor, Experience, HurtBy, PlayerId, Position, Tally};
use crate::damage::counted;
use crate::message::Messages;
use crate::world::{Attributes, World, WorldView};
use vstd::prelude::*;
use vstd::string::StringExecFns;

verus! {

/// Whether the player is still alive.
#[derive(Clone, Copy, Debug, PartialEq, Eq, Structural)]
pub struct PlayerAlive(pub bool);

/// An actor that has left the store and has yet to leave the map: where it
/// stood, and whether it blocked its cell.
#[derive(Clone, Copy, Debug, PartialEq, Eq, Structural)]
pub struct Removal {
    pub actor: Actor,
    pub cell: Position,
    pub blocks_tile: bool,
}

/// What a sweep did that the store does not show.
pub struct CascadeReport {
    /// Those taken out of the store, in the order in which they were.
    pub removed: Vec<Removal>,
    /// Whether the sweep ended with the death of the player. If so, the
    /// saved game is to be deleted.
    pub player_died: bool,
}

/// A sweep in progress, as mathematics sees it.
pub struct Cascade {
    pub world: WorldView,
    pub log: Seq<Seq<char>>,
    pub removed: Seq<Removal>,
    pub player_died: bool,
}

/// Whether slot `i` holds an actor with combat stats and no hit points left.
pub open spec fn dead_at(w: WorldView, i: int) -> bool {
    &&& 0 <= i < w.slots.len()
    &&& w.slots[i].attrs is Some
    &&& w.slots[i].attrs.unwrap().stats is Some
    &&& w.slots[i].attrs.unwrap().stats.unwrap().hp <= 0
}

/// Whether anyone in the store has combat stats and no hit points left.
pub open spec fn any_dead(w: WorldView) -> bool {
    exists|i: int| dead_at(w, i)
}

/// Whether every actor without hit points can be swept: it has a name, and
/// unless it is the player it has a cell to be taken from.
pub open spec fn sweepable(w: WorldView, player: Actor) -> bool {
    forall|i: int| #[trigger]
        dead_at(w, i) ==> {
            &&& w.names[i] is Some
            &&& w.actor_at(i) != player ==> w.slots[i].attrs.unwrap().position is Some
        }
}

/// The store after the kill of `dead` has been credited. If `dead` remembers
/// an actor that is still in the store, that actor has one more kill, where
/// it keeps a tally, and the experience that `dead` gives, where it gathers
/// experience and `dead` gives any.
pub open spec fn credited(w: WorldView, dead: Actor) -> WorldView
    recommends
        w.alive(dead),
{
    match w.attrs(dead).hurt_by {
        Some(HurtBy::Someone(receiver)) => if w.alive(receiver) {
            let attrs = w.attrs(receiver);
            w.with_attrs(
                receiver,
                Attributes {
                    tally: match attrs.tally {
                        Some(t) => Some(Tally { kills: counted(t.kills, 1), ..t }),
                        None => None,
                    },
                    experience: match (attrs.experience, w.attrs(dead).gives_experience) {
                        (Some(e), Some(gives)) => Some(
                            Experience { exp: counted(e.exp, gives.0 as int) },
                        ),
                        _ => attrs.experience,
                    },
                    ..attrs
                },
            )
        } else {
            w
        },
        _ => w,
    }
}

/// The sweep after it has dealt with the actor in slot `i`: the death is
/// announced and credited; then the player stays in the store and ends the
/// sweep, and anyone else leaves the store.
pub open spec fn bury(c: Cascade, i: int, player: Actor) -> Cascade
    recommends
        dead_at(c.world, i),
{
    let dead = c.world.actor_at(i);
    let log = c.log.push(c.world.names[i].unwrap() + " dies!"@);
    let world = credited(c.world, dead);
    if dead == player {
        Cascade {
            world,
            log: log.push("Press SPACE to continue..."@),
            removed: c.removed,
            player_died: true,
        }
    } else {
        Cascade {
            world: world.without(dead),
            log,
            removed: c.removed.push(
                Removal {
                    actor: dead,
                    cell: c.world.attrs(dead).position.unwrap(),
                    blocks_tile: c.world.attrs(dead).blocks_tile is Some,
                },
            ),
            player_died: false,
        }
    }
}

/// The sweep after slots `from` to `until` have been visited in order, or
/// after the player has died, whichever comes first.
pub open spec fn sweep(c: Cascade, player: Actor, from: int, until: int) -> Cascade
    decreases until - from,
{
    if from >= until {
        c
    } else if dead_at(c.world, from) {
        let next = bury(c, from, player);
        if next.player_died {
            next
        } else {
            sweep(next, player, from + 1, until)
        }
    } else {
        sweep(c, player, from + 1, until)
    }
}

/// A whole sweep of the store `w`, with `log` written before it.
pub open spec fn cascade(w: WorldView, log: Seq<Seq<char>>, player: Actor) -> Cascade {
    sweep(
        Cascade { world: w, log, removed: Seq::empty(), player_died: false },
        player,
        0,
        w.slots.len() as int,
    )
}

/// Credits the kill of `dead` to the actor it remembers.
pub fn credit_kill(world: &mut World, dead: Actor)
    requires
        old(world).wf(),
        old(world)@.alive(dead),
    ensures
        final(world).wf(),
        final(world)@ == credited(old(world)@, dead),
{
    let fallen = world.get(dead).unwrap();
    match fallen.hurt_by {
        Some(HurtBy::Someone(receiver)) => {
            match world.get(receiver) {
                Some(attrs) => {
                    let mut gained = attrs;
                    match attrs.tally {
                        Some(t) => {
                            gained.tally = Some(
                                Tally {
                                    damage_dealt: t.damage_dealt,
                                    damage_taken: t.damage_taken,
                                    kills: t.kills.saturating_add(1),
                                },
                            );
                        },
                        None => {},
                    }
                    match attrs.experience {
                        Some(e) => {
                            match fallen.gives_experience {
                                Some(gives) => {
                                    gained.experience = Some(
                                        Experience { exp: e.exp.saturating_add(gives.0) },
                                    );
                                },
                                None => {},
                            }
                        },
                        None => {},
                    }
                    world.set(receiver, gained);
                },
                None => {},
            }
        },
        _ => {},
    }
}

/// Burying the actor in slot `i` leaves the number of slots as it was, frees
/// slot `i` unless the player lives there, and changes of any other slot at
/// most the tally and the experience.
pub proof fn lemma_bury_frame(c: Cascade, i: int, player: Actor)
    requires
        c.world.wf(),
        dead_at(c.world, i),
    ensures
        bury(c, i, player).world.wf(),
        bury(c, i, player).world.slots.len() == c.world.slots.len(),
        bury(c, i, player).player_died <==> c.world.actor_at(i) == player,
        !bury(c, i, player).player_died ==> bury(c, i, player).world.slots[i].attrs is None,
        forall|j: int|
            0 <= j < c.world.slots.len() && j != i ==> {
                let before = c.world.slots[j];
                let after = #[trigger] bury(c, i, player).world.slots[j];
                &&& after.generation == before.generation
                &&& after.attrs is Some <==> before.attrs is Some
                &&& after.attrs is Some ==> after.attrs.unwrap() == (Attributes {
                    tally: after.attrs.unwrap().tally,
                    experience: after.attrs.unwrap().experience,
                    ..before.attrs.unwrap()
                })
                &&& bury(c, i, player).world.names[j] == c.world.names[j]
            },
{
}

/// Sweeps the store for actors without hit points.
///
/// The slots are visited in order. Each actor found with combat stats and no
/// hit points left is announced in the log, and its kill is credited to the
/// actor it remembers. If it is the player, a last line is written, the
/// player is marked as dead, and the sweep ends at once: the player stays in
/// the store, and so does everyone in a later slot. Anyone else leaves the
/// store and is reported for removal from the map.
///
/// After a sweep that the player survives, nobody in the store is without
/// hit points.
pub fn handle_dead_entities(
    world: &mut World,
    msgs: &mut Messages,
    player: PlayerId,
    player_alive: &mut PlayerAlive,
) -> (report: CascadeReport)
    requires
        old(world).wf(),
        sweepable(old(world)@, player.0),
    ensures
        final(world).wf(),
        final(world)@ == cascade(old(world)@, old(msgs)@, player.0).world,
        final(msgs)@ == cascade(old(world)@, old(msgs)@, player.0).log,
        report.removed@ == cascade(old(world)@, old(msgs)@, player.0).removed,
        report.player_died == cascade(old(world)@, old(msgs)@, player.0).player_died,
        final(player_alive).0 == (old(player_alive).0 && !report.player_died),
        !report.player_died ==> !any_dead(final(world)@),
{
    let mut removed: Vec<Removal> = Vec::new();
    let n = world.slots.len();
    let mut i: usize = 0;
    while i < n
        invariant
            i <= n,
            n == world@.slots.len(),
            n == old(world)@.slots.len(),
            world.wf(),
            *player_alive == *old(player_alive),
            sweep(
                Cascade { world: world@, log: msgs@, removed: removed@, player_died: false },
                player.0,
                i as int,
                n as int,
            ) == cascade(old(world)@, old(msgs)@, player.0),
            forall|j: int| 0 <= j < i ==> !dead_at(world@, j),
            forall|j: int|
                i <= j < n && #[trigger] dead_at(world@, j) ==> {
                    &&& world@.names[j] is Some
                    &&& world@.actor_at(j) != player.0
                        ==> world@.slots[j].attrs.unwrap().position is Some
                },
        decreases n - i,
    {
        let slot = world.slots[i];
        let fallen = match slot.attrs {
            Some(attrs) => match attrs.stats {
                Some(stats) => if stats.hp <= 0 {
                    Some(attrs)
                } else {
                    None
                },
                None => None,
            },
            None => None,
        };
        match fallen {
            Some(attrs) => {
                let ghost before = Cascade {
                    world: world@,
                    log: msgs@,
                    removed: removed@,
                    player_died: false,
                };
                assert(dead_at(world@, i as int));
                let dead = Actor { index: i, generation: slot.generation };
                proof {
                    lemma_bury_frame(before, i as int, player.0);
                }
                let mut text = String::from_str(world.names[i].as_ref().unwrap().0.as_str());
                text.append(" dies!");
                msgs.add(text);
                credit_kill(world, dead);
                if dead == player.0 {
                    msgs.add(String::from_str("Press SPACE to continue..."));
                    player_alive.0 = false;
                    assert(Cascade {
                        world: world@,
                        log: msgs@,
                        removed: removed@,
                        player_died: true,
                    } == bury(before, i as int, player.0));
                    return CascadeReport { removed, player_died: true };
                } else {
                    removed.push(
                        Removal {
                            actor: dead,
                            cell: attrs.position.unwrap(),
                            blocks_tile: attrs.blocks_tile.is_some(),
                        },
                    );
                    world.despawn(dead);
                    assert(Cascade {
                        world: world@,
                        log: msgs@,
                        removed: removed@,
                        player_died: false,
                    } == bury(before, i as int, player.0));
                    assert forall|j: int| 0 <= j < i + 1 implies !dead_at(world@, j) by {
                        if j < i {
                            assert(!dead_at(before.world, j));
                            let _ = bury(before, i as int, player.0).world.slots[j];
                        }
                    }
                    assert forall|j: int| i + 1 <= j < n && #[trigger] dead_at(world@, j) implies {
                        &&& world@.names[j] is Some
                        &&& world@.actor_at(j) != player.0
                            ==> world@.slots[j].attrs.unwrap().position is Some
                    } by {
                        let _ = bury(before, i as int, player.0).world.slots[j];
                        assert(dead_at(before.world, j));
                    }
                }
            },
            None => {
                assert(!dead_at(world@, i as int));
            },
        }
        i += 1;
    }
    assert forall|j: int| !dead_at(world@, j) by {}
    CascadeReport { removed, player_died: false }
}

/// Slots without a dead actor are passed over: a sweep from `from` goes on
/// as a sweep from `target` if nobody between the two is without hit
/// points.
pub proof fn lemma_sweep_skips(c: Cascade, player: Actor, from: int, target: int, until: int)
    requires
        from <= target <= until,
        forall|j: int| from <= j < target ==> !dead_at(c.world, j),
    ensures
        sweep(c, player, from, until) == sweep(c, player, target, until),
    decreases target - from,
{
    if from < target {
        lemma_sweep_skips(c, player, from + 1, target, until);
    }
}

/// A sweep of a store in which nobody is without hit points does nothing:
/// nobody is removed, no line is written, and the player is not marked as
/// dead. So a sweep can be repeated at no cost.
pub proof fn lemma_cascade_idle(w: WorldView, log: Seq<Seq<char>>, player: Actor)
    requires
        !any_dead(w),
    ensures
        cascade(w, log, player) == (Cascade {
            world: w,
            log,
            removed: Seq::empty(),
            player_died: false,
        }),
{
    let start = Cascade { world: w, log, removed: Seq::empty(), player_died: false };
    lemma_sweep_skips(start, player, 0, w.slots.len() as int, w.slots.len() as int);
}

/// What a sweep from slot `from` adds to the actors removed before it.
///
/// Each of them stood without hit points in a slot at or after `from` and
/// was not the player; they are listed in the order of their slots, so none
/// is listed twice; if the player survives the sweep, everyone who stood
/// without hit points in such a slot is among them; and the log has grown
/// by one line for each of them, and by two for the death of the player.
pub proof fn lemma_sweep_accounts(c: Cascade, player: Actor, from: int, until: int)
    requires
        c.world.wf(),
        !c.player_died,
        0 <= from <= until,
        until == c.world.slots.len(),
    ensures
        ({
            let end = sweep(c, player, from, until);
            let base = c.removed.len() as int;
            &&& base <= end.removed.len()
            &&& forall|k: int| 0 <= k < base ==> end.removed[k] == c.removed[k]
            &&& forall|k: int|
                base <= k < end.removed.len() ==> {
                    let gone = (#[trigger] end.removed[k]).actor;
                    &&& from <= gone.index < until
                    &&& dead_at(c.world, gone.index as int)
                    &&& gone == c.world.actor_at(gone.index as int)
                    &&& gone != player
                }
            &&& forall|k: int, l: int|
                base <= k < l < end.removed.len() ==> (#[trigger] end.removed[k]).actor.index < (
                #[trigger] end.removed[l]).actor.index
            &&& !end.player_died ==> forall|i: int|
                from <= i < until && #[trigger] dead_at(c.world, i) ==> exists|k: int|
                    base <= k < end.removed.len() && end.removed[k].actor == c.world.actor_at(i)
            &&& end.log.len() == c.log.len() + (end.removed.len() - base) + if end.player_died {
                2int
            } else {
                0int
            }
        }),
    decreases until - from,
{
    let end = sweep(c, player, from, until);
    let base = c.removed.len() as int;
    if from >= until {
    } else if dead_at(c.world, from) {
        let next = bury(c, from, player);
        lemma_bury_frame(c, from, player);
        if !next.player_died {
            lemma_sweep_accounts(next, player, from + 1, until);
            assert(end == sweep(next, player, from + 1, until));
            assert(next.removed.len() == base + 1);
            assert(next.removed[base].actor == c.world.actor_at(from));
            assert forall|k: int| base <= k < end.removed.len() implies ({
                let gone = (#[trigger] end.removed[k]).actor;
                &&& from <= gone.index < until
                &&& dead_at(c.world, gone.index as int)
                &&& gone == c.world.actor_at(gone.index as int)
                &&& gone != player
            }) by {
                if k > base {
                    let gone = end.removed[k].actor;
                    let _ = next.world.slots[gone.index as int];
                }
            }
            assert forall|k: int, l: int| base <= k < l < end.removed.len() implies (
            #[trigger] end.removed[k]).actor.index < (#[trigger] end.removed[l]).actor.index by {
                if k == base {
                    assert(end.removed[k] == next.removed[base]);
                }
            }
            if !end.player_died {
                assert forall|i: int|
                    from <= i < until && #[trigger] dead_at(c.world, i) implies exists|k: int|
                    base <= k < end.removed.len() && end.removed[k].actor == c.world.actor_at(
                        i,
                    ) by {
                    if i == from {
                        assert(end.removed[base] == next.removed[base]);
                    } else {
                        let _ = next.world.slots[i];
                        assert(dead_at(next.world, i));
                        let k = choose|k: int|
                            base + 1 <= k < end.removed.len() && end.removed[k].actor
                                == next.world.actor_at(i);
                        assert(end.removed[k].actor == c.world.actor_at(i));
                    }
                }
            }
        }
    } else {
        lemma_sweep_accounts(c, player, from + 1, until);
    }
}

/// A whole sweep takes each actor that stands without hit points out of the
/// store once, in the order of the slots, up to the death of the player: if
/// the player survives, the actors removed are exactly those that stood
/// without hit points, and one line is written for each.
pub proof fn lemma_cascade_accounts(w: WorldView, log: Seq<Seq<char>>, player: Actor)
    requires
        w.wf(),
    ensures
        ({
            let end = cascade(w, log, player);
            &&& forall|k: int|
                0 <= k < end.removed.len() ==> {
                    let gone = (#[trigger] end.removed[k]).actor;
                    &&& w.alive(gone)
                    &&& dead_at(w, gone.index as int)
                    &&& gone != player
                }
            &&& forall|k: int, l: int|
                0 <= k < l < end.removed.len() ==> (#[trigger] end.removed[k]).actor.index < (
                #[trigger] end.removed[l]).actor.index
            &&& !end.player_died ==> forall|i: int| #[trigger]
                dead_at(w, i) ==> exists|k: int|
                    0 <= k < end.removed.len() && end.removed[k].actor == w.actor_at(i)
            &&& end.log.len() == log.len() + end.removed.len() + if end.player_died {
                2int
            } else {
                0int
            }
        }),
{
    let start = Cascade { world: w, log, removed: Seq::empty(), player_died: false };
    lemma_sweep_accounts(start, player, 0, w.slots.len() as int);
}

/// A sweep that the player survives leaves nobody without hit points in the
/// slots it has visited, provided that nobody was in the slots before them.
pub proof fn lemma_sweep_clears(c: Cascade, player: Actor, from: int, until: int)
    requires
        c.world.wf(),
        0 <= from <= until,
        until == c.world.slots.len(),
        forall|j: int| 0 <= j < from ==> !dead_at(c.world, j),
    ensures
        sweep(c, player, from, until).world.wf(),
        sweep(c, player, from, until).world.slots.len() == c.world.slots.len(),
        !sweep(c, player, from, until).player_died ==> !any_dead(
            sweep(c, player, from, until).world,
        ),
    decreases until - from,
{
    if from >= until {
    } else if dead_at(c.world, from) {
        let next = bury(c, from, player);
        lemma_bury_frame(c, from, player);
        if !next.player_died {
            assert forall|j: int| 0 <= j < from + 1 implies !dead_at(next.world, j) by {
                if j < from {
                    let _ = next.world.slots[j];
                    assert(!dead_at(c.world, j));
                }
            }
            lemma_sweep_clears(next, player, from + 1, until);
        }
    } else {
        lemma_sweep_clears(c, player, from + 1, until);
    }
}

/// After a sweep that the player survives nobody in the store is without
/// hit points, and a second sweep right after it changes nothing.
pub proof fn lemma_cascade_settles(w: WorldView, log: Seq<Seq<char>>, player: Actor)
    requires
        w.wf(),
        !cascade(w, log, player).player_died,
    ensures
        !any_dead(cascade(w, log, player).world),
        cascade(cascade(w, log, player).world, cascade(w, log, player).log, player) == (Cascade {
            removed: Seq::empty(),
            ..cascade(w, log, player)
        }),
{
    let start = Cascade { world: w, log, removed: Seq::empty(), player_died: false };
    lemma_sweep_clears(start, player, 0, w.slots.len() as int);
    let end = cascade(w, log, player);
    lemma_cascade_idle(end.world, end.log, player);
}

/// The death of the player ends the sweep. If the player is without hit
/// points and nobody in an earlier slot is, the sweep announces the player's
/// death, credits it, writes the last line and stops: the player is marked
/// as dead, nobody leaves the store, and nobody but the actor that the
/// player remembers is changed at all, however many others are without hit
/// points.
pub proof fn lemma_player_death_halts(w: WorldView, log: Seq<Seq<char>>, player: Actor)
    requires
        w.wf(),
        w.alive(player),
        dead_at(w, player.index as int),
        forall|j: int| 0 <= j < player.index ==> !dead_at(w, j),
    ensures
        cascade(w, log, player).player_died,
        cascade(w, log, player).removed == Seq::<Removal>::empty(),
        cascade(w, log, player).world == credited(w, player),
        cascade(w, log, player).log == log.push(w.name(player).unwrap() + " dies!"@).push(
            "Press SPACE to continue..."@,
        ),
        forall|a: Actor| w.alive(a) ==> #[trigger] cascade(w, log, player).world.alive(a),
        forall|a: Actor|
            w.alive(a) && w.attrs(player).hurt_by != Some(HurtBy::Someone(a)) ==> #[trigger] cascade(
                w,
                log,
                player,
            ).world.attrs(a) == w.attrs(a),
{
    let start = Cascade { world: w, log, removed: Seq::empty(), player_died: false };
    lemma_sweep_skips(start, player, 0, player.index as int, w.slots.len() as int);
    assert(w.actor_at(player.index as int) == player);
}

} // verus!
