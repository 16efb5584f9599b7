//! The turns of the monsters: the queue that orders them by their distance
//! to the player, and what one monster does when its turn comes.

use crate::components::{chebyshev, Actor, FieldOfView, PlayerId, Position};
use crate::damage::{after_melee, can_fight, melee_attack, melee_line, spec_melee_outcome};
use crate::melee::MeleeOutcome;
use crate::message::Messages;
use crate::world::{Attributes, World, WorldView};
use vstd::prelude::*;

verus! {

/// An entry of the queue: a monster, and how far it was from the player when
/// the queue was built.
#[derive(Clone, Copy, Debug, PartialEq, Eq, Structural)]
pub struct Turn {
    pub distance: u32,
    pub actor: Actor,
}

/// Whether no entry comes before one of a smaller distance.
pub open spec fn ascending(s: Seq<Turn>) -> bool {
    forall|i: int, j: int| 0 <= i <= j < s.len() ==> s[i].distance <= s[j].distance
}

/// Number of entries at the front of `s` whose distance is at most `d`.
pub open spec fn rank(s: Seq<Turn>, d: u32) -> int
    decreases s.len(),
{
    if s.len() > 0 && s[0].distance <= d {
        1 + rank(s.drop_first(), d)
    } else {
        0
    }
}

/// The queue `s` with one more entry: it goes behind the entries at the
/// front that are no farther than it, so that of two monsters at the same
/// distance the one that entered first leaves first.
pub open spec fn scheduled(s: Seq<Turn>, t: Turn) -> Seq<Turn> {
    s.insert(rank(s, t.distance), t)
}

/// The rank cuts the queue in two: entries no farther than `d` before it,
/// and a farther entry at it.
pub proof fn lemma_rank_cut(s: Seq<Turn>, d: u32)
    ensures
        0 <= rank(s, d) <= s.len(),
        forall|k: int| 0 <= k < rank(s, d) ==> (#[trigger] s[k]).distance <= d,
        rank(s, d) < s.len() ==> s[rank(s, d)].distance > d,
    decreases s.len(),
{
    if s.len() > 0 && s[0].distance <= d {
        let rest = s.drop_first();
        lemma_rank_cut(rest, d);
        assert forall|k: int| 0 <= k < rank(s, d) implies (#[trigger] s[k]).distance <= d by {
            if k > 0 {
                assert(s[k] == rest[k - 1]);
            }
        }
        if rank(s, d) < s.len() {
            assert(s[rank(s, d)] == rest[rank(rest, d)]);
        }
    }
}

/// A cut of the queue with entries no farther than `d` before it and a
/// farther entry at it is the rank.
pub proof fn lemma_rank_found(s: Seq<Turn>, d: u32, q: int)
    requires
        0 <= q <= s.len(),
        forall|k: int| 0 <= k < q ==> (#[trigger] s[k]).distance <= d,
        q < s.len() ==> s[q].distance > d,
    ensures
        rank(s, d) == q,
    decreases q,
{
    if q > 0 {
        let rest = s.drop_first();
        assert forall|k: int| 0 <= k < q - 1 implies (#[trigger] rest[k]).distance <= d by {
            assert(rest[k] == s[k + 1]);
        }
        if q - 1 < rest.len() {
            assert(rest[q - 1] == s[q]);
        }
        lemma_rank_found(rest, d, q - 1);
    }
}

/// A queue in ascending order stays so when an entry is scheduled, and holds
/// the entries it held, and the new one.
pub proof fn lemma_scheduled(s: Seq<Turn>, t: Turn)
    requires
        ascending(s),
    ensures
        ascending(scheduled(s, t)),
        scheduled(s, t).len() == s.len() + 1,
        scheduled(s, t)[rank(s, t.distance)] == t,
        forall|k: int|
            0 <= k < s.len() ==> #[trigger] s[k] == scheduled(s, t)[if k < rank(s, t.distance) {
                k
            } else {
                k + 1
            }],
{
    lemma_rank_cut(s, t.distance);
    let q = rank(s, t.distance);
    let r = scheduled(s, t);
    assert forall|i: int, j: int| 0 <= i <= j < r.len() implies r[i].distance
        <= r[j].distance by {
        if i < q {
            assert(r[i] == s[i]);
        } else if i > q {
            assert(r[i] == s[i - 1]);
        }
        if j < q {
            assert(r[j] == s[j]);
        } else if j > q {
            assert(r[j] == s[j - 1]);
            if q < s.len() {
                assert(s[q].distance <= s[j - 1].distance);
            }
        }
    }
}

/// The monsters that are yet to act this round, nearest to the player first.
pub struct MonsterTurns {
    /// All entries of the round in ascending order of distance.
    pub entries: Vec<Turn>,
    /// How many of them have left the queue.
    pub next: usize,
}

impl View for MonsterTurns {
    type V = Seq<Turn>;

    /// The entries that are still waiting, in the order in which they leave.
    open spec fn view(&self) -> Seq<Turn> {
        self.entries@.subrange(self.next as int, self.entries@.len() as int)
    }
}

impl MonsterTurns {
    /// The waiting entries are in ascending order of distance.
    pub open spec fn wf(&self) -> bool {
        &&& self.next <= self.entries@.len()
        &&& ascending(self@)
    }

    /// An empty queue.
    pub fn new() -> (turns: MonsterTurns)
        ensures
            turns.wf(),
            turns@ == Seq::<Turn>::empty(),
    {
        MonsterTurns { entries: Vec::new(), next: 0 }
    }

    /// Number of entries that are waiting.
    pub fn len(&self) -> (n: usize)
        requires
            self.wf(),
        ensures
            n == self@.len(),
    {
        self.entries.len() - self.next
    }

    /// Empties the queue.
    pub fn clear(&mut self)
        ensures
            final(self).wf(),
            final(self)@ == Seq::<Turn>::empty(),
    {
        self.entries.clear();
        self.next = 0;
    }

    /// Adds an entry behind those that are no farther from the player.
    pub fn push(&mut self, distance: u32, actor: Actor)
        requires
            old(self).wf(),
        ensures
            final(self).wf(),
            final(self)@ == scheduled(old(self)@, Turn { distance, actor }),
    {
        let mut p: usize = self.next;
        while p < self.entries.len() && self.entries[p].distance <= distance
            invariant
                self.next <= p <= self.entries@.len(),
                forall|k: int| self.next <= k < p ==> (#[trigger] self.entries@[k]).distance <= distance,
            decreases self.entries@.len() - p,
        {
            p += 1;
        }
        let t = Turn { distance, actor };
        proof {
            let s = self@;
            assert forall|k: int| 0 <= k < p - self.next implies (#[trigger] s[k]).distance
                <= distance by {
                assert(s[k] == self.entries@[self.next + k]);
            }
            lemma_rank_found(s, distance, p - self.next);
            lemma_scheduled(s, t);
        }
        self.entries.insert(p, t);
        assert(self@ =~= scheduled(old(self)@, t));
    }

    /// Takes the entry that is nearest to the player out of the queue, if
    /// there is any.
    pub fn pop(&mut self) -> (turn: Option<Turn>)
        requires
            old(self).wf(),
        ensures
            final(self).wf(),
            match turn {
                Some(t) => old(self)@.len() > 0 && t == old(self)@[0] && final(self)@ == old(
                    self,
                )@.drop_first(),
                None => old(self)@.len() == 0 && final(self)@ == old(self)@,
            },
            turn matches Some(t) ==> forall|k: int|
                0 <= k < final(self)@.len() ==> t.distance <= (#[trigger] final(self)@[k]).distance,
    {
        if self.next < self.entries.len() {
            let t = self.entries[self.next];
            self.next = self.next + 1;
            assert(self@ =~= old(self)@.drop_first());
            assert(t == old(self)@[0]);
            assert forall|k: int| 0 <= k < self@.len() implies t.distance <= (
            #[trigger] self@[k]).distance by {
                assert(self@[k] == old(self)@[k + 1]);
            }
            assert forall|i: int, j: int| 0 <= i <= j < self@.len() implies self@[i].distance
                <= self@[j].distance by {
                assert(self@[i] == old(self)@[i + 1]);
                assert(self@[j] == old(self)@[j + 1]);
            }
            Some(t)
        } else {
            None
        }
    }
}

impl Default for MonsterTurns {
    fn default() -> (turns: MonsterTurns)
        ensures
            turns.wf(),
            turns@ == Seq::<Turn>::empty(),
    {
        MonsterTurns::new()
    }
}

/// Whether slot `i` holds a monster that stands on the map.
pub open spec fn eligible(w: WorldView, i: int) -> bool {
    &&& 0 <= i < w.slots.len()
    &&& w.slots[i].attrs is Some
    &&& w.slots[i].attrs.unwrap().monster is Some
    &&& w.slots[i].attrs.unwrap().position is Some
}

/// The entry of the monster in slot `i` when the player is at `player_cell`.
pub open spec fn turn_of(w: WorldView, player_cell: Position, i: int) -> Turn
    recommends
        eligible(w, i),
{
    Turn {
        distance: chebyshev(w.slots[i].attrs.unwrap().position.unwrap(), player_cell) as u32,
        actor: w.actor_at(i),
    }
}

/// The queue after the monsters in the slots before `upto` have entered it,
/// slot by slot.
pub open spec fn enqueued(w: WorldView, player_cell: Position, upto: int) -> Seq<Turn>
    decreases upto,
{
    if upto <= 0 {
        Seq::empty()
    } else {
        let before = enqueued(w, player_cell, upto - 1);
        if eligible(w, upto - 1) {
            scheduled(before, turn_of(w, player_cell, upto - 1))
        } else {
            before
        }
    }
}

/// The queue of a round holds the monsters that stand on the map and nobody
/// else, each once and with its distance to the player, and lets them go in
/// ascending order of that distance.
pub proof fn lemma_enqueued(w: WorldView, player_cell: Position, upto: int)
    requires
        0 <= upto <= w.slots.len() <= usize::MAX,
    ensures
        ascending(enqueued(w, player_cell, upto)),
        forall|k: int|
            0 <= k < enqueued(w, player_cell, upto).len() ==> {
                let t = #[trigger] enqueued(w, player_cell, upto)[k];
                &&& 0 <= t.actor.index < upto
                &&& eligible(w, t.actor.index as int)
                &&& t == turn_of(w, player_cell, t.actor.index as int)
            },
        forall|i: int|
            0 <= i < upto && eligible(w, i) ==> enqueued(w, player_cell, upto).contains(
                #[trigger] turn_of(w, player_cell, i),
            ),
        forall|k: int, l: int|
            0 <= k < l < enqueued(w, player_cell, upto).len() ==> (#[trigger] enqueued(
                w,
                player_cell,
                upto,
            )[k]).actor != (#[trigger] enqueued(w, player_cell, upto)[l]).actor,
    decreases upto,
{
    if upto > 0 {
        lemma_enqueued(w, player_cell, upto - 1);
        let before = enqueued(w, player_cell, upto - 1);
        let after = enqueued(w, player_cell, upto);
        if eligible(w, upto - 1) {
            let t = turn_of(w, player_cell, upto - 1);
            let q = rank(before, t.distance);
            lemma_scheduled(before, t);
            lemma_rank_cut(before, t.distance);
            assert forall|k: int| 0 <= k < after.len() implies ({
                let e = #[trigger] after[k];
                &&& 0 <= e.actor.index < upto
                &&& eligible(w, e.actor.index as int)
                &&& e == turn_of(w, player_cell, e.actor.index as int)
            }) by {
                if k < q {
                    assert(before[k] == after[k]);
                } else if k > q {
                    assert(before[k - 1] == after[k]);
                } else {
                    assert(after[k] == t);
                }
            }
            assert forall|k: int, l: int| 0 <= k < l < after.len() implies (#[trigger] after[k]).actor
                != (#[trigger] after[l]).actor by {
                let from = |j: int|
                    if j < q {
                        j
                    } else {
                        j - 1
                    };
                if k != q {
                    assert(before[from(k)] == after[k]);
                }
                if l != q {
                    assert(before[from(l)] == after[l]);
                }
            }
            assert forall|i: int| 0 <= i < upto && eligible(w, i) implies after.contains(
                #[trigger] turn_of(w, player_cell, i),
            ) by {
                if i == upto - 1 {
                    assert(after[q] == t);
                } else {
                    let k = choose|k: int|
                        0 <= k < before.len() && before[k] == turn_of(w, player_cell, i);
                    assert(before[k] == after[if k < q {
                        k
                    } else {
                        k + 1
                    }]);
                }
            }
        }
    }
}

/// Builds the queue of a round: whatever it held goes, and every monster
/// that stands on the map enters with its distance to the player.
pub fn enqueue_monster_turns(turns: &mut MonsterTurns, world: &World, player: PlayerId)
    requires
        world.wf(),
        world@.alive(player.0),
        world@.attrs(player.0).position is Some,
    ensures
        final(turns).wf(),
        final(turns)@ == enqueued(
            world@,
            world@.attrs(player.0).position.unwrap(),
            world@.slots.len() as int,
        ),
        forall|k: int|
            0 <= k < final(turns)@.len() ==> {
                let t = #[trigger] final(turns)@[k];
                &&& world@.alive(t.actor)
                &&& world@.attrs(t.actor).monster is Some
                &&& world@.attrs(t.actor).position is Some
                &&& t.distance == chebyshev(
                    world@.attrs(t.actor).position.unwrap(),
                    world@.attrs(player.0).position.unwrap(),
                )
            },
        forall|a: Actor|
            #![trigger world@.alive(a)]
            world@.alive(a) && world@.attrs(a).monster is Some && world@.attrs(a).position is Some
                ==> exists|k: int| 0 <= k < final(turns)@.len() && final(turns)@[k].actor == a,
        forall|k: int, l: int|
            0 <= k < l < final(turns)@.len() ==> (#[trigger] final(turns)@[k]).actor != (
            #[trigger] final(turns)@[l]).actor,
{
    let player_cell = world.get(player.0).unwrap().position.unwrap();
    turns.clear();
    let n = world.slots.len();
    let mut i: usize = 0;
    while i < n
        invariant
            i <= n,
            n == world@.slots.len(),
            world.wf(),
            turns.wf(),
            turns@ == enqueued(world@, player_cell, i as int),
        decreases n - i,
    {
        let slot = world.slots[i];
        match slot.attrs {
            Some(attrs) => {
                match attrs.position {
                    Some(cell) => {
                        if attrs.monster.is_some() {
                            turns.push(
                                cell.span(&player_cell),
                                Actor { index: i, generation: slot.generation },
                            );
                        }
                    },
                    None => {},
                }
            },
            None => {},
        }
        i += 1;
    }
    proof {
        lemma_enqueued(world@, player_cell, n as int);
        assert forall|a: Actor|
            #![trigger world@.alive(a)]
            world@.alive(a) && world@.attrs(a).monster is Some && world@.attrs(a).position
                is Some implies exists|k: int|
            0 <= k < turns@.len() && turns@[k].actor == a by {
            assert(eligible(world@, a.index as int));
            let t = turn_of(world@, player_cell, a.index as int);
            assert(turns@.contains(t));
            let k = choose|k: int| 0 <= k < turns@.len() && turns@[k] == t;
            assert(turns@[k].actor == a);
        }
    }
}

/// Number of entries at the front of `s` whose monsters are no longer in
/// the store.
pub open spec fn stale(w: WorldView, s: Seq<Turn>) -> int
    decreases s.len(),
{
    if s.len() > 0 && !w.alive(s[0].actor) {
        1 + stale(w, s.drop_first())
    } else {
        0
    }
}

/// The stale entries at the front of a queue are those of monsters that are
/// no longer in the store, and the entry behind them, if there is one, is of
/// a monster that still is.
pub proof fn lemma_stale_cut(w: WorldView, s: Seq<Turn>)
    ensures
        0 <= stale(w, s) <= s.len(),
        forall|k: int| 0 <= k < stale(w, s) ==> !w.alive((#[trigger] s[k]).actor),
        stale(w, s) < s.len() ==> w.alive(s[stale(w, s)].actor),
    decreases s.len(),
{
    if s.len() > 0 && !w.alive(s[0].actor) {
        let rest = s.drop_first();
        lemma_stale_cut(w, rest);
        assert forall|k: int| 0 <= k < stale(w, s) implies !w.alive((#[trigger] s[k]).actor) by {
            if k > 0 {
                assert(s[k] == rest[k - 1]);
            }
        }
        if stale(w, s) < s.len() {
            assert(s[stale(w, s)] == rest[stale(w, rest)]);
        }
    }
}

/// Takes the next monster that is still in the store out of the queue.
///
/// Entries of monsters that have left the store since the queue was built
/// are dropped on the way, and nothing else happens for them: the store is
/// not touched. `None` means that the queue has run empty.
pub fn next_monster_turn(turns: &mut MonsterTurns, world: &World) -> (monster: Option<Actor>)
    requires
        old(turns).wf(),
        world.wf(),
    ensures
        final(turns).wf(),
        match monster {
            Some(m) => {
                let k = stale(world@, old(turns)@);
                &&& k < old(turns)@.len()
                &&& m == old(turns)@[k].actor
                &&& world@.alive(m)
                &&& final(turns)@ == old(turns)@.subrange(k + 1, old(turns)@.len() as int)
            },
            None => {
                &&& stale(world@, old(turns)@) == old(turns)@.len()
                &&& final(turns)@ == Seq::<Turn>::empty()
            },
        },
{
    loop
        invariant
            turns.wf(),
            world.wf(),
            turns@.len() <= old(turns)@.len(),
            turns@ == old(turns)@.subrange(
                old(turns)@.len() - turns@.len(),
                old(turns)@.len() as int,
            ),
            stale(world@, old(turns)@) == old(turns)@.len() - turns@.len() + stale(
                world@,
                turns@,
            ),
        decreases turns@.len(),
    {
        let ghost before = turns@;
        match turns.pop() {
            Some(t) => {
                if world.is_alive(t.actor) {
                    assert(turns@ =~= old(turns)@.subrange(
                        stale(world@, old(turns)@) + 1,
                        old(turns)@.len() as int,
                    ));
                    return Some(t.actor);
                }
                assert(turns@ =~= old(turns)@.subrange(
                    old(turns)@.len() - turns@.len(),
                    old(turns)@.len() as int,
                ));
            },
            None => {
                assert(turns@ =~= Seq::<Turn>::empty());
                return None;
            },
        }
    }
}

/// What the senses of a monster and the pathfinder say when its turn comes.
#[derive(Clone, Copy, Debug, PartialEq, Eq, Structural)]
pub enum Sight {
    /// The monster does not perceive the player.
    Hidden,
    /// The monster perceives the player. `step` is the cell after its own on
    /// the path to the player, if there is a path and it has such a cell.
    Seen { step: Option<Position> },
}

/// What a monster did with its turn.
#[derive(Clone, Copy, Debug, PartialEq, Eq, Structural)]
pub enum TurnAction {
    /// It is asleep; the turn goes to whatever handles sleep.
    Slept,
    /// It did nothing.
    Idled,
    /// It attacked the player.
    Attacked(MeleeOutcome),
    /// It went from one cell to the next. The map has to follow in one
    /// step: `from` is vacated and `to` occupied together.
    Moved { from: Position, to: Position, blocks_tile: bool },
}

/// Whether an actor other than `mover` blocks the cell.
pub open spec fn blocked(w: WorldView, cell: Position, mover: Actor) -> bool {
    exists|i: int| blocks_at(w, cell, mover, i)
}

/// Whether the actor in slot `i` is not `mover` and blocks the cell.
pub open spec fn blocks_at(w: WorldView, cell: Position, mover: Actor, i: int) -> bool {
    &&& 0 <= i < w.slots.len()
    &&& i != mover.index
    &&& w.slots[i].attrs is Some
    &&& w.slots[i].attrs.unwrap().blocks_tile is Some
    &&& w.slots[i].attrs.unwrap().position == Some(cell)
}

/// Whether an actor other than `mover` blocks the cell.
pub fn is_blocked(world: &World, cell: Position, mover: Actor) -> (b: bool)
    requires
        world.wf(),
    ensures
        b == blocked(world@, cell, mover),
{
    let n = world.slots.len();
    let mut i: usize = 0;
    while i < n
        invariant
            i <= n,
            n == world@.slots.len(),
            forall|j: int| 0 <= j < i ==> !blocks_at(world@, cell, mover, j),
        decreases n - i,
    {
        if i != mover.index {
            match world.slots[i].attrs {
                Some(attrs) => {
                    if attrs.blocks_tile.is_some() {
                        match attrs.position {
                            Some(p) => {
                                if p == cell {
                                    assert(blocks_at(world@, cell, mover, i as int));
                                    return true;
                                }
                            },
                            None => {},
                        }
                    }
                },
                None => {},
            }
        }
        i += 1;
    }
    false
}

/// What has to hold of the store for a monster to take its turn: the
/// monster is in the store; if it is awake and perceives the player, both
/// stand on the map; if its next step is onto the player, both can fight;
/// and if it is to another cell that nobody blocks, the monster has a field
/// of view.
pub open spec fn can_take_turn(w: WorldView, player: Actor, monster: Actor, sight: Sight) -> bool {
    &&& w.alive(monster)
    &&& w.attrs(monster).asleep is None && sight is Seen ==> {
        &&& w.attrs(monster).position is Some
        &&& w.alive(player)
        &&& w.attrs(player).position is Some
        &&& sight matches Sight::Seen { step: Some(cell) } ==> if Some(cell) == w.attrs(
            player,
        ).position {
            can_fight(w, monster) && can_fight(w, player)
        } else {
            !blocked(w, cell, monster) ==> w.fov(monster) is Some
        }
    }
}

/// The store after `monster` has gone to `cell`: it stands there, and its
/// field of view is due to be computed again.
pub open spec fn after_move(w: WorldView, monster: Actor, cell: Position) -> WorldView
    recommends
        w.alive(monster),
        w.fov(monster) is Some,
{
    w.with_attrs(monster, Attributes { position: Some(cell), ..w.attrs(monster) }).with_fov(
        monster,
        Some(FieldOfView { dirty: true, ..w.fov(monster).unwrap() }),
    )
}

/// The turn of one monster.
///
/// A monster that is asleep, does not perceive the player, or has no step
/// to take does nothing here. One whose step leads onto the player attacks
/// the player. One whose step leads elsewhere takes it, unless another
/// actor blocks that cell: a monster never steps onto a blocked cell.
pub fn do_turn_for_one_monster(
    world: &mut World,
    msgs: &mut Messages,
    game_seed: u64,
    turn_count: u64,
    player: PlayerId,
    monster: Actor,
    sight: Sight,
) -> (action: TurnAction)
    requires
        old(world).wf(),
        can_take_turn(old(world)@, player.0, monster, sight),
    ensures
        final(world).wf(),
        old(world)@.attrs(monster).asleep is Some ==> {
            &&& action == TurnAction::Slept
            &&& final(world)@ == old(world)@
            &&& final(msgs)@ == old(msgs)@
        },
        old(world)@.attrs(monster).asleep is None ==> match sight {
            Sight::Seen { step: Some(cell) } => if Some(cell) == old(world)@.attrs(
                player.0,
            ).position {
                let outcome = spec_melee_outcome(
                    old(world)@,
                    game_seed,
                    turn_count,
                    monster,
                    player.0,
                );
                &&& action == TurnAction::Attacked(outcome)
                &&& final(world)@ == after_melee(old(world)@, monster, player.0, outcome)
                &&& final(msgs)@ == old(msgs)@.push(
                    melee_line(
                        old(world)@.name(monster).unwrap(),
                        old(world)@.name(player.0).unwrap(),
                        outcome,
                    ),
                )
            } else if blocked(old(world)@, cell, monster) {
                &&& action == TurnAction::Idled
                &&& final(world)@ == old(world)@
                &&& final(msgs)@ == old(msgs)@
            } else {
                &&& action == (TurnAction::Moved {
                    from: old(world)@.attrs(monster).position.unwrap(),
                    to: cell,
                    blocks_tile: old(world)@.attrs(monster).blocks_tile is Some,
                })
                &&& final(world)@ == after_move(old(world)@, monster, cell)
                &&& final(msgs)@ == old(msgs)@
                &&& !blocked(final(world)@, cell, monster)
            },
            _ => {
                &&& action == TurnAction::Idled
                &&& final(world)@ == old(world)@
                &&& final(msgs)@ == old(msgs)@
            },
        },
{
    let attrs = world.get(monster).unwrap();
    if attrs.asleep.is_some() {
        return TurnAction::Slept;
    }
    match sight {
        Sight::Seen { step: Some(cell) } => {
            let from = attrs.position.unwrap();
            let player_cell = world.get(player.0).unwrap().position.unwrap();
            if cell == player_cell {
                let outcome = melee_attack(world, msgs, game_seed, turn_count, monster, player.0);
                TurnAction::Attacked(outcome)
            } else if is_blocked(world, cell, monster) {
                TurnAction::Idled
            } else {
                let mut moved = attrs;
                moved.position = Some(cell);
                world.set(monster, moved);
                world.mark_fov_dirty(monster);
                proof {
                    assert forall|i: int| !blocks_at(world@, cell, monster, i) by {
                        if blocks_at(world@, cell, monster, i) {
                            assert(blocks_at(old(world)@, cell, monster, i));
                        }
                    }
                }
                TurnAction::Moved { from, to: cell, blocks_tile: attrs.blocks_tile.is_some() }
            }
        },
        _ => TurnAction::Idled,
    }
}

} // verus!
