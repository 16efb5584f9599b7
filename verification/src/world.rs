//! The actor store: a table of slots, each with a generation counter, and
//! the attributes of the actor that lives in it.

use crate::components::{
    Actor, Asleep, BlocksTile, CombatBonus, CombatStats, Equipment, Experience, FieldOfView,
    GivesExperience, HurtBy, Monster, Name, Player, Position, Tally,
};
use vstd::prelude::*;

verus! {

/// Everything that an actor may carry, but for its name and its field of
/// view. Each attribute may be missing.
#[derive(Clone, Copy, Debug)]
pub struct Attributes {
    pub position: Option<Position>,
    pub stats: Option<CombatStats>,
    pub equipment: Option<Equipment>,
    pub bonus: Option<CombatBonus>,
    pub asleep: Option<Asleep>,
    pub hurt_by: Option<HurtBy>,
    pub tally: Option<Tally>,
    pub experience: Option<Experience>,
    pub gives_experience: Option<GivesExperience>,
    pub blocks_tile: Option<BlocksTile>,
    pub monster: Option<Monster>,
    pub player: Option<Player>,
}

impl Attributes {
    /// No attribute at all.
    pub open spec fn spec_bare() -> Attributes {
        Attributes {
            position: None,
            stats: None,
            equipment: None,
            bonus: None,
            asleep: None,
            hurt_by: None,
            tally: None,
            experience: None,
            gives_experience: None,
            blocks_tile: None,
            monster: None,
            player: None,
        }
    }

    /// No attribute at all: the start of every actor.
    #[verifier::when_used_as_spec(spec_bare)]
    pub fn bare() -> (attrs: Attributes)
        ensures
            attrs == Attributes::spec_bare(),
    {
        Attributes {
            position: None,
            stats: None,
            equipment: None,
            bonus: None,
            asleep: None,
            hurt_by: None,
            tally: None,
            experience: None,
            gives_experience: None,
            blocks_tile: None,
            monster: None,
            player: None,
        }
    }
}

/// One slot of the store. The generation counts the actors that have lived
/// in the slot before the present one; without attributes the slot is free.
#[derive(Clone, Copy, Debug)]
pub struct Slot {
    pub generation: u64,
    pub attrs: Option<Attributes>,
}

/// The store as mathematics sees it: the slots, and the name and the field
/// of view of the actor in each.
pub struct WorldView {
    pub slots: Seq<Slot>,
    pub names: Seq<Option<Seq<char>>>,
    pub fovs: Seq<Option<FieldOfView>>,
}

impl WorldView {
    /// The slots can be counted by a `usize`, every slot has an entry for a
    /// name and one for a field of view, and a free slot has neither.
    pub open spec fn wf(self) -> bool {
        &&& self.slots.len() <= usize::MAX
        &&& self.slots.len() == self.names.len()
        &&& self.slots.len() == self.fovs.len()
        &&& forall|i: int|
            0 <= i < self.slots.len() && (#[trigger] self.slots[i]).attrs is None ==> {
                &&& self.names[i] is None
                &&& self.fovs[i] is None
            }
    }

    /// The field of view of an actor that is in the store.
    pub open spec fn fov(self, actor: Actor) -> Option<FieldOfView>
        recommends
            self.alive(actor),
    {
        self.fovs[actor.index as int]
    }

    /// The store with another field of view, or none, for one actor.
    pub open spec fn with_fov(self, actor: Actor, fov: Option<FieldOfView>) -> WorldView
        recommends
            self.alive(actor),
    {
        WorldView { fovs: self.fovs.update(actor.index as int, fov), ..self }
    }

    /// Whether the handle names an actor that is in the store.
    pub open spec fn alive(self, actor: Actor) -> bool {
        &&& actor.index < self.slots.len()
        &&& self.slots[actor.index as int].generation == actor.generation
        &&& self.slots[actor.index as int].attrs is Some
    }

    /// The attributes of an actor that is in the store.
    pub open spec fn attrs(self, actor: Actor) -> Attributes
        recommends
            self.alive(actor),
    {
        self.slots[actor.index as int].attrs.unwrap()
    }

    /// The name of an actor that is in the store.
    pub open spec fn name(self, actor: Actor) -> Option<Seq<char>>
        recommends
            self.alive(actor),
    {
        self.names[actor.index as int]
    }

    /// The handle of whoever lives in slot `i`.
    pub open spec fn actor_at(self, i: int) -> Actor
        recommends
            0 <= i < self.slots.len(),
    {
        Actor { index: i as usize, generation: self.slots[i].generation }
    }

    /// The store with other attributes for one actor.
    pub open spec fn with_attrs(self, actor: Actor, attrs: Attributes) -> WorldView
        recommends
            self.alive(actor),
    {
        WorldView {
            slots: self.slots.update(
                actor.index as int,
                Slot { generation: actor.generation, attrs: Some(attrs) },
            ),
            ..self
        }
    }

    /// The store without one actor: its slot is free and holds nothing of it.
    pub open spec fn without(self, actor: Actor) -> WorldView
        recommends
            self.alive(actor),
    {
        WorldView {
            slots: self.slots.update(
                actor.index as int,
                Slot { generation: actor.generation, attrs: None },
            ),
            names: self.names.update(actor.index as int, None),
            fovs: self.fovs.update(actor.index as int, None),
        }
    }

    /// Whether slot `i` can take a new actor: it is free and its generation
    /// counter has not run out.
    pub open spec fn vacant(self, i: int) -> bool {
        self.slots[i].attrs is None && self.slots[i].generation < u64::MAX
    }

    /// The first vacant slot at or after `from`, or the number of slots if
    /// there is none.
    pub open spec fn first_vacant(self, from: int) -> int
        decreases self.slots.len() - from,
    {
        if from < 0 || from >= self.slots.len() {
            self.slots.len() as int
        } else if self.vacant(from) {
            from
        } else {
            self.first_vacant(from + 1)
        }
    }

    /// The handle that the next new actor gets.
    pub open spec fn next_actor(self) -> Actor {
        let i = self.first_vacant(0);
        if i < self.slots.len() {
            Actor { index: i as usize, generation: (self.slots[i].generation + 1) as u64 }
        } else {
            Actor { index: i as usize, generation: 0 }
        }
    }

    /// The store with a new actor in the first vacant slot, or in a new slot
    /// at the end. The new actor has no field of view yet.
    pub open spec fn spawned(self, name: Option<Seq<char>>, attrs: Attributes) -> WorldView {
        let actor = self.next_actor();
        let slot = Slot { generation: actor.generation, attrs: Some(attrs) };
        if actor.index < self.slots.len() {
            WorldView {
                slots: self.slots.update(actor.index as int, slot),
                names: self.names.update(actor.index as int, name),
                fovs: self.fovs,
            }
        } else {
            WorldView {
                slots: self.slots.push(slot),
                names: self.names.push(name),
                fovs: self.fovs.push(None),
            }
        }
    }
}

/// The view of a name that may be missing.
pub open spec fn name_view(name: Option<Name>) -> Option<Seq<char>> {
    match name {
        Some(n) => Some(n@),
        None => None,
    }
}

/// The actor store.
pub struct World {
    pub slots: Vec<Slot>,
    pub names: Vec<Option<Name>>,
    pub fovs: Vec<Option<FieldOfView>>,
}

impl View for World {
    type V = WorldView;

    open spec fn view(&self) -> WorldView {
        WorldView {
            slots: self.slots@,
            names: Seq::new(self.names@.len(), |i: int| name_view(self.names@[i])),
            fovs: self.fovs@,
        }
    }
}

impl World {
    /// What every store built by the functions below satisfies.
    pub open spec fn wf(&self) -> bool {
        self@.wf()
    }

    /// An empty store.
    pub fn new() -> (world: World)
        ensures
            world.wf(),
            world@.slots.len() == 0,
    {
        World { slots: Vec::new(), names: Vec::new(), fovs: Vec::new() }
    }

    /// Whether the handle names an actor that is in the store.
    pub fn is_alive(&self, actor: Actor) -> (alive: bool)
        requires
            self.wf(),
        ensures
            alive == self@.alive(actor),
    {
        actor.index < self.slots.len() && self.slots[actor.index].generation == actor.generation
            && self.slots[actor.index].attrs.is_some()
    }

    /// The attributes of an actor, if it is in the store.
    pub fn get(&self, actor: Actor) -> (attrs: Option<Attributes>)
        requires
            self.wf(),
        ensures
            attrs == if self@.alive(actor) {
                Some(self@.attrs(actor))
            } else {
                None
            },
    {
        if self.is_alive(actor) {
            self.slots[actor.index].attrs
        } else {
            None
        }
    }

    /// The name of an actor, if it is in the store and has one.
    pub fn name(&self, actor: Actor) -> (name: Option<&Name>)
        requires
            self.wf(),
        ensures
            match name {
                Some(n) => self@.alive(actor) && self@.name(actor) == Some(n@),
                None => !self@.alive(actor) || self@.name(actor) is None,
            },
    {
        if self.is_alive(actor) {
            self.names[actor.index].as_ref()
        } else {
            None
        }
    }

    /// Gives an actor other attributes. Returns whether the actor is in the
    /// store; if it is not, nothing changes.
    pub fn set(&mut self, actor: Actor, attrs: Attributes) -> (done: bool)
        requires
            old(self).wf(),
        ensures
            final(self).wf(),
            done == old(self)@.alive(actor),
            final(self)@ == if done {
                old(self)@.with_attrs(actor, attrs)
            } else {
                old(self)@
            },
    {
        if self.is_alive(actor) {
            self.slots.set(actor.index, Slot { generation: actor.generation, attrs: Some(attrs) });
            assert(self@.names =~= old(self)@.names);
            true
        } else {
            false
        }
    }

    /// Puts a new actor into the store and returns its handle. The first
    /// vacant slot is used again, under the next generation; if there is
    /// none, the store grows by one slot.
    pub fn spawn(&mut self, name: Option<Name>, attrs: Attributes) -> (actor: Actor)
        requires
            old(self).wf(),
        ensures
            final(self).wf(),
            actor == old(self)@.next_actor(),
            final(self)@ == old(self)@.spawned(name_view(name), attrs),
            !old(self)@.alive(actor),
            final(self)@.alive(actor),
    {
        let mut i: usize = 0;
        while i < self.slots.len() && !(self.slots[i].attrs.is_none() && self.slots[i].generation
            < u64::MAX)
            invariant
                i <= self.slots.len(),
                self@.first_vacant(0) == self@.first_vacant(i as int),
            decreases self.slots.len() - i,
        {
            i += 1;
        }
        if i < self.slots.len() {
            let generation: u64 = self.slots[i].generation + 1;
            self.slots.set(i, Slot { generation, attrs: Some(attrs) });
            self.names.set(i, name);
            assert(self@.names =~= old(self)@.names.update(i as int, name_view(name)));
            Actor { index: i, generation }
        } else {
            self.slots.push(Slot { generation: 0, attrs: Some(attrs) });
            self.names.push(name);
            self.fovs.push(None);
            assert(self@.names =~= old(self)@.names.push(name_view(name)));
            assert(self.slots@.len() == self.slots.len());
            Actor { index: i, generation: 0 }
        }
    }

    /// Removes an actor and all it carries from the store. Returns whether
    /// the actor was in the store; if it was not, nothing changes.
    pub fn despawn(&mut self, actor: Actor) -> (done: bool)
        requires
            old(self).wf(),
        ensures
            final(self).wf(),
            done == old(self)@.alive(actor),
            final(self)@ == if done {
                old(self)@.without(actor)
            } else {
                old(self)@
            },
            !final(self)@.alive(actor),
    {
        if self.is_alive(actor) {
            self.slots.set(actor.index, Slot { generation: actor.generation, attrs: None });
            self.names.set(actor.index, None);
            self.fovs.set(actor.index, None);
            assert(self@.names =~= old(self)@.names.update(actor.index as int, None));
            true
        } else {
            false
        }
    }

    /// The field of view of an actor, if it is in the store and has one.
    pub fn fov(&self, actor: Actor) -> (fov: Option<&FieldOfView>)
        requires
            self.wf(),
        ensures
            match fov {
                Some(f) => self@.alive(actor) && self@.fov(actor) == Some(*f),
                None => !self@.alive(actor) || self@.fov(actor) is None,
            },
    {
        if self.is_alive(actor) {
            self.fovs[actor.index].as_ref()
        } else {
            None
        }
    }

    /// Gives an actor another field of view, or takes it away. Returns
    /// whether the actor is in the store; if it is not, nothing changes.
    pub fn set_fov(&mut self, actor: Actor, fov: Option<FieldOfView>) -> (done: bool)
        requires
            old(self).wf(),
        ensures
            final(self).wf(),
            done == old(self)@.alive(actor),
            final(self)@ == if done {
                old(self)@.with_fov(actor, fov)
            } else {
                old(self)@
            },
    {
        if self.is_alive(actor) {
            self.fovs.set(actor.index, fov);
            assert(self@.names =~= old(self)@.names);
            true
        } else {
            false
        }
    }

    /// Marks the field of view of an actor as due to be computed again.
    /// Returns whether the actor is in the store and has a field of view; if
    /// not, nothing changes.
    pub fn mark_fov_dirty(&mut self, actor: Actor) -> (done: bool)
        requires
            old(self).wf(),
        ensures
            final(self).wf(),
            done == (old(self)@.alive(actor) && old(self)@.fov(actor) is Some),
            final(self)@ == if done {
                old(self)@.with_fov(
                    actor,
                    Some(FieldOfView { dirty: true, ..old(self)@.fov(actor).unwrap() }),
                )
            } else {
                old(self)@
            },
    {
        if !self.is_alive(actor) {
            return false;
        }
        self.fovs.push(None);
        let taken = self.fovs.swap_remove(actor.index);
        match taken {
            Some(fov) => {
                self.fovs.set(
                    actor.index,
                    Some(
                        FieldOfView {
                            tiles: fov.tiles,
                            range: fov.range,
                            dirty: true,
                            mark: fov.mark,
                        },
                    ),
                );
                assert(self@.names =~= old(self)@.names);
                assert(self@.fovs =~= old(self)@.fovs.update(
                    actor.index as int,
                    Some(FieldOfView { dirty: true, ..old(self)@.fov(actor).unwrap() }),
                ));
                true
            },
            None => {
                assert(self@.names =~= old(self)@.names);
                assert(self@.fovs =~= old(self)@.fovs);
                false
            },
        }
    }

    /// Number of slots, free ones included.
    pub fn slot_count(&self) -> (n: usize)
        ensures
            n == self@.slots.len(),
    {
        self.slots.len()
    }

    /// The handle of whoever lives in slot `i`, if anyone does.
    pub fn actor_in_slot(&self, i: usize) -> (actor: Option<Actor>)
        requires
            self.wf(),
        ensures
            actor == if i < self@.slots.len() && self@.slots[i as int].attrs is Some {
                Some(self@.actor_at(i as int))
            } else {
                None
            },
            actor matches Some(a) ==> self@.alive(a),
    {
        if i < self.slots.len() && self.slots[i].attrs.is_some() {
            Some(Actor { index: i, generation: self.slots[i].generation })
        } else {
            None
        }
    }
}

} // verus!
