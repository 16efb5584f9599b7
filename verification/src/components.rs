//! Attributes that an actor may carry.

use crate::fixed::Fixed;
use std::collections::HashMap;
use vstd::prelude::*;

verus! {

/// Tag: the actor stops others from entering its cell.
#[derive(Clone, Copy, Debug, PartialEq, Eq, Structural)]
pub struct BlocksTile;

/// Tag: the actor is the player.
#[derive(Clone, Copy, Debug, PartialEq, Eq, Structural)]
pub struct Player;

/// Tag: the actor is a monster and takes turns of its own.
#[derive(Clone, Copy, Debug, PartialEq, Eq, Structural)]
pub struct Monster;

/// Tag: the actor is asleep and does not act.
#[derive(Clone, Copy, Debug, PartialEq, Eq, Structural)]
pub struct Asleep;

/// Display name of an actor.
pub struct Name(pub String);

impl View for Name {
    type V = Seq<char>;

    open spec fn view(&self) -> Seq<char> {
        self.0@
    }
}

/// Handle of an actor in the store: the slot it lives in, and which tenant of
/// that slot it is. A handle stays valid until its actor is removed, and is
/// never valid again after that.
#[derive(Clone, Copy, Debug, PartialEq, Eq, Hash, Structural)]
pub struct Actor {
    pub index: usize,
    pub generation: u64,
}

/// The actor that the person at the keyboard plays.
#[derive(Clone, Copy, Debug, PartialEq, Eq, Structural)]
pub struct PlayerId(pub Actor);

/// Hit points and the two stats that melee is decided by.
#[derive(Clone, Copy, Debug, PartialEq, Eq, Structural)]
pub struct CombatStats {
    pub hp: i32,
    pub attack: Fixed,
    pub defense: Fixed,
}

/// What a piece of equipment adds to the stats of its bearer.
#[derive(Clone, Copy, Debug, PartialEq, Eq, Structural)]
pub struct CombatBonus {
    pub attack: Fixed,
    pub defense: Fixed,
}

/// What an actor has equipped; each piece is an actor of its own.
#[derive(Clone, Copy, Debug)]
pub struct Equipment {
    pub weapon: Option<Actor>,
    pub armor: Option<Actor>,
}

/// Who or what last took hit points from an actor.
#[derive(Clone, Copy, Debug, PartialEq, Eq, Structural)]
pub enum HurtBy {
    /// Another actor, who earns the credit if this one dies.
    Someone(Actor),
    /// Something that earns no credit.
    Misfortune,
}

/// Running totals of what an actor has done and suffered. Each counter stops
/// at `u64::MAX`.
#[derive(Clone, Copy, Debug, PartialEq, Eq, Structural)]
pub struct Tally {
    pub damage_dealt: u64,
    pub damage_taken: u64,
    pub kills: u64,
}

/// Experience that an actor has gathered; it stops at `u64::MAX`.
#[derive(Clone, Copy, Debug, PartialEq, Eq, Structural)]
pub struct Experience {
    pub exp: u64,
}

/// Experience that goes to whoever kills the actor.
#[derive(Clone, Copy, Debug, PartialEq, Eq, Structural)]
pub struct GivesExperience(pub u64);

/// A cell of the dungeon grid.
#[derive(Clone, Copy, Debug, PartialEq, Eq, Structural)]
pub struct Position {
    pub x: i32,
    pub y: i32,
}

/// Absolute value of a mathematical integer.
pub open spec fn abs(v: int) -> int {
    if v < 0 {
        -v
    } else {
        v
    }
}

/// Chebyshev distance between two cells: the number of king moves from one to
/// the other.
pub open spec fn chebyshev(a: Position, b: Position) -> int {
    let dx = abs(b.x - a.x);
    let dy = abs(b.y - a.y);
    if dx >= dy {
        dx
    } else {
        dy
    }
}

impl Position {
    /// Chebyshev distance to `other`, for cells whose coordinates differ by
    /// less than 2^31 on each axis.
    pub fn dist(&self, other: &Position) -> (d: i32)
        requires
            abs(other.x - self.x) <= i32::MAX,
            abs(other.y - self.y) <= i32::MAX,
        ensures
            d == chebyshev(*self, *other),
    {
        let dx: i32 = if other.x >= self.x {
            other.x - self.x
        } else {
            self.x - other.x
        };
        let dy: i32 = if other.y >= self.y {
            other.y - self.y
        } else {
            self.y - other.y
        };
        if dx >= dy {
            dx
        } else {
            dy
        }
    }

    /// Chebyshev distance to `other` for any two cells.
    pub fn span(&self, other: &Position) -> (d: u32)
        ensures
            d == chebyshev(*self, *other),
    {
        let dx: u32 = gap(self.x, other.x);
        let dy: u32 = gap(self.y, other.y);
        if dx >= dy {
            dx
        } else {
            dy
        }
    }
}

impl From<&Position> for (i32, i32) {
    fn from(pos: &Position) -> (pair: Self) {
        (pos.x, pos.y)
    }
}

impl vstd::std_specs::convert::FromSpecImpl<&Position> for (i32, i32) {
    open spec fn obeys_from_spec() -> bool {
        true
    }

    open spec fn from_spec(pos: &Position) -> Self {
        (pos.x, pos.y)
    }
}

impl From<(i32, i32)> for Position {
    fn from(pair: (i32, i32)) -> (pos: Self) {
        Position { x: pair.0, y: pair.1 }
    }
}

impl vstd::std_specs::convert::FromSpecImpl<(i32, i32)> for Position {
    open spec fn obeys_from_spec() -> bool {
        true
    }

    open spec fn from_spec(pair: (i32, i32)) -> Self {
        Position { x: pair.0, y: pair.1 }
    }
}

/// Distance between two coordinates on one axis.
fn gap(a: i32, b: i32) -> (d: u32)
    ensures
        d == abs(b - a),
{
    let wide: i64 = if b >= a {
        b as i64 - a as i64
    } else {
        a as i64 - b as i64
    };
    wide as u32
}

/// What an actor can currently see.
pub struct FieldOfView {
    /// Cells in view, each with whether it is lit.
    pub tiles: HashMap<(i32, i32), bool>,
    /// How far the actor sees.
    pub range: i32,
    /// Set when the view has to be computed again.
    pub dirty: bool,
    /// A mark for whoever computes the view to leave between two passes.
    pub mark: bool,
}

impl FieldOfView {
    /// An empty field of view that is due to be computed.
    pub fn new(range: i32) -> (fov: FieldOfView)
        requires
            range > 0,
        ensures
            fov.tiles@ == Map::<(i32, i32), bool>::empty(),
            fov.range == range,
            fov.dirty,
            !fov.mark,
    {
        FieldOfView { tiles: HashMap::new(), range, dirty: true, mark: false }
    }
}

} // verus!
