//! Turn resolution for a grid-based dungeon crawler: which monsters act and in
//! what order, how a melee exchange is decided, and how the dead are swept out
//! of the actor store, together with the character grid the game is drawn on.

pub mod chargrid;
pub mod components;
pub mod damage;
pub mod death;
pub mod dice;
pub mod digest;
pub mod fixed;
pub mod font;
pub mod grid;
pub mod melee;
pub mod message;
pub mod monster;
pub mod util;
pub mod world;
pub mod yes_no_dialog;
