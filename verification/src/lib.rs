//! Verified core of the vetovoima arcade game: level generation, the gravity
//! field, player control, collision debouncing and the session state machine.
//!
//! Physical quantities are fixed-point integers so that every rule can be
//! stated and proved over mathematical integers.

pub mod timer;
pub mod units;
pub mod random;
pub mod placement;
pub mod terrain;
pub mod gravity;
pub mod objects;
pub mod player;
pub mod collision;
pub mod input;
pub mod menu;
pub mod session;
pub mod simulation;
