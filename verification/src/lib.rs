//! Core of a reaction-time training game.
//!
//! A target appears at a random position inside the play area; the player
//! must click it. Each successful hit shrinks the interval between spawns,
//! so the game speeds up as the player improves. This crate holds the
//! engine-independent core: the activity gate, the adaptive spawn timer,
//! the target arena with its hit-test geometry, and the frequency
//! controller, all driven per frame by a host loop that supplies input,
//! elapsed time and display geometry.
//!
//! Time is measured in integer microseconds; positions are integer world
//! units with the origin at the centre of the play area.

pub mod game;
pub mod geometry;
pub mod random;
pub mod state;
pub mod target;
pub mod timer;
