//! Simulation core of a fixed-screen arcade shooter.
//!
//! A formation of aliens advances over a playfield in discrete steps, the
//! player and the aliens exchange projectiles, shields absorb fire segment by
//! segment, and a bonus ship crosses the top of the screen now and then.
//!
//! The simulation is exact integer arithmetic. Lengths are whole
//! micro-pixels, durations whole microseconds, and speeds whole pixels per
//! second, so that a speed times a duration is a length with no rounding.
//! Sums and products that leave the 64-bit range stick at its ends.
//!
//! `game::entities` holds what is on the playfield, `game::state` the state
//! that owns it, `game::logic` and `game::collision` the parts of a tick,
//! `game::session` the tick as a whole and the keys, `game::chance` the
//! draws of the random number generator, and `game::laws` what holds of
//! every game. Each rule is stated as a function on the mathematical view
//! of the state, and the executable function is proved to compute it.

pub mod game;
pub mod input;
pub mod utils;
