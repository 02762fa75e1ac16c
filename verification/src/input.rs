//! The keys that the game reads.

pub mod key_states;
