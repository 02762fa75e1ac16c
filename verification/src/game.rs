//! The entities, the state that owns them, and the rules that move it.

pub mod chance;
pub mod collision;
pub mod entities;
pub mod laws;
pub mod logic;
pub mod session;
pub mod state;
