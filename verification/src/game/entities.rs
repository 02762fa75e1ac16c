//! What is on the playfield.

pub mod alien;
pub mod mystery_ship;
pub mod player;
pub mod projectile;
pub mod shield;
