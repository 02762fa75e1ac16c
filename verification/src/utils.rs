//! Geometry and arithmetic shared by every entity.

pub mod position;
pub mod units;
