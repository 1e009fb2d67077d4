//! Sailing on an eight-point compass: directions on a ring, the point of
//! sail relative to the wind, and the maneuver points a turn costs.

pub mod dir;
pub mod sail;
pub mod ship;
pub mod vector;
