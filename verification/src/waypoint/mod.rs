//! A second layout of the intersection: one lane per approach on an 80-pixel
//! road, vehicles that follow waypoints (stop line, optional pivot, exit),
//! random routes and lanes, and a controller that extends a congested green
//! phase once.
pub mod constants;
pub mod input;
pub mod map;
pub mod route;
pub mod traffic_light;
pub mod vehicle;
