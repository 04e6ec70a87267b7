//! A four-way road intersection: spawn gating, adaptive traffic-light control,
//! right-of-way rules for vehicles, and the geometry that the renderer draws.
pub mod constants;
pub mod input;
pub mod map;
pub mod render;
pub mod traffic_light;
pub mod ui;
pub mod vehicle;
pub mod waypoint;
