pub mod intersection;

pub use intersection::Intersection;
