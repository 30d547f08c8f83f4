//! Camera, transform and vertex value objects.

pub mod camera;
pub mod transform;
pub mod vertex;
