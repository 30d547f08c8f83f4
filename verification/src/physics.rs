//! Bounding volumes and rays.

pub mod aab2;
pub mod aab3;
pub mod ray2;
