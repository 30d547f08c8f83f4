//! Velocity: a small geometric-algebra library for games and rendering.
//!
//! All numeric work is done on `maths::Fixed`, a binary fixed-point scalar
//! (16 fractional bits) with saturating arithmetic, so every operation has an
//! exact, machine-checked contract.  The library provides angles, 2D/3D
//! vectors and points, unit-length wrappers, quaternions, 4x4 column-major
//! matrices, and axis-aligned bounding volumes, plus the camera and transform
//! value objects that compose them.

pub mod app;
pub mod graphics;
pub mod maths;
pub mod physics;
