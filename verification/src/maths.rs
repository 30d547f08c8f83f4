//! The mathematical core: scalars, angles, vectors, points, quaternions,
//! matrices and bounds.

pub mod angle;
pub mod bounds3;
pub mod fixed;
pub mod mat4;
pub mod point2;
pub mod point3;
pub mod quat;
pub mod scale2;
pub mod scale3;
pub mod unit;
pub mod vec2;
pub mod vec3;

pub mod fuzzy;

pub use crate::maths::angle::Angle;
pub use crate::maths::bounds3::Bounds3;
pub use crate::maths::fixed::Fixed;
pub use crate::maths::mat4::Mat4;
pub use crate::maths::point2::Point2;
pub use crate::maths::point3::Point3;
pub use crate::maths::quat::Quat;
pub use crate::maths::scale2::Scale2;
pub use crate::maths::scale3::Scale3;
pub use crate::maths::unit::Normed;
pub use crate::maths::unit::Unit;
pub use crate::maths::vec2::Vec2;
pub use crate::maths::vec3::Vec3;
