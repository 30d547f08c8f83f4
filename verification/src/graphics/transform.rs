//! A transform: translation, rotation and scale, composed in a fixed order.

use crate::maths::fixed::ONE_RAW;
use crate::maths::fixed::fx;
use crate::maths::mat4::Mat4;
use crate::maths::mat4::mat_mul_spec;
use crate::maths::mat4::rotation_spec;
use crate::maths::mat4::scale_spec;
use crate::maths::mat4::translation_spec;
use crate::maths::quat::Quat;
use crate::maths::quat::quat_identity_spec;
use crate::maths::scale3::Scale3;
use crate::maths::vec3::Vec3;
use vstd::prelude::*;

verus! {

pub struct Transform {
    pub translation: Vec3,
    pub rotation: Quat,
    pub scale: Scale3,
}

impl Transform {
    /// The composed matrix, always `translation * scale * rotation`: a
    /// column vector is rotated first, then scaled, then translated.  The
    /// order is part of the contract and must not change.
    pub fn transformation(&self) -> (r: Mat4)
        ensures
            r == mat_mul_spec(
                mat_mul_spec(translation_spec(self.translation), scale_spec(self.scale)),
                rotation_spec(self.rotation),
            ),
    {
        Mat4::translation(&self.translation).mul(Mat4::scale(&self.scale)).mul(
            Mat4::rotation(&self.rotation),
        )
    }
}

impl Default for Transform {
    /// The transform that changes nothing.
    fn default() -> (r: Transform)
        ensures
            r.translation == (Vec3 { x: fx(0), y: fx(0), z: fx(0) }),
            r.rotation == quat_identity_spec(),
            r.scale == (Scale3 {
                w: fx(ONE_RAW as int),
                h: fx(ONE_RAW as int),
                d: fx(ONE_RAW as int),
            }),
    {
        Transform {
            translation: Vec3::zero(),
            rotation: Quat::identity(),
            scale: Scale3::identity(),
        }
    }
}

} // verus!
