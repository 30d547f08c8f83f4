//! A 4x4 matrix in column-major order: field `mIJ` is column `I`, row `J`,
//! and flat index `i` addresses column `i / 4`, row `i % 4`.
//!
//! Matrices are meant to be built through the factory functions (identity,
//! translation, rotation, scale, perspective, orthographic, view); vectors
//! are treated as column vectors, so `transform` computes `M * v` and the
//! product `a.mul(b)` applies `b` first.  Inverting a singular matrix does
//! not fail: the reciprocal of the zero determinant saturates, and the
//! entries become the adjugate scaled by that saturated value, much as a
//! zero determinant floods a floating-point inverse with infinities.

use crate::maths::angle::Angle;
use crate::maths::angle::cos_spec;
use crate::maths::angle::sin_spec;
use crate::maths::angle::wrap_spec;
use crate::maths::fixed::Fixed;
use crate::maths::fixed::ONE_RAW;
use crate::maths::fixed::fadd;
use crate::maths::fixed::fdiv;
use crate::maths::fixed::fmul;
use crate::maths::fixed::fneg;
use crate::maths::fixed::fsub;
use crate::maths::fixed::fx;
use crate::maths::fixed::lemma_fmul_one;
use crate::maths::fixed::lemma_fmul_zero;
use crate::maths::fixed::quot;
use crate::maths::point3::Point3;
use crate::maths::quat::Quat;
use crate::maths::scale3::Scale3;
use crate::maths::vec3::Vec3;
use crate::maths::vec3::cross3_spec;
use crate::maths::vec3::dot3_spec;
use vstd::prelude::*;

verus! {

#[derive(Clone, Copy, Debug, PartialEq, Eq, Structural)]
pub struct Mat4 {
    pub m00: Fixed,
    pub m01: Fixed,
    pub m02: Fixed,
    pub m03: Fixed,
    pub m10: Fixed,
    pub m11: Fixed,
    pub m12: Fixed,
    pub m13: Fixed,
    pub m20: Fixed,
    pub m21: Fixed,
    pub m22: Fixed,
    pub m23: Fixed,
    pub m30: Fixed,
    pub m31: Fixed,
    pub m32: Fixed,
    pub m33: Fixed,
}

/// The element at flat (column-major) index `i`.
pub open spec fn idx_spec(m: Mat4, i: int) -> Fixed {
    if i == 0 {
        m.m00
    } else if i == 1 {
        m.m01
    } else if i == 2 {
        m.m02
    } else if i == 3 {
        m.m03
    } else if i == 4 {
        m.m10
    } else if i == 5 {
        m.m11
    } else if i == 6 {
        m.m12
    } else if i == 7 {
        m.m13
    } else if i == 8 {
        m.m20
    } else if i == 9 {
        m.m21
    } else if i == 10 {
        m.m22
    } else if i == 11 {
        m.m23
    } else if i == 12 {
        m.m30
    } else if i == 13 {
        m.m31
    } else if i == 14 {
        m.m32
    } else {
        m.m33
    }
}

pub open spec fn mat_identity_spec() -> Mat4 {
    Mat4 {
        m00: fx(ONE_RAW as int), m01: fx(0), m02: fx(0), m03: fx(0),
        m10: fx(0), m11: fx(ONE_RAW as int), m12: fx(0), m13: fx(0),
        m20: fx(0), m21: fx(0), m22: fx(ONE_RAW as int), m23: fx(0),
        m30: fx(0), m31: fx(0), m32: fx(0), m33: fx(ONE_RAW as int),
    }
}

/// The translation by `v`: the identity with `v` in the last column.
pub open spec fn translation_spec(v: Vec3) -> Mat4 {
    Mat4 {
        m00: fx(ONE_RAW as int), m01: fx(0), m02: fx(0), m03: fx(0),
        m10: fx(0), m11: fx(ONE_RAW as int), m12: fx(0), m13: fx(0),
        m20: fx(0), m21: fx(0), m22: fx(ONE_RAW as int), m23: fx(0),
        m30: v.x, m31: v.y, m32: v.z, m33: fx(ONE_RAW as int),
    }
}

/// The rotation matrix of a (unit) quaternion: the standard 3x3 block from
/// the terms `2x^2, 2y^2, 2z^2, 2xy, 2xz, 2yz, 2xw, 2yw, 2zw`, embedded in
/// the 4x4 identity.
pub open spec fn rotation_spec(q: Quat) -> Mat4 {
    let x = q.v.x@;
    let y = q.v.y@;
    let z = q.v.z@;
    let w = q.w@;
    let two_xx = fadd(fmul(x, x), fmul(x, x));
    let two_yy = fadd(fmul(y, y), fmul(y, y));
    let two_zz = fadd(fmul(z, z), fmul(z, z));
    let two_xy = fadd(fmul(x, y), fmul(x, y));
    let two_xz = fadd(fmul(x, z), fmul(x, z));
    let two_yz = fadd(fmul(y, z), fmul(y, z));
    let two_xw = fadd(fmul(x, w), fmul(x, w));
    let two_yw = fadd(fmul(y, w), fmul(y, w));
    let two_zw = fadd(fmul(z, w), fmul(z, w));
    Mat4 {
        m00: fx(fsub(fsub(ONE_RAW as int, two_yy), two_zz)),
        m01: fx(fadd(two_xy, two_zw)),
        m02: fx(fsub(two_xz, two_yw)),
        m03: fx(0),
        m10: fx(fsub(two_xy, two_zw)),
        m11: fx(fsub(fsub(ONE_RAW as int, two_xx), two_zz)),
        m12: fx(fadd(two_yz, two_xw)),
        m13: fx(0),
        m20: fx(fadd(two_xz, two_yw)),
        m21: fx(fsub(two_yz, two_xw)),
        m22: fx(fsub(fsub(ONE_RAW as int, two_xx), two_yy)),
        m23: fx(0),
        m30: fx(0), m31: fx(0), m32: fx(0), m33: fx(ONE_RAW as int),
    }
}

/// The non-uniform scale by `s` on the diagonal.
pub open spec fn scale_spec(s: Scale3) -> Mat4 {
    Mat4 {
        m00: s.w, m01: fx(0), m02: fx(0), m03: fx(0),
        m10: fx(0), m11: s.h, m12: fx(0), m13: fx(0),
        m20: fx(0), m21: fx(0), m22: s.d, m23: fx(0),
        m30: fx(0), m31: fx(0), m32: fx(0), m33: fx(ONE_RAW as int),
    }
}

/// The perspective projection.  With `t = tan(fov / 2)`:
/// `x_scale = 1 / (t * aspect)`, `y_scale = 1 / t`,
/// `z_scale = (-near - far) / (near - far)` with the projective one in
/// row 3 of column 2, and `z_translation = 2 near far / (near - far)`.
pub open spec fn perspective_spec(aspect: int, fov: int, near: int, far: int) -> Mat4 {
    let half = wrap_spec(quot(fov * ((ONE_RAW as int) / 2), ONE_RAW as int));
    let tan_half_fov = fdiv(sin_spec(half), cos_spec(half));
    let x_scale = fdiv(ONE_RAW as int, fmul(tan_half_fov, aspect));
    let y_scale = fdiv(ONE_RAW as int, tan_half_fov);
    let z_scale = fdiv(fsub(fneg(near), far), fsub(near, far));
    let z_translation = fdiv(fmul(fmul(2 * (ONE_RAW as int), near), far), fsub(near, far));
    Mat4 {
        m00: fx(x_scale), m01: fx(0), m02: fx(0), m03: fx(0),
        m10: fx(0), m11: fx(y_scale), m12: fx(0), m13: fx(0),
        m20: fx(0), m21: fx(0), m22: fx(z_scale), m23: fx(ONE_RAW as int),
        m30: fx(0), m31: fx(0), m32: fx(z_translation), m33: fx(0),
    }
}

/// The orthographic projection: per-axis scale `2 / extent` (negated on z)
/// and translation `-(high + low) / extent`.
pub open spec fn orthographic_spec(
    left: int,
    right: int,
    top: int,
    bottom: int,
    near: int,
    far: int,
) -> Mat4 {
    let r_l = fsub(right, left);
    let t_b = fsub(top, bottom);
    let f_n = fsub(far, near);
    let x_scale = fdiv(2 * (ONE_RAW as int), r_l);
    let y_scale = fdiv(2 * (ONE_RAW as int), t_b);
    let z_scale = fdiv(-2 * (ONE_RAW as int), f_n);
    let x_translation = fneg(fdiv(fadd(right, left), r_l));
    let y_translation = fneg(fdiv(fadd(top, bottom), t_b));
    let z_translation = fneg(fdiv(fadd(far, near), f_n));
    Mat4 {
        m00: fx(x_scale), m01: fx(0), m02: fx(0), m03: fx(0),
        m10: fx(0), m11: fx(y_scale), m12: fx(0), m13: fx(0),
        m20: fx(0), m21: fx(0), m22: fx(z_scale), m23: fx(0),
        m30: fx(x_translation), m31: fx(y_translation), m32: fx(z_translation),
        m33: fx(ONE_RAW as int),
    }
}

/// The view matrix of a camera basis: the rows hold the basis vectors, and
/// the translation column holds the negated dot of the position with each
/// basis vector - the standard inverse of the camera's pose.
pub open spec fn view_spec(forward: Vec3, up: Vec3, right: Vec3, position: Point3) -> Mat4 {
    let p = Vec3 { x: position.x, y: position.y, z: position.z };
    Mat4 {
        m00: right.x, m01: right.y, m02: right.z, m03: fx(0),
        m10: up.x, m11: up.y, m12: up.z, m13: fx(0),
        m20: forward.x, m21: forward.y, m22: forward.z, m23: fx(0),
        m30: fx(fneg(dot3_spec(p, right))),
        m31: fx(fneg(dot3_spec(p, up))),
        m32: fx(fneg(dot3_spec(p, forward))),
        m33: fx(ONE_RAW as int),
    }
}

/// One entry of the matrix product: the row of `a` against the column of
/// `b`, as `a.mul(b)` computes it.
pub open spec fn mat_mul_entry(a: Mat4, b: Mat4, col: int, row: int) -> int {
    fadd(
        fadd(
            fadd(
                fmul(idx_spec(b, col * 4 + 0)@, idx_spec(a, 0 * 4 + row)@),
                fmul(idx_spec(b, col * 4 + 1)@, idx_spec(a, 1 * 4 + row)@),
            ),
            fmul(idx_spec(b, col * 4 + 2)@, idx_spec(a, 2 * 4 + row)@),
        ),
        fmul(idx_spec(b, col * 4 + 3)@, idx_spec(a, 3 * 4 + row)@),
    )
}

/// The matrix product `a * b` (apply `b`, then `a`, to a column vector).
pub open spec fn mat_mul_spec(a: Mat4, b: Mat4) -> Mat4 {
    Mat4 {
        m00: fx(mat_mul_entry(a, b, 0, 0)),
        m01: fx(mat_mul_entry(a, b, 0, 1)),
        m02: fx(mat_mul_entry(a, b, 0, 2)),
        m03: fx(mat_mul_entry(a, b, 0, 3)),
        m10: fx(mat_mul_entry(a, b, 1, 0)),
        m11: fx(mat_mul_entry(a, b, 1, 1)),
        m12: fx(mat_mul_entry(a, b, 1, 2)),
        m13: fx(mat_mul_entry(a, b, 1, 3)),
        m20: fx(mat_mul_entry(a, b, 2, 0)),
        m21: fx(mat_mul_entry(a, b, 2, 1)),
        m22: fx(mat_mul_entry(a, b, 2, 2)),
        m23: fx(mat_mul_entry(a, b, 2, 3)),
        m30: fx(mat_mul_entry(a, b, 3, 0)),
        m31: fx(mat_mul_entry(a, b, 3, 1)),
        m32: fx(mat_mul_entry(a, b, 3, 2)),
        m33: fx(mat_mul_entry(a, b, 3, 3)),
    }
}

/// The determinant by cofactor expansion along the first row of columns:
/// each cofactor is a scalar triple product of the remaining columns.
pub open spec fn det_spec(m: Mat4) -> int {
    let c0 = fmul(
        m.m00@,
        dot3_spec(
            cross3_spec(
                Vec3 { x: m.m11, y: m.m12, z: m.m13 },
                Vec3 { x: m.m21, y: m.m22, z: m.m23 },
            ),
            Vec3 { x: m.m31, y: m.m32, z: m.m33 },
        ),
    );
    let c1 = fmul(
        m.m01@,
        dot3_spec(
            cross3_spec(
                Vec3 { x: m.m10, y: m.m12, z: m.m13 },
                Vec3 { x: m.m20, y: m.m22, z: m.m23 },
            ),
            Vec3 { x: m.m30, y: m.m32, z: m.m33 },
        ),
    );
    let c2 = fmul(
        m.m02@,
        dot3_spec(
            cross3_spec(
                Vec3 { x: m.m10, y: m.m11, z: m.m13 },
                Vec3 { x: m.m20, y: m.m21, z: m.m23 },
            ),
            Vec3 { x: m.m30, y: m.m31, z: m.m33 },
        ),
    );
    let c3 = fmul(
        m.m03@,
        dot3_spec(
            cross3_spec(
                Vec3 { x: m.m10, y: m.m11, z: m.m12 },
                Vec3 { x: m.m20, y: m.m21, z: m.m22 },
            ),
            Vec3 { x: m.m30, y: m.m31, z: m.m32 },
        ),
    );
    fsub(fadd(fsub(c0, c1), c2), c3)
}

/// The inverse by the adjugate method: six upper-block and six lower-block
/// 2x2 minors, the determinant from them, and every adjugate entry scaled
/// by the reciprocal of the determinant.
pub open spec fn inverse_spec(m: Mat4) -> Mat4 {
    let b00 = fsub(fmul(m.m00@, m.m11@), fmul(m.m01@, m.m10@));
    let b01 = fsub(fmul(m.m00@, m.m12@), fmul(m.m02@, m.m10@));
    let b02 = fsub(fmul(m.m00@, m.m13@), fmul(m.m03@, m.m10@));
    let b03 = fsub(fmul(m.m01@, m.m12@), fmul(m.m02@, m.m11@));
    let b04 = fsub(fmul(m.m01@, m.m13@), fmul(m.m03@, m.m11@));
    let b05 = fsub(fmul(m.m02@, m.m13@), fmul(m.m03@, m.m12@));
    let b06 = fsub(fmul(m.m20@, m.m31@), fmul(m.m21@, m.m30@));
    let b07 = fsub(fmul(m.m20@, m.m32@), fmul(m.m22@, m.m30@));
    let b08 = fsub(fmul(m.m20@, m.m33@), fmul(m.m23@, m.m30@));
    let b09 = fsub(fmul(m.m21@, m.m32@), fmul(m.m22@, m.m31@));
    let b10 = fsub(fmul(m.m21@, m.m33@), fmul(m.m23@, m.m31@));
    let b11 = fsub(fmul(m.m22@, m.m33@), fmul(m.m23@, m.m32@));
    let det = fadd(
        fsub(
            fadd(
                fadd(fsub(fmul(b00, b11), fmul(b01, b10)), fmul(b02, b09)),
                fmul(b03, b08),
            ),
            fmul(b04, b07),
        ),
        fmul(b05, b06),
    );
    let r = fdiv(ONE_RAW as int, det);
    Mat4 {
        m00: fx(fmul(fadd(fsub(fmul(m.m11@, b11), fmul(m.m12@, b10)), fmul(m.m13@, b09)), r)),
        m01: fx(fmul(fsub(fsub(fmul(m.m02@, b10), fmul(m.m01@, b11)), fmul(m.m03@, b09)), r)),
        m02: fx(fmul(fadd(fsub(fmul(m.m31@, b05), fmul(m.m32@, b04)), fmul(m.m33@, b03)), r)),
        m03: fx(fmul(fsub(fsub(fmul(m.m22@, b04), fmul(m.m21@, b05)), fmul(m.m23@, b03)), r)),
        m10: fx(fmul(fsub(fsub(fmul(m.m12@, b08), fmul(m.m10@, b11)), fmul(m.m13@, b07)), r)),
        m11: fx(fmul(fadd(fsub(fmul(m.m00@, b11), fmul(m.m02@, b08)), fmul(m.m03@, b07)), r)),
        m12: fx(fmul(fsub(fsub(fmul(m.m32@, b02), fmul(m.m30@, b05)), fmul(m.m33@, b01)), r)),
        m13: fx(fmul(fadd(fsub(fmul(m.m20@, b05), fmul(m.m22@, b02)), fmul(m.m23@, b01)), r)),
        m20: fx(fmul(fadd(fsub(fmul(m.m10@, b10), fmul(m.m11@, b08)), fmul(m.m13@, b06)), r)),
        m21: fx(fmul(fsub(fsub(fmul(m.m01@, b08), fmul(m.m00@, b10)), fmul(m.m03@, b06)), r)),
        m22: fx(fmul(fadd(fsub(fmul(m.m30@, b04), fmul(m.m31@, b02)), fmul(m.m33@, b00)), r)),
        m23: fx(fmul(fsub(fsub(fmul(m.m21@, b02), fmul(m.m20@, b04)), fmul(m.m23@, b00)), r)),
        m30: fx(fmul(fsub(fsub(fmul(m.m11@, b07), fmul(m.m10@, b09)), fmul(m.m12@, b06)), r)),
        m31: fx(fmul(fadd(fsub(fmul(m.m00@, b09), fmul(m.m01@, b07)), fmul(m.m02@, b06)), r)),
        m32: fx(fmul(fsub(fsub(fmul(m.m31@, b01), fmul(m.m30@, b03)), fmul(m.m32@, b00)), r)),
        m33: fx(fmul(fadd(fsub(fmul(m.m20@, b03), fmul(m.m21@, b01)), fmul(m.m22@, b00)), r)),
    }
}

impl Mat4 {
    pub fn identity() -> (r: Mat4)
        ensures
            r == mat_identity_spec(),
    {
        let o = Fixed::one();
        let z = Fixed::zero();
        Mat4 {
            m00: o, m01: z, m02: z, m03: z,
            m10: z, m11: o, m12: z, m13: z,
            m20: z, m21: z, m22: o, m23: z,
            m30: z, m31: z, m32: z, m33: o,
        }
    }

    pub fn translation(translation: &Vec3) -> (r: Mat4)
        ensures
            r == translation_spec(*translation),
    {
        let o = Fixed::one();
        let z = Fixed::zero();
        Mat4 {
            m00: o, m01: z, m02: z, m03: z,
            m10: z, m11: o, m12: z, m13: z,
            m20: z, m21: z, m22: o, m23: z,
            m30: translation.x, m31: translation.y, m32: translation.z, m33: o,
        }
    }

    pub fn rotation(rotation: &Quat) -> (r: Mat4)
        ensures
            r == rotation_spec(*rotation),
    {
        let x = rotation.v.x;
        let y = rotation.v.y;
        let z = rotation.v.z;
        let w = rotation.w;
        let xx = x.mul(x);
        let yy = y.mul(y);
        let zz = z.mul(z);
        let xy = x.mul(y);
        let xz = x.mul(z);
        let yz = y.mul(z);
        let xw = x.mul(w);
        let yw = y.mul(w);
        let zw = z.mul(w);
        let two_xx = xx.add(xx);
        let two_yy = yy.add(yy);
        let two_zz = zz.add(zz);
        let two_xy = xy.add(xy);
        let two_xz = xz.add(xz);
        let two_yz = yz.add(yz);
        let two_xw = xw.add(xw);
        let two_yw = yw.add(yw);
        let two_zw = zw.add(zw);
        let o = Fixed::one();
        let zo = Fixed::zero();
        Mat4 {
            m00: o.sub(two_yy).sub(two_zz),
            m01: two_xy.add(two_zw),
            m02: two_xz.sub(two_yw),
            m03: zo,
            m10: two_xy.sub(two_zw),
            m11: o.sub(two_xx).sub(two_zz),
            m12: two_yz.add(two_xw),
            m13: zo,
            m20: two_xz.add(two_yw),
            m21: two_yz.sub(two_xw),
            m22: o.sub(two_xx).sub(two_yy),
            m23: zo,
            m30: zo, m31: zo, m32: zo, m33: o,
        }
    }

    pub fn scale(scale: &Scale3) -> (r: Mat4)
        ensures
            r == scale_spec(*scale),
    {
        let o = Fixed::one();
        let z = Fixed::zero();
        Mat4 {
            m00: scale.w, m01: z, m02: z, m03: z,
            m10: z, m11: scale.h, m12: z, m13: z,
            m20: z, m21: z, m22: scale.d, m23: z,
            m30: z, m31: z, m32: z, m33: o,
        }
    }

    pub fn perspective(aspect_ratio: Fixed, field_of_view: Angle, near: Fixed, far: Fixed) -> (r:
        Mat4)
        requires
            field_of_view.wf(),
        ensures
            r == perspective_spec(aspect_ratio@, field_of_view@, near@, far@),
    {
        let (half_sin, half_cos) = field_of_view.mul(Fixed::half()).sin_cos();
        let tan_half_fov = half_sin.div(half_cos);
        let x_scale = tan_half_fov.mul(aspect_ratio).recip();
        let y_scale = tan_half_fov.recip();
        let z_scale = near.neg().sub(far).div(near.sub(far));
        let z_translation = Fixed::two().mul(near).mul(far).div(near.sub(far));
        let o = Fixed::one();
        let z = Fixed::zero();
        Mat4 {
            m00: x_scale, m01: z, m02: z, m03: z,
            m10: z, m11: y_scale, m12: z, m13: z,
            m20: z, m21: z, m22: z_scale, m23: o,
            m30: z, m31: z, m32: z_translation, m33: z,
        }
    }

    pub fn orthographic(
        left: Fixed,
        right: Fixed,
        top: Fixed,
        bottom: Fixed,
        near: Fixed,
        far: Fixed,
    ) -> (r: Mat4)
        ensures
            r == orthographic_spec(left@, right@, top@, bottom@, near@, far@),
    {
        let r_l = right.sub(left);
        let t_b = top.sub(bottom);
        let f_n = far.sub(near);
        let x_scale = Fixed::two().div(r_l);
        let y_scale = Fixed::two().div(t_b);
        let z_scale = Fixed::two().neg().div(f_n);
        let x_translation = right.add(left).div(r_l).neg();
        let y_translation = top.add(bottom).div(t_b).neg();
        let z_translation = far.add(near).div(f_n).neg();
        let o = Fixed::one();
        let z = Fixed::zero();
        Mat4 {
            m00: x_scale, m01: z, m02: z, m03: z,
            m10: z, m11: y_scale, m12: z, m13: z,
            m20: z, m21: z, m22: z_scale, m23: z,
            m30: x_translation, m31: y_translation, m32: z_translation, m33: o,
        }
    }

    pub fn view(forward: Vec3, up: Vec3, right: Vec3, position: Point3) -> (r: Mat4)
        ensures
            r == view_spec(forward, up, right, position),
    {
        let p = position.vector_from_origin();
        let o = Fixed::one();
        let z = Fixed::zero();
        Mat4 {
            m00: right.x, m01: right.y, m02: right.z, m03: z,
            m10: up.x, m11: up.y, m12: up.z, m13: z,
            m20: forward.x, m21: forward.y, m22: forward.z, m23: z,
            m30: p.dot(&right).neg(),
            m31: p.dot(&up).neg(),
            m32: p.dot(&forward).neg(),
            m33: o,
        }
    }

    /// The element at flat (column-major) index `index`.
    pub fn index(&self, index: usize) -> (r: Fixed)
        requires
            index < 16,
        ensures
            r == idx_spec(*self, index as int),
    {
        if index == 0 {
            self.m00
        } else if index == 1 {
            self.m01
        } else if index == 2 {
            self.m02
        } else if index == 3 {
            self.m03
        } else if index == 4 {
            self.m10
        } else if index == 5 {
            self.m11
        } else if index == 6 {
            self.m12
        } else if index == 7 {
            self.m13
        } else if index == 8 {
            self.m20
        } else if index == 9 {
            self.m21
        } else if index == 10 {
            self.m22
        } else if index == 11 {
            self.m23
        } else if index == 12 {
            self.m30
        } else if index == 13 {
            self.m31
        } else if index == 14 {
            self.m32
        } else {
            self.m33
        }
    }

    /// Row `index` across the four columns.
    pub fn row(&self, index: usize) -> (r: [Fixed; 4])
        requires
            index < 4,
        ensures
            r@[0] == idx_spec(*self, index as int),
            r@[1] == idx_spec(*self, index as int + 4),
            r@[2] == idx_spec(*self, index as int + 8),
            r@[3] == idx_spec(*self, index as int + 12),
    {
        [self.index(index), self.index(index + 4), self.index(index + 8), self.index(index + 12)]
    }

    /// Column `index`, as stored.
    pub fn col(&self, index: usize) -> (r: [Fixed; 4])
        requires
            index < 4,
        ensures
            r@[0] == idx_spec(*self, index as int * 4),
            r@[1] == idx_spec(*self, index as int * 4 + 1),
            r@[2] == idx_spec(*self, index as int * 4 + 2),
            r@[3] == idx_spec(*self, index as int * 4 + 3),
    {
        [
            self.index(4 * index),
            self.index(4 * index + 1),
            self.index(4 * index + 2),
            self.index(4 * index + 3),
        ]
    }

    pub fn row_0(&self) -> (r: [Fixed; 4])
        ensures
            r@[0] == self.m00,
            r@[1] == self.m10,
            r@[2] == self.m20,
            r@[3] == self.m30,
    {
        self.row(0)
    }

    pub fn col_0(&self) -> (r: [Fixed; 4])
        ensures
            r@[0] == self.m00,
            r@[1] == self.m01,
            r@[2] == self.m02,
            r@[3] == self.m03,
    {
        self.col(0)
    }

    pub fn col_1(&self) -> (r: [Fixed; 4])
        ensures
            r@[0] == self.m10,
            r@[1] == self.m11,
            r@[2] == self.m12,
            r@[3] == self.m13,
    {
        self.col(1)
    }

    pub fn col_2(&self) -> (r: [Fixed; 4])
        ensures
            r@[0] == self.m20,
            r@[1] == self.m21,
            r@[2] == self.m22,
            r@[3] == self.m23,
    {
        self.col(2)
    }

    pub fn col_3(&self) -> (r: [Fixed; 4])
        ensures
            r@[0] == self.m30,
            r@[1] == self.m31,
            r@[2] == self.m32,
            r@[3] == self.m33,
    {
        self.col(3)
    }

    pub fn determinant(&self) -> (r: Fixed)
        ensures
            r@ == det_spec(*self),
    {
        let c0 = self.m00.mul(
            Vec3::new(self.m11, self.m12, self.m13).cross(
                &Vec3::new(self.m21, self.m22, self.m23),
            ).dot(&Vec3::new(self.m31, self.m32, self.m33)),
        );
        let c1 = self.m01.mul(
            Vec3::new(self.m10, self.m12, self.m13).cross(
                &Vec3::new(self.m20, self.m22, self.m23),
            ).dot(&Vec3::new(self.m30, self.m32, self.m33)),
        );
        let c2 = self.m02.mul(
            Vec3::new(self.m10, self.m11, self.m13).cross(
                &Vec3::new(self.m20, self.m21, self.m23),
            ).dot(&Vec3::new(self.m30, self.m31, self.m33)),
        );
        let c3 = self.m03.mul(
            Vec3::new(self.m10, self.m11, self.m12).cross(
                &Vec3::new(self.m20, self.m21, self.m22),
            ).dot(&Vec3::new(self.m30, self.m31, self.m32)),
        );
        c0.sub(c1).add(c2).sub(c3)
    }

    pub fn inverse(&self) -> (r: Mat4)
        ensures
            r == inverse_spec(*self),
    {
        let b00 = self.m00.mul(self.m11).sub(self.m01.mul(self.m10));
        let b01 = self.m00.mul(self.m12).sub(self.m02.mul(self.m10));
        let b02 = self.m00.mul(self.m13).sub(self.m03.mul(self.m10));
        let b03 = self.m01.mul(self.m12).sub(self.m02.mul(self.m11));
        let b04 = self.m01.mul(self.m13).sub(self.m03.mul(self.m11));
        let b05 = self.m02.mul(self.m13).sub(self.m03.mul(self.m12));
        let b06 = self.m20.mul(self.m31).sub(self.m21.mul(self.m30));
        let b07 = self.m20.mul(self.m32).sub(self.m22.mul(self.m30));
        let b08 = self.m20.mul(self.m33).sub(self.m23.mul(self.m30));
        let b09 = self.m21.mul(self.m32).sub(self.m22.mul(self.m31));
        let b10 = self.m21.mul(self.m33).sub(self.m23.mul(self.m31));
        let b11 = self.m22.mul(self.m33).sub(self.m23.mul(self.m32));
        let det = b00.mul(b11).sub(b01.mul(b10)).add(b02.mul(b09)).add(b03.mul(b08)).sub(
            b04.mul(b07),
        ).add(b05.mul(b06));
        let r = det.recip();
        Mat4 {
            m00: self.m11.mul(b11).sub(self.m12.mul(b10)).add(self.m13.mul(b09)).mul(r),
            m01: self.m02.mul(b10).sub(self.m01.mul(b11)).sub(self.m03.mul(b09)).mul(r),
            m02: self.m31.mul(b05).sub(self.m32.mul(b04)).add(self.m33.mul(b03)).mul(r),
            m03: self.m22.mul(b04).sub(self.m21.mul(b05)).sub(self.m23.mul(b03)).mul(r),
            m10: self.m12.mul(b08).sub(self.m10.mul(b11)).sub(self.m13.mul(b07)).mul(r),
            m11: self.m00.mul(b11).sub(self.m02.mul(b08)).add(self.m03.mul(b07)).mul(r),
            m12: self.m32.mul(b02).sub(self.m30.mul(b05)).sub(self.m33.mul(b01)).mul(r),
            m13: self.m20.mul(b05).sub(self.m22.mul(b02)).add(self.m23.mul(b01)).mul(r),
            m20: self.m10.mul(b10).sub(self.m11.mul(b08)).add(self.m13.mul(b06)).mul(r),
            m21: self.m01.mul(b08).sub(self.m00.mul(b10)).sub(self.m03.mul(b06)).mul(r),
            m22: self.m30.mul(b04).sub(self.m31.mul(b02)).add(self.m33.mul(b00)).mul(r),
            m23: self.m21.mul(b02).sub(self.m20.mul(b04)).sub(self.m23.mul(b00)).mul(r),
            m30: self.m11.mul(b07).sub(self.m10.mul(b09)).sub(self.m12.mul(b06)).mul(r),
            m31: self.m00.mul(b09).sub(self.m01.mul(b07)).add(self.m02.mul(b06)).mul(r),
            m32: self.m31.mul(b01).sub(self.m30.mul(b03)).sub(self.m32.mul(b00)).mul(r),
            m33: self.m20.mul(b03).sub(self.m21.mul(b01)).add(self.m22.mul(b00)).mul(r),
        }
    }

    /// The matrix product; `self` is applied after `rhs`.
    pub fn mul(self, rhs: Mat4) -> (r: Mat4)
        ensures
            r == mat_mul_spec(self, rhs),
    {
        Mat4 {
            m00: self.entry(&rhs, 0, 0),
            m01: self.entry(&rhs, 0, 1),
            m02: self.entry(&rhs, 0, 2),
            m03: self.entry(&rhs, 0, 3),
            m10: self.entry(&rhs, 1, 0),
            m11: self.entry(&rhs, 1, 1),
            m12: self.entry(&rhs, 1, 2),
            m13: self.entry(&rhs, 1, 3),
            m20: self.entry(&rhs, 2, 0),
            m21: self.entry(&rhs, 2, 1),
            m22: self.entry(&rhs, 2, 2),
            m23: self.entry(&rhs, 2, 3),
            m30: self.entry(&rhs, 3, 0),
            m31: self.entry(&rhs, 3, 1),
            m32: self.entry(&rhs, 3, 2),
            m33: self.entry(&rhs, 3, 3),
        }
    }

    /// The matrix product, applied in place.
    pub fn mul_assign(&mut self, rhs: Mat4)
        ensures
            *final(self) == mat_mul_spec(*old(self), rhs),
    {
        *self = self.mul(rhs);
    }

    /// One entry of the product `self * rhs`.
    fn entry(&self, rhs: &Mat4, col: usize, row: usize) -> (r: Fixed)
        requires
            col < 4,
            row < 4,
        ensures
            r == fx(mat_mul_entry(*self, *rhs, col as int, row as int)),
    {
        let c = rhs.col(col);
        let w = self.row(row);
        c[0].mul(w[0]).add(c[1].mul(w[1])).add(c[2].mul(w[2])).add(c[3].mul(w[3]))
    }
}

/// The identity matrix is a left and right identity of the matrix product,
/// exactly, for every matrix.
pub proof fn lemma_mat_identity(m: Mat4)
    ensures
        mat_mul_spec(mat_identity_spec(), m) == m,
        mat_mul_spec(m, mat_identity_spec()) == m,
{
    lemma_fmul_one(m.m00@);
    lemma_fmul_one(m.m01@);
    lemma_fmul_one(m.m02@);
    lemma_fmul_one(m.m03@);
    lemma_fmul_one(m.m10@);
    lemma_fmul_one(m.m11@);
    lemma_fmul_one(m.m12@);
    lemma_fmul_one(m.m13@);
    lemma_fmul_one(m.m20@);
    lemma_fmul_one(m.m21@);
    lemma_fmul_one(m.m22@);
    lemma_fmul_one(m.m23@);
    lemma_fmul_one(m.m30@);
    lemma_fmul_one(m.m31@);
    lemma_fmul_one(m.m32@);
    lemma_fmul_one(m.m33@);
    lemma_fmul_zero(m.m00@);
    lemma_fmul_zero(m.m01@);
    lemma_fmul_zero(m.m02@);
    lemma_fmul_zero(m.m03@);
    lemma_fmul_zero(m.m10@);
    lemma_fmul_zero(m.m11@);
    lemma_fmul_zero(m.m12@);
    lemma_fmul_zero(m.m13@);
    lemma_fmul_zero(m.m20@);
    lemma_fmul_zero(m.m21@);
    lemma_fmul_zero(m.m22@);
    lemma_fmul_zero(m.m23@);
    lemma_fmul_zero(m.m30@);
    lemma_fmul_zero(m.m31@);
    lemma_fmul_zero(m.m32@);
    lemma_fmul_zero(m.m33@);
}

} // verus!
