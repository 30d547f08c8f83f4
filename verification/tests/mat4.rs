use velocity::maths::Fixed;
use velocity::maths::Mat4;
use velocity::maths::Point3;
use velocity::maths::Quat;
use velocity::maths::Scale3;
use velocity::maths::Vec3;
use velocity::maths::fuzzy;

fn translation_matrix(x: i32, y: i32, z: i32) -> Mat4 {
    Mat4::translation(&Vec3::new(Fixed::from_int(x), Fixed::from_int(y), Fixed::from_int(z)))
}

#[test]
fn mat4_identity_law() {
    let m = translation_matrix(1, 2, 3).mul(Mat4::scale(&Scale3::new(
        Fixed::from_int(2),
        Fixed::half(),
        Fixed::from_int(3),
    )));

    assert_eq!(Mat4::identity().mul(m), m);
    assert_eq!(m.mul(Mat4::identity()), m);
}

#[test]
fn mat4_translation_composes_by_addition() {
    let a = translation_matrix(1, 0, 0);
    let b = translation_matrix(0, 1, 0);

    assert_eq!(a.mul(b), translation_matrix(1, 1, 0));
}

#[test]
fn mat4_determinant_of_identity() {
    assert_eq!(Mat4::identity().determinant(), Fixed::one());
}

#[test]
fn mat4_determinant_of_scale() {
    let m = Mat4::scale(&Scale3::new(Fixed::from_int(2), Fixed::from_int(3), Fixed::from_int(4)));

    assert_eq!(m.determinant(), Fixed::from_int(24));
}

#[test]
fn mat4_determinant_of_singular_is_zero() {
    let m = Mat4::scale(&Scale3::new(Fixed::zero(), Fixed::from_int(3), Fixed::from_int(4)));

    assert_eq!(m.determinant(), Fixed::zero());
}

#[test]
fn mat4_inverse_of_translation() {
    let m = translation_matrix(1, 2, 0);

    assert_eq!(m.inverse(), translation_matrix(-1, -2, 0));
}

#[test]
fn mat4_inverse_law() {
    // inverse(M) * M is close to the identity for a non-singular M.
    let m = translation_matrix(1, 2, 3).mul(Mat4::scale(&Scale3::new(
        Fixed::from_int(2),
        Fixed::half(),
        Fixed::from_int(4),
    )));
    let product = m.inverse().mul(m);
    let identity = Mat4::identity();

    for i in 0..16usize {
        assert!(fuzzy::eq(product.index(i), identity.index(i)));
    }
}

#[test]
fn mat4_rotation_of_identity_quaternion() {
    assert_eq!(Mat4::rotation(&Quat::identity()), Mat4::identity());
}

#[test]
fn mat4_indexing_is_column_major() {
    let m = translation_matrix(5, 6, 7);

    // The translation sits in column 3, flat indices 12 to 14.
    assert_eq!(m.index(12), Fixed::from_int(5));
    assert_eq!(m.index(13), Fixed::from_int(6));
    assert_eq!(m.index(14), Fixed::from_int(7));
    assert_eq!(m.index(0), Fixed::one());

    let col = m.col(3);
    assert_eq!(col[0], Fixed::from_int(5));
    assert_eq!(col[1], Fixed::from_int(6));
    assert_eq!(col[2], Fixed::from_int(7));
    assert_eq!(col[3], Fixed::one());

    let row = m.row(0);
    assert_eq!(row[0], Fixed::one());
    assert_eq!(row[1], Fixed::zero());
    assert_eq!(row[2], Fixed::zero());
    assert_eq!(row[3], Fixed::from_int(5));
}

#[test]
fn mat4_view_inverts_the_camera_pose() {
    // The translation column of a view matrix holds the negated dot of the
    // position with each basis vector.  With the world basis that is just
    // the negated position...
    let m = Mat4::view(
        Vec3::unit_z(),
        Vec3::unit_y(),
        Vec3::unit_x(),
        Point3::new(Fixed::one(), Fixed::from_int(2), Fixed::from_int(3)),
    );
    assert_eq!(m.index(12), Fixed::from_int(-1));
    assert_eq!(m.index(13), Fixed::from_int(-2));
    assert_eq!(m.index(14), Fixed::from_int(-3));

    // ... but with a rotated basis the position is projected onto it: a
    // position on x contributes nothing along a right vector pointing at y.
    let turned = Mat4::view(
        Vec3::unit_z(),
        Vec3::unit_x().neg(),
        Vec3::unit_y(),
        Point3::new(Fixed::one(), Fixed::zero(), Fixed::zero()),
    );
    assert_eq!(turned.index(12), Fixed::zero());
    assert_eq!(turned.index(13), Fixed::one());
    assert_eq!(turned.index(14), Fixed::zero());
}

#[test]
fn mat4_mul_assign_matches_mul() {
    let a = translation_matrix(1, 2, 3);
    let b = Mat4::scale(&Scale3::new(Fixed::from_int(2), Fixed::one(), Fixed::one()));
    let mut c = a;
    c.mul_assign(b);

    assert_eq!(c, a.mul(b));
}

#[test]
fn mat4_orthographic_unit_box() {
    let m = Mat4::orthographic(
        Fixed::one().neg(),
        Fixed::one(),
        Fixed::one(),
        Fixed::one().neg(),
        Fixed::one().neg(),
        Fixed::one(),
    );

    // A symmetric unit box scales by 1 (negated on z) and translates by 0.
    assert_eq!(m.index(0), Fixed::one());
    assert_eq!(m.index(5), Fixed::one());
    assert_eq!(m.index(10), Fixed::one().neg());
    assert_eq!(m.index(12), Fixed::zero());
    assert_eq!(m.index(13), Fixed::zero());
    assert_eq!(m.index(14), Fixed::zero());
    assert_eq!(m.index(15), Fixed::one());
}
