use velocity::maths::Angle;
use velocity::maths::Fixed;
use velocity::maths::Normed;
use velocity::maths::Quat;
use velocity::maths::Unit;
use velocity::maths::Vec3;
use velocity::maths::fuzzy;

#[test]
fn identity() {
    assert_eq!(Quat::new(Fixed::one(), Vec3::zero()), Quat::identity());
}

#[test]
fn lerp() {}

#[test]
fn from_axis_angle() {}

#[test]
fn conjugate() {}

#[test]
fn inverse() {}

#[test]
fn quat_identity_law() {
    // identity * q == q and q * identity == q, exactly, even off unit length.
    let q = Quat::new(
        Fixed::half(),
        Vec3::new(Fixed::from_int(1), Fixed::from_int(-2), Fixed::from_int(3)),
    );

    assert_eq!(Quat::identity().mul(q), q);
    assert_eq!(q.mul(Quat::identity()), q);
}

#[test]
fn quat_inverse_law() {
    // q * inverse(q) is close to the identity for a non-zero-norm q.
    let axis = Unit::from_normalised(Vec3::unit_z());
    let q = Quat::from_axis_angle(&axis, Angle::half_pi());
    let product = q.mul(q.inverse());

    assert!(fuzzy::eq(product.w, Fixed::one()));
    assert!(fuzzy::eq(product.v.x, Fixed::zero()));
    assert!(fuzzy::eq(product.v.y, Fixed::zero()));
    assert!(fuzzy::eq(product.v.z, Fixed::zero()));
}

#[test]
fn quat_conjugate_negates_vector_part() {
    let q = Quat::new(
        Fixed::from_int(4),
        Vec3::new(Fixed::from_int(1), Fixed::from_int(-2), Fixed::from_int(3)),
    );
    let c = q.conjugate();

    assert_eq!(c.w, q.w);
    assert_eq!(c.v, q.v.neg());
}

#[test]
fn quat_from_axis_angle_half_turn() {
    // A half turn about y: w = cos(pi/2) = 0, v = sin(pi/2) * y = y.
    let axis = Unit::from_normalised(Vec3::unit_y());
    let q = Quat::from_axis_angle(&axis, Angle::pi());

    assert!(fuzzy::eq(q.w, Fixed::zero()));
    assert!(fuzzy::eq(q.v.x, Fixed::zero()));
    assert!(fuzzy::eq(q.v.y, Fixed::one()));
    assert!(fuzzy::eq(q.v.z, Fixed::zero()));
}

#[test]
fn quat_norm_squared_sums_squares() {
    let q = Quat::new(Fixed::from_int(2), Vec3::new(Fixed::one(), Fixed::zero(), Fixed::from_int(2)));

    assert_eq!(q.norm_squared(), Fixed::from_int(9));
}

#[test]
fn quat_lerp_endpoint_recovers_input() {
    // At t = 0 the interpolation returns the (re-normalised) start.
    let start = Quat::identity();
    let end = Quat::new(Fixed::zero(), Vec3::new(Fixed::one(), Fixed::zero(), Fixed::zero()));
    let mid = Quat::lerp(&start, &end, Fixed::zero()).inner();

    assert!(fuzzy::eq(mid.w, Fixed::one()));
    assert!(fuzzy::eq(mid.v.x, Fixed::zero()));
    assert!(fuzzy::eq(mid.v.y, Fixed::zero()));
    assert!(fuzzy::eq(mid.v.z, Fixed::zero()));
}

#[test]
fn quat_mul_is_hamilton_product() {
    // i * j == k: (w=0, v=x) * (w=0, v=y) == (w=0, v=z).
    let i = Quat::new(Fixed::zero(), Vec3::unit_x());
    let j = Quat::new(Fixed::zero(), Vec3::unit_y());
    let k = i.mul(j);

    assert_eq!(k.w, Fixed::zero());
    assert_eq!(k.v, Vec3::unit_z());
}
