use velocity::maths::Angle;
use velocity::maths::Fixed;
use velocity::maths::Mat4;
use velocity::maths::Quat;
use velocity::maths::Unit;
use velocity::maths::Vec3;
use velocity::maths::fuzzy;

#[test]
fn vec3_dot() {
    assert_eq!(Vec3::unit_x().dot(&Vec3::unit_x()), Fixed::one());
    assert_eq!(Vec3::unit_x().dot(&Vec3::unit_y()), Fixed::zero());
    assert_eq!(Vec3::unit_y().dot(&Vec3::unit_x()), Fixed::zero());
    assert_eq!(Vec3::unit_x().dot(&Vec3::unit_x().neg()), Fixed::one().neg());
}

#[test]
fn vec3_reciprocal_of_zero_is_infinity() {
    let Vec3 { x, y, z } = Vec3::zero().reciprocal();

    assert_eq!(x, Fixed::infinity());
    assert_eq!(y, Fixed::infinity());
    assert_eq!(z, Fixed::infinity());
}

#[test]
fn vec3_reciprocal() {
    let Vec3 { x, y, z } =
        Vec3::new(Fixed::from_int(3), Fixed::from_int(4), Fixed::from_int(5)).reciprocal();

    assert_eq!(x, Fixed::from_int(3).recip());
    assert_eq!(y, Fixed::from_int(4).recip());
    assert_eq!(z, Fixed::from_int(5).recip());
}

#[test]
fn cross() {
    assert!(Vec3::unit_x().cross(&Vec3::unit_y()) == Vec3::unit_z());
}

#[test]
fn vec3_rotate() {
    let axis = Unit::from_normalised(Vec3::unit_y());
    let Vec3 { x, y, z } = Vec3::unit_x().rotate(&Quat::from_axis_angle(&axis, Angle::pi()));

    assert!(fuzzy::eq(x, Fixed::one().neg()));
    assert!(fuzzy::eq(y, Fixed::zero()));
    assert!(fuzzy::eq(z, Fixed::zero()));
}

#[test]
fn vec3_transform() {
    let translation = Vec3::new(Fixed::one(), Fixed::from_int(2), Fixed::zero());
    let Vec3 { x, y, z } = Vec3::unit_x().transform(&Mat4::translation(&translation));

    assert_eq!(x, Fixed::from_int(2));
    assert_eq!(y, Fixed::from_int(2));
    assert_eq!(z, Fixed::zero());
}

#[test]
fn vec3_rotate_matches_sandwich_product() {
    // The optimised rotation formula and the full sandwich product
    // q * (0, v) * inverse(q) must agree within the fuzzy tolerance.
    let axis = Unit::from_normalised(Vec3::unit_y());
    let q = Quat::from_axis_angle(&axis, Angle::pi());
    let v = Vec3::unit_x();

    let optimised = v.rotate(&q);
    let sandwich = q.mul(Quat::new(Fixed::zero(), v)).mul(q.inverse()).v;

    assert!(fuzzy::eq(optimised.x, sandwich.x));
    assert!(fuzzy::eq(optimised.y, sandwich.y));
    assert!(fuzzy::eq(optimised.z, sandwich.z));
}

#[test]
fn vec3_cross_of_parallel_is_zero() {
    let v = Vec3::new(Fixed::from_int(2), Fixed::from_int(-3), Fixed::from_int(5));

    assert_eq!(v.cross(&v), Vec3::zero());
}
