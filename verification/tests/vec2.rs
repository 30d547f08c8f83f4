use velocity::maths::Angle;
use velocity::maths::Fixed;
use velocity::maths::Mat4;
use velocity::maths::Vec2;
use velocity::maths::Vec3;
use velocity::maths::fuzzy;

#[test]
fn vec2_dot() {
    assert_eq!(Vec2::unit_x().dot(&Vec2::unit_x()), Fixed::one());
    assert_eq!(Vec2::unit_x().dot(&Vec2::unit_y()), Fixed::zero());
    assert_eq!(Vec2::unit_y().dot(&Vec2::unit_x()), Fixed::zero());
    assert_eq!(Vec2::unit_x().dot(&Vec2::unit_x().neg()), Fixed::one().neg());
}

#[test]
fn vec2_reciprocal_of_zero_is_infinity() {
    let Vec2 { x, y } = Vec2::zero().reciprocal();

    assert_eq!(x, Fixed::infinity());
    assert_eq!(y, Fixed::infinity());
}

#[test]
fn vec2_reciprocal() {
    let Vec2 { x, y } = Vec2::new(Fixed::from_int(3), Fixed::from_int(4)).reciprocal();

    assert_eq!(x, Fixed::from_int(3).recip());
    assert_eq!(y, Fixed::from_int(4).recip());
}

#[test]
fn left_perpendicular() {
    let Vec2 { x, y } = Vec2::unit_x().left_perpendicular();

    assert_eq!(x, Fixed::zero());
    assert_eq!(y, Fixed::one());
}

#[test]
fn left_perpendicular_dot() {
    assert_eq!(Vec2::unit_x().left_perpendicular_dot(&Vec2::unit_x()), Fixed::zero());
    assert_eq!(Vec2::unit_x().left_perpendicular_dot(&Vec2::unit_y()), Fixed::one());
    assert_eq!(Vec2::unit_y().left_perpendicular_dot(&Vec2::unit_x()), Fixed::one().neg());
    assert_eq!(Vec2::unit_x().left_perpendicular_dot(&Vec2::unit_x().neg()), Fixed::zero());
}

#[test]
fn right_perpendicular() {
    let Vec2 { x, y } = Vec2::unit_x().right_perpendicular();

    assert_eq!(x, Fixed::zero());
    assert_eq!(y, Fixed::one().neg());
}

#[test]
fn right_perpendicular_dot() {
    assert_eq!(Vec2::unit_x().right_perpendicular_dot(&Vec2::unit_x()), Fixed::zero());
    assert_eq!(Vec2::unit_x().right_perpendicular_dot(&Vec2::unit_y()), Fixed::one().neg());
    assert_eq!(Vec2::unit_y().right_perpendicular_dot(&Vec2::unit_x()), Fixed::one());
    assert_eq!(Vec2::unit_x().right_perpendicular_dot(&Vec2::unit_x().neg()), Fixed::zero());
}

#[test]
fn vec2_rotate() {
    let Vec2 { x, y } = Vec2::unit_x().rotate(Angle::pi());

    assert!(fuzzy::eq(x, Fixed::one().neg()));
    assert!(fuzzy::eq(y, Fixed::zero()));
}

#[test]
fn vec2_transform() {
    let translation = Vec3::new(Fixed::one(), Fixed::from_int(2), Fixed::zero());
    let Vec2 { x, y } = Vec2::unit_x().transform(&Mat4::translation(&translation));

    assert_eq!(x, Fixed::from_int(2));
    assert_eq!(y, Fixed::from_int(2));
}

#[test]
fn vec2_arithmetic_is_component_wise() {
    let a = Vec2::new(Fixed::from_int(1), Fixed::from_int(2));
    let b = Vec2::new(Fixed::from_int(3), Fixed::from_int(-5));

    assert_eq!(a.add(b), Vec2::new(Fixed::from_int(4), Fixed::from_int(-3)));
    assert_eq!(a.sub(b), Vec2::new(Fixed::from_int(-2), Fixed::from_int(7)));
    assert_eq!(a.mul(Fixed::from_int(3)), Vec2::new(Fixed::from_int(3), Fixed::from_int(6)));
    assert_eq!(a.div(Fixed::from_int(2)), Vec2::new(Fixed::half(), Fixed::one()));
    assert_eq!(b.neg(), Vec2::new(Fixed::from_int(-3), Fixed::from_int(5)));
}

#[test]
fn vec2_lerp_midpoint_is_normalised() {
    let mid = Vec2::lerp(&Vec2::unit_x(), &Vec2::unit_y(), Fixed::half());
    let inner = mid.inner();

    // (0.5, 0.5) normalised is (sqrt(2)/2, sqrt(2)/2).
    let expected = Fixed::from_int(2).sqrt().div(Fixed::from_int(2));
    assert!(fuzzy::eq(inner.x, expected));
    assert!(fuzzy::eq(inner.y, expected));
}
