use velocity::maths::Angle;
use velocity::maths::Fixed;
use velocity::maths::fuzzy;

#[test]
fn degrees_wrap_around_a_full_turn() {
    // 370 degrees and 10 degrees are the same wrapped angle, exactly.
    let a = Angle::degrees(Fixed::from_int(370)).into_radians();
    let b = Angle::degrees(Fixed::from_int(10)).into_radians();

    assert_eq!(a, b);

    // The same holds below zero: -350 degrees is 10 degrees, exactly.
    let c = Angle::degrees(Fixed::from_int(-350)).into_radians();
    assert_eq!(c, b);
}

#[test]
fn degrees_of_right_angle() {
    assert!(fuzzy::eq(
        Angle::degrees(Fixed::from_int(90)).into_radians(),
        Angle::half_pi().into_radians(),
    ));
}

#[test]
fn angle_addition_wraps() {
    let full = Angle::pi().add(Angle::pi()).add(Angle::half_pi());

    // One turn plus a quarter wraps back to (almost exactly) a quarter.
    assert!(fuzzy::eq(full.into_radians(), Angle::half_pi().into_radians()));
}

#[test]
fn angle_subtraction_wraps_into_range() {
    let a = Angle::zero().sub(Angle::half_pi());

    // -pi/2 wrapped into [0, 2*pi) is 3*pi/2.
    assert_eq!(a.into_radians(), Angle::three_pi().into_radians());
}

#[test]
fn three_pi_is_pi_plus_half_pi() {
    assert_eq!(
        Angle::pi().add(Angle::half_pi()).into_radians(),
        Angle::three_pi().into_radians(),
    );
}

#[test]
fn sin_cos_of_zero() {
    let (sin, cos) = Angle::zero().sin_cos();

    assert_eq!(sin, Fixed::zero());
    assert!(fuzzy::eq(cos, Fixed::one()));
}

#[test]
fn sin_cos_of_half_pi() {
    let (sin, cos) = Angle::half_pi().sin_cos();

    assert!(fuzzy::eq(sin, Fixed::one()));
    assert!(fuzzy::eq(cos, Fixed::zero()));
}

#[test]
fn sin_cos_of_pi() {
    let (sin, cos) = Angle::pi().sin_cos();

    assert!(fuzzy::eq(sin, Fixed::zero()));
    assert!(fuzzy::eq(cos, Fixed::one().neg()));
}

#[test]
fn sin_squared_plus_cos_squared_is_one() {
    let (sin, cos) = Angle::degrees(Fixed::from_int(37)).sin_cos();
    let sum = sin.mul(sin).add(cos.mul(cos));

    assert!(fuzzy::eq(sum, Fixed::one()));
}

#[test]
fn into_degress_inverts_degrees() {
    let deg = Angle::degrees(Fixed::from_int(123)).into_degress();

    assert!(fuzzy::eq(deg, Fixed::from_int(123)));
}

#[test]
fn angle_scaling_wraps() {
    // pi * 3 wraps to pi.
    let a = Angle::pi().mul(Fixed::from_int(3));

    assert!(fuzzy::eq(a.into_radians(), Angle::pi().into_radians()));
}

#[test]
fn angle_division_halves() {
    let a = Angle::pi().div(Fixed::from_int(2));

    assert!(fuzzy::eq(a.into_radians(), Angle::half_pi().into_radians()));
}
