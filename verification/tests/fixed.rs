use velocity::maths::Fixed;

#[test]
fn fixed_from_int_scales() {
    assert_eq!(Fixed::from_int(1), Fixed::one());
    assert_eq!(Fixed::from_int(3).raw(), 3 * 65536);
    assert_eq!(Fixed::from_int(-2).raw(), -2 * 65536);
}

#[test]
fn fixed_arithmetic_exact_cases() {
    let three = Fixed::from_int(3);
    let four = Fixed::from_int(4);

    assert_eq!(three.add(four), Fixed::from_int(7));
    assert_eq!(three.sub(four), Fixed::from_int(-1));
    assert_eq!(three.mul(four), Fixed::from_int(12));
    assert_eq!(three.div(four), Fixed::from_raw(3 * 65536 / 4));
    assert_eq!(four.neg(), Fixed::from_int(-4));
    assert_eq!(Fixed::from_int(-4).abs(), four);
}

#[test]
fn fixed_addition_saturates() {
    assert_eq!(Fixed::infinity().add(Fixed::one()), Fixed::infinity());
    assert_eq!(Fixed::neg_infinity().sub(Fixed::one()), Fixed::neg_infinity());
}

#[test]
fn fixed_division_by_zero_saturates() {
    assert_eq!(Fixed::one().div(Fixed::zero()), Fixed::infinity());
    assert_eq!(Fixed::one().neg().div(Fixed::zero()), Fixed::neg_infinity());
    assert_eq!(Fixed::zero().recip(), Fixed::infinity());
}

#[test]
fn fixed_multiplication_truncates_toward_zero() {
    // 1.5 * 1.5 == 2.25, representable exactly.
    let x = Fixed::from_raw(3 * 32768);
    assert_eq!(x.mul(x), Fixed::from_raw(9 * 16384));

    // (2^-8)^2 = 2^-16 is the smallest positive product.
    let tiny = Fixed::from_raw(256);
    assert_eq!(tiny.mul(tiny), Fixed::from_raw(1));

    // A symmetric negative product truncates toward zero.
    assert_eq!(tiny.neg().mul(tiny), Fixed::from_raw(-1));
}

#[test]
fn fixed_sqrt_exact_squares() {
    assert_eq!(Fixed::from_int(4).sqrt(), Fixed::from_int(2));
    assert_eq!(Fixed::from_int(9).sqrt(), Fixed::from_int(3));
    assert_eq!(Fixed::zero().sqrt(), Fixed::zero());
    assert_eq!(Fixed::one().sqrt(), Fixed::one());
}

#[test]
fn fixed_sqrt_rounds_down() {
    // sqrt(2) in Q16 is 92681.9...; the result rounds down.
    assert_eq!(Fixed::from_int(2).sqrt(), Fixed::from_raw(92681));
}
