use velocity::maths::Fixed;
use velocity::maths::Normed;
use velocity::maths::Unit;
use velocity::maths::Vec3;
use velocity::maths::fuzzy;
use velocity::physics::ray2::Ray2;
use velocity::maths::Vec2;

#[test]
fn unit_from_normalised_keeps_the_value() {
    let unit = Unit::from_normalised(Vec3::unit_x());

    assert_eq!(unit.inner(), Vec3::unit_x());
}

#[test]
fn unit_from_divides_by_the_norm() {
    // (3, 4, 0) has norm 5; normalised it is (0.6, 0.8, 0).
    let v = Vec3::new(Fixed::from_int(3), Fixed::from_int(4), Fixed::zero());
    let unit = Unit::from(v).inner();

    assert!(fuzzy::eq(unit.x, Fixed::from_raw(3 * 65536 / 5)));
    assert!(fuzzy::eq(unit.y, Fixed::from_raw(4 * 65536 / 5)));
    assert!(fuzzy::eq(unit.z, Fixed::zero()));
    assert!(fuzzy::eq(unit.norm_squared(), Fixed::one()));
}

#[test]
fn unit_from_zero_saturates() {
    // Normalising a zero vector divides by a zero norm: every component
    // saturates, the fixed-point analogue of the floating NaN/Infinity.
    let unit = Unit::from(Vec3::zero()).inner();

    assert_eq!(unit.x, Fixed::infinity());
    assert_eq!(unit.y, Fixed::infinity());
    assert_eq!(unit.z, Fixed::infinity());
}

#[test]
fn normalise_is_idempotent_within_tolerance() {
    // Re-normalising an already-unit value moves it by less than the fuzzy
    // epsilon.
    let v = Vec3::new(Fixed::from_int(3), Fixed::from_int(4), Fixed::zero());
    let mut unit = Unit::from(v);
    let before = unit.inner();
    unit.normalise();
    let after = unit.inner();

    assert!(fuzzy::eq(before.x, after.x));
    assert!(fuzzy::eq(before.y, after.y));
    assert!(fuzzy::eq(before.z, after.z));
}

#[test]
fn nomalise_fast_corrects_small_drift() {
    let v = Vec3::new(Fixed::from_raw(65536 + 90), Fixed::zero(), Fixed::zero());
    let mut unit = Unit::from_normalised(v);
    unit.nomalise_fast();

    assert!(fuzzy::eq(unit.inner().x, Fixed::one()));
    assert!(fuzzy::eq(unit.inner().norm_squared(), Fixed::one()));
}

#[test]
fn normalise_of_exact_unit_is_identity() {
    // A value whose squared norm is exactly one is a fixed point of both
    // re-normalisation paths.
    let mut unit = Unit::from_normalised(Vec3::unit_x());
    unit.normalise();
    assert_eq!(unit.inner(), Vec3::unit_x());
    unit.nomalise_fast();
    assert_eq!(unit.inner(), Vec3::unit_x());
}

#[test]
fn ray2_caches_direction_products() {
    let ray = Ray2::new(Vec2::zero(), Unit::from_normalised(Vec2::unit_x()));

    assert_eq!(ray.origin, Vec2::zero());
    assert_eq!(ray.direction.inner(), Vec2::unit_x());
    assert_eq!(ray.perpendicular, Vec2::unit_y());
    // The zero direction component reciprocates to the saturated maximum.
    assert_eq!(ray.reciprocal.x, Fixed::one());
    assert_eq!(ray.reciprocal.y, Fixed::infinity());
}
