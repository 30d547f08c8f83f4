use velocity::maths::Fixed;
use velocity::maths::fuzzy;

#[test]
fn fuzzy_eq_tolerates_the_default_epsilon() {
    let a = Fixed::from_int(1);
    let close = Fixed::from_raw(a.raw() + fuzzy::DEFAULT_EPSILON);
    let far = Fixed::from_raw(a.raw() + fuzzy::DEFAULT_EPSILON + 1);

    assert!(fuzzy::eq(a, close));
    assert!(fuzzy::eq(close, a));
    assert!(!fuzzy::eq(a, far));
}

#[test]
fn fuzzy_gt_excludes_near_equality() {
    let a = Fixed::from_int(1);
    let slightly_more = Fixed::from_raw(a.raw() + 1);
    let clearly_more = Fixed::from_raw(a.raw() + fuzzy::DEFAULT_EPSILON + 1);

    assert!(!fuzzy::gt(slightly_more, a));
    assert!(fuzzy::gt(clearly_more, a));
    assert!(!fuzzy::gt(a, clearly_more));
}

#[test]
fn fuzzy_gte_includes_near_equality() {
    let a = Fixed::from_int(1);
    let slightly_less = Fixed::from_raw(a.raw() - 1);

    assert!(fuzzy::gte(a, a));
    assert!(fuzzy::gte(slightly_less, a));
    assert!(!fuzzy::gte(Fixed::zero(), a));
}

#[test]
fn fuzzy_lt_excludes_near_equality() {
    let a = Fixed::from_int(1);
    let slightly_less = Fixed::from_raw(a.raw() - 1);
    let clearly_less = Fixed::from_raw(a.raw() - fuzzy::DEFAULT_EPSILON - 1);

    assert!(!fuzzy::lt(slightly_less, a));
    assert!(fuzzy::lt(clearly_less, a));
}

#[test]
fn fuzzy_lte_includes_near_equality() {
    let a = Fixed::from_int(1);
    let slightly_more = Fixed::from_raw(a.raw() + 1);

    assert!(fuzzy::lte(a, a));
    assert!(fuzzy::lte(slightly_more, a));
    assert!(!fuzzy::lte(Fixed::from_int(2), a));
}

#[test]
fn fuzzy_with_custom_epsilon() {
    let a = Fixed::zero();
    let b = Fixed::from_int(1);

    assert!(fuzzy::eq_with_epsilon(a, b, Fixed::from_int(1)));
    assert!(!fuzzy::eq_with_epsilon(a, b, Fixed::half()));
    assert!(fuzzy::gt_with_epsilon(b, a, Fixed::half()));
    assert!(!fuzzy::gt_with_epsilon(b, a, Fixed::from_int(1)));
    assert!(fuzzy::lt_with_epsilon(a, b, Fixed::half()));
    assert!(fuzzy::gte_with_epsilon(b, a, Fixed::half()));
    assert!(fuzzy::lte_with_epsilon(a, b, Fixed::half()));
}
