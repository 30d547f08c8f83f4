use velocity::maths::Bounds3;
use velocity::maths::Fixed;
use velocity::maths::Point2;
use velocity::maths::Point3;
use velocity::maths::Scale2;
use velocity::maths::Scale3;
use velocity::maths::Vec2;
use velocity::maths::Vec3;
use velocity::physics::aab2;
use velocity::physics::aab3;

fn vec3_int(x: i32, y: i32, z: i32) -> Vec3 {
    Vec3::new(Fixed::from_int(x), Fixed::from_int(y), Fixed::from_int(z))
}

#[test]
fn bounds3_intersection_is_symmetric() {
    let a = Bounds3::new(vec3_int(0, 0, 0), Fixed::one(), Fixed::one(), Fixed::one());
    let b = Bounds3::new(vec3_int(1, 1, 0), Fixed::one(), Fixed::one(), Fixed::one());
    let c = Bounds3::new(vec3_int(5, 0, 0), Fixed::one(), Fixed::one(), Fixed::one());

    assert!(a.intersects(&b));
    assert_eq!(a.intersects(&b), b.intersects(&a));
    assert!(!a.intersects(&c));
    assert_eq!(a.intersects(&c), c.intersects(&a));
}

#[test]
fn bounds3_touching_faces_intersect() {
    let a = Bounds3::new(vec3_int(0, 0, 0), Fixed::one(), Fixed::one(), Fixed::one());
    let b = Bounds3::new(vec3_int(2, 0, 0), Fixed::one(), Fixed::one(), Fixed::one());

    assert!(a.intersects(&b));
}

#[test]
fn bounds3_min_max_are_corners() {
    let b = Bounds3::new(vec3_int(1, 2, 3), Fixed::one(), Fixed::from_int(2), Fixed::from_int(3));

    assert_eq!(b.min(), vec3_int(0, 0, 0));
    assert_eq!(b.max(), vec3_int(2, 4, 6));
}

#[test]
fn aab2_intersection_is_symmetric() {
    let unit = Scale2::new(Fixed::one(), Fixed::one());
    let a = aab2::AxisAlignedBox3::new(Vec2::new(Fixed::zero(), Fixed::zero()), unit);
    let b = aab2::AxisAlignedBox3::new(Vec2::new(Fixed::one(), Fixed::one()), unit);
    let c = aab2::AxisAlignedBox3::new(Vec2::new(Fixed::from_int(5), Fixed::zero()), unit);

    assert!(a.intersects(&b));
    assert_eq!(a.intersects(&b), b.intersects(&a));
    assert!(!a.intersects(&c));
    assert_eq!(a.intersects(&c), c.intersects(&a));
}

#[test]
fn aab2_contains_point() {
    let a = aab2::AxisAlignedBox3::new(
        Vec2::new(Fixed::zero(), Fixed::zero()),
        Scale2::new(Fixed::one(), Fixed::one()),
    );

    assert!(a.contains_point(&Point2::new(Fixed::half(), Fixed::half())));
    assert!(a.contains_point(&Point2::new(Fixed::one(), Fixed::one())));
    assert!(!a.contains_point(&Point2::new(Fixed::from_int(2), Fixed::zero())));
}

#[test]
fn aab3_intersection_is_symmetric() {
    let unit = Scale3::new(Fixed::one(), Fixed::one(), Fixed::one());
    let a = aab3::AxisAlignedBox3::new(vec3_int(0, 0, 0), unit);
    let b = aab3::AxisAlignedBox3::new(vec3_int(1, 1, 1), unit);
    let c = aab3::AxisAlignedBox3::new(vec3_int(0, 5, 0), unit);

    assert!(a.intersects(&b));
    assert_eq!(a.intersects(&b), b.intersects(&a));
    assert!(!a.intersects(&c));
    assert_eq!(a.intersects(&c), c.intersects(&a));
}

#[test]
fn aab3_contains_point_per_axis() {
    let a = aab3::AxisAlignedBox3::new(
        vec3_int(0, 0, 0),
        Scale3::new(Fixed::one(), Fixed::one(), Fixed::one()),
    );

    assert!(a.contains_point(&Point3::new(Fixed::half(), Fixed::half(), Fixed::half())));
    assert!(!a.contains_point(&Point3::new(Fixed::half(), Fixed::half(), Fixed::from_int(2))));
    assert!(a.contains_point_xy(&Point2::new(Fixed::half(), Fixed::half())));
}

#[test]
fn aab3_min_max_are_corners() {
    let a = aab3::AxisAlignedBox3::new(
        vec3_int(1, 1, 1),
        Scale3::new(Fixed::one(), Fixed::from_int(2), Fixed::from_int(3)),
    );

    assert_eq!(a.min(), vec3_int(0, -1, -2));
    assert_eq!(a.max(), vec3_int(2, 3, 4));
}
