use velocity::app::LoopState;
use velocity::graphics::camera::Camera;
use velocity::graphics::camera::CameraBuilder;
use velocity::graphics::transform::Transform;
use velocity::graphics::vertex::Vertex;
use velocity::maths::Angle;
use velocity::maths::Fixed;
use velocity::maths::Mat4;
use velocity::maths::Point3;
use velocity::maths::Quat;
use velocity::maths::Unit;
use velocity::maths::Vec3;
use velocity::maths::fuzzy;

#[test]
fn default_transform_is_identity() {
    let transform = Transform::default();

    assert_eq!(transform.transformation(), Mat4::identity());
}

#[test]
fn transformation_composes_translation_scale_rotation() {
    // With the identity rotation and unit scale, only the translation is
    // left; the composition order leaves it in the last column untouched.
    let mut transform = Transform::default();
    transform.translation = Vec3::new(Fixed::one(), Fixed::from_int(2), Fixed::from_int(3));
    let m = transform.transformation();

    assert_eq!(m.index(12), Fixed::one());
    assert_eq!(m.index(13), Fixed::from_int(2));
    assert_eq!(m.index(14), Fixed::from_int(3));
    assert_eq!(m.index(0), Fixed::one());
}

#[test]
fn camera_builder_defaults_to_origin_and_identity() {
    let camera = CameraBuilder::new(Mat4::identity()).build();

    assert_eq!(camera.position, Point3::identity());
    assert_eq!(camera.rotation, Quat::identity());
    assert_eq!(camera.projection, Mat4::identity());
}

#[test]
fn camera_builder_keeps_pose() {
    let position = Point3::new(Fixed::one(), Fixed::from_int(2), Fixed::zero());
    let axis = Unit::from_normalised(Vec3::unit_y());
    let rotation = Quat::from_axis_angle(&axis, Angle::half_pi());
    let camera = CameraBuilder::new(Mat4::identity())
        .with_position(position)
        .with_rotation(rotation)
        .build();

    assert_eq!(camera.position, position);
    assert_eq!(camera.rotation, rotation);
}

#[test]
fn default_camera_view_projection_is_the_projection() {
    // With the identity rotation and the origin position, the view matrix
    // is the identity, so the view-projection is the projection itself.
    let camera = CameraBuilder::new(Mat4::identity()).build();

    assert_eq!(camera.view_projection(), Mat4::identity());
}

#[test]
fn orthographic_2d_camera_spans_unit_depth() {
    let camera = Camera::orthographic_2d(
        Fixed::one().neg(),
        Fixed::one(),
        Fixed::one(),
        Fixed::one().neg(),
    );
    let m = camera.view_projection();

    assert_eq!(m.index(0), Fixed::one());
    assert_eq!(m.index(5), Fixed::one());
    assert_eq!(m.index(10), Fixed::one().neg());
    assert_eq!(m.index(15), Fixed::one());
}

#[test]
fn rotated_camera_looks_along_rotated_axes() {
    // A quarter turn about y sends the world z axis to x: the view matrix
    // row holding "forward" picks that up.
    let axis = Unit::from_normalised(Vec3::unit_y());
    let camera = CameraBuilder::new(Mat4::identity())
        .with_rotation(Quat::from_axis_angle(&axis, Angle::half_pi()))
        .build();
    let m = camera.view_projection();

    // forward = rotate(unit_z) ~ (1, 0, 0), stored at flat indices 8..11.
    assert!(fuzzy::eq(m.index(8), Fixed::one()));
    assert!(fuzzy::eq(m.index(10), Fixed::zero()));
}

#[test]
fn vertex_holds_position_and_colour() {
    let vertex = Vertex::new(Vec3::unit_x(), Vec3::unit_y());

    assert_eq!(vertex.position, Vec3::unit_x());
    assert_eq!(vertex.colour, Vec3::unit_y());
}

#[test]
fn loop_state_variants_are_distinct() {
    assert_ne!(LoopState::Continue, LoopState::Exit);
    assert!(matches!(LoopState::Continue, LoopState::Continue));
}
