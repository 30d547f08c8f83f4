//! A camera: a position and rotation that may change freely, and a
//! projection matrix fixed at construction.

use crate::maths::fixed::ONE_RAW;
use crate::maths::fixed::fx;
use crate::maths::angle::Angle;
use crate::maths::fixed::Fixed;
use crate::maths::mat4::Mat4;
use crate::maths::mat4::mat_mul_spec;
use crate::maths::mat4::orthographic_spec;
use crate::maths::mat4::perspective_spec;
use crate::maths::mat4::view_spec;
use crate::maths::point3::Point3;
use crate::maths::quat::Quat;
use crate::maths::quat::quat_identity_spec;
use crate::maths::vec3::Vec3;
use crate::maths::vec3::rotate3_spec;
use vstd::prelude::*;

verus! {

pub struct Camera {
    pub position: Point3,
    pub rotation: Quat,
    /// Meant to be fixed at construction: the builder and the factories
    /// set it, and nothing in the library writes it afterwards.
    pub projection: Mat4,
}

/// The view-projection matrix of a camera: the world axes rotated by the
/// camera's rotation give the basis handed to the `view` factory, and the
/// stored projection is composed on top (the view applies first).
pub open spec fn view_projection_spec(c: Camera) -> Mat4 {
    let ux = Vec3 { x: fx(ONE_RAW as int), y: fx(0), z: fx(0) };
    let uy = Vec3 { x: fx(0), y: fx(ONE_RAW as int), z: fx(0) };
    let uz = Vec3 { x: fx(0), y: fx(0), z: fx(ONE_RAW as int) };
    mat_mul_spec(
        c.projection,
        view_spec(
            rotate3_spec(uz, c.rotation),
            rotate3_spec(uy, c.rotation),
            rotate3_spec(ux, c.rotation),
            c.position,
        ),
    )
}

impl Camera {
    /// A camera with a perspective projection and default pose.
    pub fn perspective(aspect_ratio: Fixed, field_of_view: Angle, near: Fixed, far: Fixed) -> (r:
        Camera)
        requires
            field_of_view.wf(),
        ensures
            r.projection == perspective_spec(aspect_ratio@, field_of_view@, near@, far@),
            r.position == (Point3 { x: fx(0), y: fx(0), z: fx(0) }),
            r.rotation == quat_identity_spec(),
    {
        CameraBuilder::new(Mat4::perspective(aspect_ratio, field_of_view, near, far)).build()
    }

    /// A camera with an orthographic projection over a depth range of one
    /// unit on each side, for flat scenes.
    pub fn orthographic_2d(left: Fixed, right: Fixed, top: Fixed, bottom: Fixed) -> (r: Camera)
        ensures
            r.projection == orthographic_spec(
                left@,
                right@,
                top@,
                bottom@,
                -(ONE_RAW as int),
                ONE_RAW as int,
            ),
            r.position == (Point3 { x: fx(0), y: fx(0), z: fx(0) }),
            r.rotation == quat_identity_spec(),
    {
        CameraBuilder::new(
            Mat4::orthographic(left, right, top, bottom, Fixed::one().neg(), Fixed::one()),
        ).build()
    }

    /// A camera with a full orthographic projection and default pose.
    pub fn orthographic_3d(
        left: Fixed,
        right: Fixed,
        top: Fixed,
        bottom: Fixed,
        near: Fixed,
        far: Fixed,
    ) -> (r: Camera)
        ensures
            r.projection == orthographic_spec(left@, right@, top@, bottom@, near@, far@),
            r.position == (Point3 { x: fx(0), y: fx(0), z: fx(0) }),
            r.rotation == quat_identity_spec(),
    {
        CameraBuilder::new(Mat4::orthographic(left, right, top, bottom, near, far)).build()
    }

    /// The matrix handed to the renderer each frame: the camera basis view
    /// composed with the stored projection.
    pub fn view_projection(&self) -> (r: Mat4)
        ensures
            r == view_projection_spec(*self),
    {
        let forward = Vec3::unit_z().rotate(&self.rotation);
        let up = Vec3::unit_y().rotate(&self.rotation);
        let right = Vec3::unit_x().rotate(&self.rotation);
        self.projection.mul(Mat4::view(forward, up, right, self.position))
    }
}

pub struct CameraBuilder {
    pub position: Option<Point3>,
    pub rotation: Option<Quat>,
    pub projection: Mat4,
}

impl CameraBuilder {
    pub fn new(projection: Mat4) -> (r: CameraBuilder)
        ensures
            r.projection == projection,
            r.position is None,
            r.rotation is None,
    {
        CameraBuilder { position: None, rotation: None, projection }
    }

    pub fn with_position(self, position: Point3) -> (r: CameraBuilder)
        ensures
            r.projection == self.projection,
            r.position == Some(position),
            r.rotation == self.rotation,
    {
        CameraBuilder { position: Some(position), ..self }
    }

    pub fn with_rotation(self, rotation: Quat) -> (r: CameraBuilder)
        ensures
            r.projection == self.projection,
            r.position == self.position,
            r.rotation == Some(rotation),
    {
        CameraBuilder { rotation: Some(rotation), ..self }
    }

    /// The camera, with the origin and the identity rotation where no pose
    /// was given.
    pub fn build(self) -> (r: Camera)
        ensures
            r.projection == self.projection,
            r.position == (if self.position is Some {
                self.position->0
            } else {
                Point3 { x: fx(0), y: fx(0), z: fx(0) }
            }),
            r.rotation == (if self.rotation is Some {
                self.rotation->0
            } else {
                quat_identity_spec()
            }),
    {
        let position = match self.position {
            Some(position) => position,
            None => Point3::identity(),
        };
        let rotation = match self.rotation {
            Some(rotation) => rotation,
            None => Quat::identity(),
        };
        Camera { position, rotation, projection: self.projection }
    }
}

} // verus!
