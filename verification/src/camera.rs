//! A snapshot of the camera for one frame.

use vstd::prelude::*;
use crate::vector::{Quat, Vec3, Vector, UNIT};

verus! {

/// The camera's orientation and the two basis vectors that movement is
/// measured against. The camera is read, never written, by the rules.
#[derive(Clone, Copy, Debug, PartialEq, Eq, Structural)]
pub struct Camera {
    pub rotation: Quat,
    /// The direction the camera looks along.
    pub forward: Vec3,
    /// The direction to the camera's right.
    pub right: Vec3,
}

impl Camera {
    /// The basis vectors are directions: no component is longer than one
    /// world unit.
    pub open spec fn wf(self) -> bool {
        &&& self.forward@.within(UNIT as int)
        &&& self.right@.within(UNIT as int)
    }

    /// The direction opposite to `forward`.
    pub open spec fn spec_back(self) -> Vector {
        self.forward@.negated()
    }

    /// The direction opposite to `right`.
    pub open spec fn spec_left(self) -> Vector {
        self.right@.negated()
    }

    /// Tests [`Camera::wf`].
    pub fn is_wf(&self) -> (ok: bool)
        ensures
            ok == self.wf(),
    {
        self.forward.is_within(UNIT) && self.right.is_within(UNIT)
    }

    /// A camera that looks down the negative `z` axis with `x` to its right.
    pub fn identity() -> (cam: Camera)
        ensures
            cam.wf(),
            cam.rotation == (Quat { x: 0, y: 0, z: 0, w: UNIT }),
            cam.forward@ == (Vector { x: 0, y: 0, z: -UNIT }),
            cam.right@ == (Vector { x: UNIT as int, y: 0, z: 0 }),
    {
        Camera {
            rotation: Quat::identity(),
            forward: Vec3 { x: 0, y: 0, z: -UNIT },
            right: Vec3 { x: UNIT, y: 0, z: 0 },
        }
    }

    pub fn back(&self) -> (v: Vec3)
        requires
            self.wf(),
        ensures
            v@ == self.spec_back(),
    {
        self.forward.negated()
    }

    pub fn left(&self) -> (v: Vec3)
        requires
            self.wf(),
        ensures
            v@ == self.spec_left(),
    {
        self.right.negated()
    }
}

} // verus!
