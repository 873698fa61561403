//! Placement of an entity in the scene: position, rotation and scale, in
//! fixed-point thousandths.  Turning a transform into a model matrix is
//! float work and belongs to the renderer.

use vstd::prelude::*;

use crate::fixed::Vec3;

verus! {

#[derive(Debug, Clone, Copy, PartialEq, Eq, Structural)]
pub struct Transform {
    pub position: Vec3,
    pub rotation: Vec3,
    pub scale: Vec3,
}

impl Transform {
    /// The identity placement: at the origin, unrotated, at unit scale.
    pub fn new() -> (r: Transform)
        ensures
            r.position == (Vec3 { x: 0, y: 0, z: 0 }),
            r.rotation == (Vec3 { x: 0, y: 0, z: 0 }),
            r.scale == (Vec3 { x: 1000, y: 1000, z: 1000 }),
    {
        Transform {
            position: Vec3 { x: 0, y: 0, z: 0 },
            rotation: Vec3 { x: 0, y: 0, z: 0 },
            scale: Vec3 { x: 1000, y: 1000, z: 1000 },
        }
    }

    pub fn with_position(self, position: Vec3) -> (r: Transform)
        ensures
            r == (Transform { position, ..self }),
    {
        Transform { position, ..self }
    }

    pub fn with_rotation(self, rotation: Vec3) -> (r: Transform)
        ensures
            r == (Transform { rotation, ..self }),
    {
        Transform { rotation, ..self }
    }

    pub fn with_scale(self, scale: Vec3) -> (r: Transform)
        ensures
            r == (Transform { scale, ..self }),
    {
        Transform { scale, ..self }
    }
}

} // verus!
