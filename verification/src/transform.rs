//! The pose of a rig or of its camera.

use crate::vector::Vec3;
use vstd::prelude::*;

verus! {

/// A translation and a rotation.
///
/// The rotation is the signed angle, in millionths of a radian, that the body
/// has turned about its own axis since its rest orientation: the vertical
/// axis for a rig, the local horizontal axis for a camera. An angle always
/// denotes a rotation of unit length; the host composes it with the rest
/// orientation when it needs a quaternion.
#[derive(Clone, Copy, Debug, PartialEq, Eq, Structural)]
pub struct RigidTransform {
    pub translation: Vec3,
    pub rotation: i64,
}

impl RigidTransform {
    /// The pose with the given translation and rotation.
    pub fn new(translation: Vec3, rotation: i64) -> (t: RigidTransform)
        ensures
            t == (RigidTransform { translation, rotation }),
    {
        RigidTransform { translation, rotation }
    }

    /// The pose at the origin in the rest orientation.
    pub fn identity() -> (t: RigidTransform)
        ensures
            t == (RigidTransform { translation: Vec3 { x: 0, y: 0, z: 0 }, rotation: 0 }),
    {
        RigidTransform { translation: Vec3::zero(), rotation: 0 }
    }
}

/// The angles at which a frame needs the orientations of a rig and its
/// camera evaluated.
#[derive(Clone, Copy, Debug, PartialEq, Eq, Structural)]
pub struct BearingAngles {
    /// The angle of the rig, for its local axes.
    pub rig: i64,
    /// The angle of the camera, for its forward axis.
    pub camera: i64,
    /// The angle by which the frame pitches the camera, for its cosine and
    /// sine.
    pub orbit: i64,
}

/// Directions that only the host can derive from the orientations of a rig
/// and its camera, at the angles that `BearingAngles` names. Each direction
/// is a vector of length one in fixed point.
#[derive(Clone, Copy, Debug, PartialEq, Eq, Structural)]
pub struct Bearings {
    /// The local forward axis of the rig at its current orientation.
    pub rig_forward: Vec3,
    /// The local right axis of the rig at its current orientation.
    pub rig_right: Vec3,
    /// The forward axis of the camera at its pending target orientation. It
    /// points from the look point to the camera.
    pub camera_forward: Vec3,
    /// Cosine of the angle by which this frame pitches the camera.
    pub orbit_cosine: i64,
    /// Sine of the angle by which this frame pitches the camera.
    pub orbit_sine: i64,
}

} // verus!
