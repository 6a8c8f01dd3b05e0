//! The smoothing integrator.
//!
//! Each frame the live transform moves toward its target by the fraction
//! `elapsed / TIME_CONSTANT` of the gap, `elapsed` being the frame time in
//! microseconds. The fraction is not capped: a frame longer than the time
//! constant carries the transform past the target. Within the snap
//! thresholds the transform takes the target exactly, so that it arrives.

use crate::fixed::{blend, clamp, interpolated};
use crate::transform::RigidTransform;
use crate::vector::{apart, lemma_not_apart_from_itself, Vec3};
use vstd::prelude::*;

verus! {

/// The angle, in millionths of a radian, at or below which a rotation counts
/// as having arrived.
pub const SNAP_ANGLE: i64 = 10;

/// Whether the angles `a` and `b` differ by more than `SNAP_ANGLE`.
pub open spec fn askew(a: i64, b: i64) -> bool {
    a - b > SNAP_ANGLE || b - a > SNAP_ANGLE
}

/// Where a translation at `current` stands after a frame of `elapsed`
/// microseconds on its way to `target`.
pub open spec fn smoothed_translation(current: Vec3, target: Vec3, elapsed: u64) -> Vec3 {
    if apart(current, target) {
        current.approached(target, elapsed)
    } else {
        target
    }
}

/// Where a rotation at `current` stands after a frame of `elapsed`
/// microseconds on its way to `target`.
pub open spec fn smoothed_rotation(current: i64, target: i64, elapsed: u64) -> i64 {
    if askew(current, target) {
        clamp(interpolated(current as int, target as int, elapsed as int)) as i64
    } else {
        target
    }
}

/// Where a transform at `current` stands after a frame of `elapsed`
/// microseconds on its way to `target`.
pub open spec fn smoothed(current: RigidTransform, target: RigidTransform, elapsed: u64)
    -> RigidTransform {
    RigidTransform {
        translation: smoothed_translation(current.translation, target.translation, elapsed),
        rotation: smoothed_rotation(current.rotation, target.rotation, elapsed),
    }
}

/// Moves a translation toward its target for one frame.
///
/// More than `SNAP_DISTANCE` away, it moves by the fraction
/// `elapsed / TIME_CONSTANT` of the gap; otherwise it takes the target
/// exactly.
pub fn smooth_translation(current: Vec3, target: Vec3, elapsed: u64) -> (next: Vec3)
    ensures
        next == smoothed_translation(current, target, elapsed),
        !apart(current, target) ==> next == target,
        apart(current, target) ==> next == current.approached(target, elapsed),
        current == target ==> next == current,
{
    proof {
        lemma_not_apart_from_itself(current);
    }
    if current.is_apart(target) {
        current.blend(target, elapsed)
    } else {
        target
    }
}

/// Moves a rotation toward its target for one frame.
///
/// More than `SNAP_ANGLE` away, it turns by the fraction
/// `elapsed / TIME_CONSTANT` of the gap; otherwise it takes the target
/// exactly.
pub fn smooth_rotation(current: i64, target: i64, elapsed: u64) -> (next: i64)
    ensures
        next == smoothed_rotation(current, target, elapsed),
        !askew(current, target) ==> next == target,
        current == target ==> next == current,
{
    let gap: i128 = target as i128 - current as i128;
    if gap > SNAP_ANGLE as i128 || gap < -(SNAP_ANGLE as i128) {
        blend(current, target, elapsed)
    } else {
        target
    }
}

/// Moves a transform toward its target for one frame, translation and
/// rotation each by its own rule.
pub fn integrate(current: &RigidTransform, target: &RigidTransform, elapsed: u64) -> (next:
    RigidTransform)
    ensures
        next == smoothed(*current, *target, elapsed),
        *current == *target ==> next == *current,
{
    RigidTransform {
        translation: smooth_translation(current.translation, target.translation, elapsed),
        rotation: smooth_rotation(current.rotation, target.rotation, elapsed),
    }
}

} // verus!
