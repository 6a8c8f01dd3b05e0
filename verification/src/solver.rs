//! The target transform solver.
//!
//! Each frame the solver takes the pending target of the rig, or of its
//! camera, and the input of the frame, and computes the next target. The live
//! transform enters only through the height of the rig and the directions in
//! `Bearings`, so input keeps compounding while the smoothing lags behind.

use crate::config::{KeyboardConf, MouseConf};
use crate::fixed::{clamp, minus, negate, plus, product, times};
use crate::input::InputSnapshot;
use crate::transform::{Bearings, RigidTransform};
use crate::vector::Vec3;
use vstd::prelude::*;

verus! {

/// What solving the rig yields.
#[derive(Clone, Copy, Debug, PartialEq, Eq, Structural)]
pub struct RigSolution {
    /// The next target of the rig.
    pub target: RigidTransform,
    /// The user moved the rig by hand, which ends every follow.
    pub translated: bool,
    /// The vertical pointer motion that the camera turns into pitch.
    pub pitch_input: i64,
}

/// `start` moved by the directional keys that are held: forward and backward
/// along `forward`, right and left along `right`, each by `speed`.
pub open spec fn keyed_translation(
    start: Vec3,
    forward: Vec3,
    right: Vec3,
    speed: i64,
    input: InputSnapshot,
) -> Vec3 {
    let a = if input.forward {
        start.sum(forward.stretched(speed))
    } else {
        start
    };
    let b = if input.backward {
        a.difference(forward.stretched(speed))
    } else {
        a
    };
    let c = if input.right {
        b.sum(right.stretched(speed))
    } else {
        b
    };
    if input.left {
        c.difference(right.stretched(speed))
    } else {
        c
    }
}

/// `start` turned by the rotation keys that are held, each by `step`.
pub open spec fn keyed_rotation(start: i64, step: i64, input: InputSnapshot) -> i64 {
    let a = if input.counter_clockwise {
        clamp(start + step) as i64
    } else {
        start
    };
    if input.clockwise {
        clamp(a - step) as i64
    } else {
        a
    }
}

/// `start` turned against the horizontal pointer motion while the rotation
/// button is held.
pub open spec fn pointer_rotation(start: i64, sensitivity: i64, input: InputSnapshot) -> i64 {
    if input.rotate {
        clamp(start - clamp(product(sensitivity as int, input.motion_x as int))) as i64
    } else {
        start
    }
}

/// The vertical pointer motion handed on to the camera: that of the frame
/// while the rotation button is held, none otherwise.
pub open spec fn carried_pitch(input: InputSnapshot) -> i64 {
    if input.rotate {
        input.motion_y
    } else {
        0
    }
}

/// `start` dragged by the pointer: along `forward` by the vertical motion and
/// against `right` by the horizontal motion, scaled by `speed`.
pub open spec fn dragged_translation(
    start: Vec3,
    forward: Vec3,
    right: Vec3,
    speed: i64,
    input: InputSnapshot,
) -> Vec3 {
    if input.dragged() {
        start.sum(
            forward.stretched(input.motion_y).difference(right.stretched(input.motion_x)).stretched(
                speed,
            ),
        )
    } else {
        start
    }
}

/// The next target of a rig whose pending target is `start` and whose live
/// height is `height`.
pub open spec fn solved_rig(
    keyboard: KeyboardConf,
    mouse: MouseConf,
    height: i64,
    start: RigidTransform,
    input: InputSnapshot,
    bearings: Bearings,
) -> RigidTransform {
    RigidTransform {
        translation: dragged_translation(
            keyed_translation(
                start.translation,
                bearings.rig_forward,
                bearings.rig_right,
                keyboard.move_sensitivity.value_at(height),
                input,
            ),
            bearings.rig_forward,
            bearings.rig_right,
            mouse.drag_sensitivity.value_at(height),
            input,
        ),
        rotation: pointer_rotation(
            keyed_rotation(start.rotation, keyboard.rotate_sensitivity, input),
            mouse.rotate_sensitivity,
            input,
        ),
    }
}

/// `start` moved against `forward` by the scroll times `sensitivity`.
pub open spec fn zoomed_translation(start: Vec3, forward: Vec3, sensitivity: i64, scroll: i64) -> Vec3 {
    start.difference(forward.stretched(clamp(product(scroll as int, sensitivity as int)) as i64))
}

/// The angle by which `pitch_input` pitches the camera.
pub open spec fn pitch_angle(sensitivity: i64, pitch_input: i64) -> i64 {
    clamp(-clamp(product(sensitivity as int, pitch_input as int))) as i64
}

/// The next target of a camera whose pending target is `start`.
pub open spec fn solved_camera(
    mouse: MouseConf,
    start: RigidTransform,
    input: InputSnapshot,
    pitch_input: i64,
    bearings: Bearings,
) -> RigidTransform {
    let zoomed = zoomed_translation(
        start.translation,
        bearings.camera_forward,
        mouse.zoom_sensitivity,
        input.scroll,
    );
    if input.rotate {
        RigidTransform {
            translation: zoomed.turned(bearings.orbit_cosine, bearings.orbit_sine),
            rotation: clamp(start.rotation + pitch_angle(mouse.rotate_sensitivity, pitch_input)) as i64,
        }
    } else {
        RigidTransform { translation: zoomed, rotation: start.rotation }
    }
}

/// Moves a target translation by the directional keys that are held. Keys
/// held together add up; opposite keys cancel.
pub fn translate_by_keys(
    start: Vec3,
    forward: Vec3,
    right: Vec3,
    speed: i64,
    input: &InputSnapshot,
) -> (moved: Vec3)
    ensures
        moved == keyed_translation(start, forward, right, speed, *input),
        !input.keyed() ==> moved == start,
{
    let mut moved = start;
    if input.forward {
        moved = moved.plus(forward.scaled(speed));
    }
    if input.backward {
        moved = moved.minus(forward.scaled(speed));
    }
    if input.right {
        moved = moved.plus(right.scaled(speed));
    }
    if input.left {
        moved = moved.minus(right.scaled(speed));
    }
    moved
}

/// Turns a target rotation by the rotation keys that are held. The step is
/// the same whatever time the frame took.
pub fn rotate_by_keys(start: i64, step: i64, input: &InputSnapshot) -> (turned: i64)
    ensures
        turned == keyed_rotation(start, step, *input),
        !input.counter_clockwise && !input.clockwise ==> turned == start,
{
    let mut turned = start;
    if input.counter_clockwise {
        turned = plus(turned, step);
    }
    if input.clockwise {
        turned = minus(turned, step);
    }
    turned
}

/// Turns a target rotation by the horizontal pointer motion while the
/// rotation button is held.
pub fn rotate_by_pointer(start: i64, sensitivity: i64, input: &InputSnapshot) -> (turned: i64)
    ensures
        turned == pointer_rotation(start, sensitivity, *input),
{
    if input.rotate {
        minus(start, times(sensitivity, input.motion_x))
    } else {
        start
    }
}

/// Moves a target translation by the pointer while the drag button is held
/// and the pointer moved.
pub fn translate_by_drag(
    start: Vec3,
    forward: Vec3,
    right: Vec3,
    speed: i64,
    input: &InputSnapshot,
) -> (moved: Vec3)
    ensures
        moved == dragged_translation(start, forward, right, speed, *input),
{
    if input.drag && input.pointer_moved {
        let swept = forward.scaled(input.motion_y).minus(right.scaled(input.motion_x));
        start.plus(swept.scaled(speed))
    } else {
        start
    }
}

/// The vertical pointer motion that pitches the camera: that of the frame
/// while the rotation button is held, none otherwise.
pub fn pitch_input(input: &InputSnapshot) -> (motion: i64)
    ensures
        motion == carried_pitch(*input),
{
    if input.rotate {
        input.motion_y
    } else {
        0
    }
}

/// Solves the rig: computes its next target from the pending one.
///
/// `pending` is the target left by the previous frame; a rig without one
/// starts from `current`, its live transform. The result says whether the
/// user moved the rig by hand and hands the vertical pointer motion on to the
/// camera.
pub fn solve_rig(
    keyboard: &KeyboardConf,
    mouse: &MouseConf,
    current: &RigidTransform,
    pending: Option<RigidTransform>,
    input: &InputSnapshot,
    bearings: &Bearings,
) -> (solution: RigSolution)
    ensures
        solution.target == solved_rig(
            *keyboard,
            *mouse,
            current.translation.y,
            match pending {
                Some(target) => target,
                None => *current,
            },
            *input,
            *bearings,
        ),
        solution.translated == input.translates(),
        solution.pitch_input == carried_pitch(*input),
{
    let start = match pending {
        Some(target) => target,
        None => *current,
    };
    let height = current.translation.y;
    let keyed = translate_by_keys(
        start.translation,
        bearings.rig_forward,
        bearings.rig_right,
        keyboard.move_sensitivity.at(height),
        input,
    );
    let translation = translate_by_drag(
        keyed,
        bearings.rig_forward,
        bearings.rig_right,
        mouse.drag_sensitivity.at(height),
        input,
    );
    let rotation = rotate_by_pointer(
        rotate_by_keys(start.rotation, keyboard.rotate_sensitivity, input),
        mouse.rotate_sensitivity,
        input,
    );
    let translated = input.forward || input.backward || input.left || input.right || (input.drag
        && input.pointer_moved);
    RigSolution {
        target: RigidTransform { translation, rotation },
        translated,
        pitch_input: pitch_input(input),
    }
}

/// Moves a camera target against its forward axis by the scroll times the
/// zoom sensitivity: scrolling in brings the camera toward its look point.
pub fn zoom(start: Vec3, forward: Vec3, sensitivity: i64, scroll: i64) -> (moved: Vec3)
    ensures
        moved == zoomed_translation(start, forward, sensitivity, scroll),
{
    start.minus(forward.scaled(times(scroll, sensitivity)))
}

/// The angle by which the camera pitches for the vertical pointer motion
/// `pitch_input`. The host takes the cosine and sine of this angle for
/// `Bearings`.
pub fn orbit_angle(mouse: &MouseConf, pitch_input: i64) -> (angle: i64)
    ensures
        angle == pitch_angle(mouse.rotate_sensitivity, pitch_input),
{
    negate(times(mouse.rotate_sensitivity, pitch_input))
}

/// Solves the camera: computes its next target from the pending one.
///
/// The target is zoomed first. While the rotation button is held it is then
/// pitched by `orbit_angle`, and its translation is turned about the vertical
/// axis by the same angle, whose cosine and sine `bearings` holds.
pub fn solve_camera(
    mouse: &MouseConf,
    current: &RigidTransform,
    pending: Option<RigidTransform>,
    input: &InputSnapshot,
    pitch_input: i64,
    bearings: &Bearings,
) -> (target: RigidTransform)
    ensures
        target == solved_camera(
            *mouse,
            match pending {
                Some(target) => target,
                None => *current,
            },
            *input,
            pitch_input,
            *bearings,
        ),
{
    let start = match pending {
        Some(target) => target,
        None => *current,
    };
    let zoomed = zoom(
        start.translation,
        bearings.camera_forward,
        mouse.zoom_sensitivity,
        input.scroll,
    );
    if input.rotate {
        RigidTransform {
            translation: zoomed.rotated_about_vertical(bearings.orbit_cosine, bearings.orbit_sine),
            rotation: plus(start.rotation, orbit_angle(mouse, pitch_input)),
        }
    } else {
        RigidTransform { translation: zoomed, rotation: start.rotation }
    }
}

} // verus!
