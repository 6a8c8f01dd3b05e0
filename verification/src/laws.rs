//! What holds of the rig whatever the input: statements that relate several
//! functions of the library, each proved from their definitions.
//!
//! Sums and products saturate at the ends of the range of `i64`. A law that
//! fails on saturated values says in its `requires` which sums must fit.

use crate::config::{KeyboardConf, MouseConf};
use crate::fixed::{clamp, in_range, interpolated, product, quotient, TIME_CONSTANT};
use crate::follow::{all_released, leader, Followable};
use crate::input::InputSnapshot;
use crate::integrator::{smoothed, smoothed_translation};
use crate::rig::{after_frame, RigState};
use crate::solver::{
    carried_pitch, keyed_translation, solved_camera, solved_rig, zoomed_translation,
};
use crate::transform::{Bearings, RigidTransform};
use crate::vector::{
    apart, distance_squared, dot, length_squared, lemma_not_apart_from_itself,
    lemma_square_bounds, Vec3,
};
use vstd::prelude::*;

verus! {

/// Whether `start`, moved by `first`, by `second` or by both, stays in range
/// on every axis.
pub open spec fn steps_fit(start: Vec3, first: Vec3, second: Vec3) -> bool {
    &&& in_range(start.x + first.x) && in_range(start.x + second.x) && in_range(
        start.x + first.x + second.x,
    )
    &&& in_range(start.y + first.y) && in_range(start.y + second.y) && in_range(
        start.y + first.y + second.y,
    )
    &&& in_range(start.z + first.z) && in_range(start.z + second.z) && in_range(
        start.z + first.z + second.z,
    )
}

/// Holding forward and right together moves the target by the sum of what
/// each key moves it by alone: the diagonal is not shortened to the length of
/// a single step.
pub proof fn law_diagonal_is_sum_of_steps(
    start: Vec3,
    forward: Vec3,
    right: Vec3,
    speed: i64,
    ahead: InputSnapshot,
    aside: InputSnapshot,
    both: InputSnapshot,
)
    requires
        ahead.forward && !ahead.backward && !ahead.right && !ahead.left,
        !aside.forward && !aside.backward && aside.right && !aside.left,
        both.forward && !both.backward && both.right && !both.left,
        steps_fit(start, forward.stretched(speed), right.stretched(speed)),
    ensures
        ({
            let a = keyed_translation(start, forward, right, speed, ahead);
            let b = keyed_translation(start, forward, right, speed, aside);
            let c = keyed_translation(start, forward, right, speed, both);
            &&& c.x - start.x == (a.x - start.x) + (b.x - start.x)
            &&& c.y - start.y == (a.y - start.y) + (b.y - start.y)
            &&& c.z - start.z == (a.z - start.z) + (b.z - start.z)
        }),
{
}

/// Opposite keys held together cancel: the target stays, provided that the
/// step ahead stays in range on every axis.
pub proof fn law_opposite_keys_cancel(
    start: Vec3,
    forward: Vec3,
    right: Vec3,
    speed: i64,
    input: InputSnapshot,
)
    requires
        input.forward && input.backward && !input.right && !input.left,
        in_range(start.x + forward.stretched(speed).x),
        in_range(start.y + forward.stretched(speed).y),
        in_range(start.z + forward.stretched(speed).z),
    ensures
        keyed_translation(start, forward, right, speed, input) == start,
{
}

/// Two steps of equal length at a right angle add up to a step whose length
/// is the square root of two times that of either: its square is twice
/// theirs.
pub proof fn law_diagonal_speed(first: Vec3, second: Vec3)
    requires
        dot(first, second) == 0,
        length_squared(first) == length_squared(second),
    ensures
        (first.x + second.x) * (first.x + second.x) + (first.y + second.y) * (first.y + second.y)
            + (first.z + second.z) * (first.z + second.z) == 2 * length_squared(first),
{
    lemma_square_of_sum(first.x as int, second.x as int);
    lemma_square_of_sum(first.y as int, second.y as int);
    lemma_square_of_sum(first.z as int, second.z as int);
}

proof fn lemma_square_of_sum(a: int, b: int)
    ensures
        (a + b) * (a + b) == a * a + 2 * (a * b) + b * b,
{
    assert((a + b) * (a + b) == a * a + 2 * (a * b) + b * b) by (nonlinear_arith);
}

/// A frame no longer than the time constant leaves a value between where it
/// was and its target, both included, so that nothing saturates; where the
/// step does not round to nothing the value has left its place; and a frame
/// of exactly the time constant puts it on its target.
pub proof fn law_blend_approaches(from: i64, to: i64, elapsed: u64)
    requires
        elapsed <= TIME_CONSTANT,
    ensures
        clamp(interpolated(from as int, to as int, elapsed as int)) == interpolated(
            from as int,
            to as int,
            elapsed as int,
        ),
        from <= to ==> from <= interpolated(from as int, to as int, elapsed as int) <= to,
        from >= to ==> to <= interpolated(from as int, to as int, elapsed as int) <= from,
        (to - from) * elapsed >= TIME_CONSTANT || (from - to) * elapsed >= TIME_CONSTANT
            ==> interpolated(from as int, to as int, elapsed as int) != from,
        elapsed == TIME_CONSTANT ==> interpolated(from as int, to as int, elapsed as int) == to,
{
    let gap: int = to - from;
    let e: int = elapsed as int;
    lemma_share(gap, e);
    lemma_share(-gap, e);
    assert((-gap) * e == -(gap * e)) by (nonlinear_arith);
    assert((from - to) * e == -(gap * e)) by (nonlinear_arith)
        requires
            gap == to - from,
    ;
}

/// A frame longer than the time constant carries a value to its target or
/// past it, and strictly past it where the excess does not round to nothing
/// and the range of `i64` has room: the fraction is not capped at one.
pub proof fn law_blend_overshoots(from: i64, to: i64, elapsed: u64)
    requires
        elapsed >= TIME_CONSTANT,
    ensures
        from <= to ==> clamp(interpolated(from as int, to as int, elapsed as int)) >= to,
        from >= to ==> clamp(interpolated(from as int, to as int, elapsed as int)) <= to,
        (to - from) * (elapsed - TIME_CONSTANT) >= TIME_CONSTANT ==> interpolated(
            from as int,
            to as int,
            elapsed as int,
        ) > to,
        (from - to) * (elapsed - TIME_CONSTANT) >= TIME_CONSTANT ==> interpolated(
            from as int,
            to as int,
            elapsed as int,
        ) < to,
        (to - from) * (elapsed - TIME_CONSTANT) >= TIME_CONSTANT && to < i64::MAX ==> clamp(
            interpolated(from as int, to as int, elapsed as int),
        ) > to,
        (from - to) * (elapsed - TIME_CONSTANT) >= TIME_CONSTANT && to > i64::MIN ==> clamp(
            interpolated(from as int, to as int, elapsed as int),
        ) < to,
{
    let gap: int = to - from;
    let e: int = elapsed as int;
    let t: int = TIME_CONSTANT as int;
    assert(gap * e == gap * t + gap * (e - t)) by (nonlinear_arith);
    assert((from - to) * (e - t) == -(gap * (e - t))) by (nonlinear_arith)
        requires
            gap == to - from,
    ;
    assert(gap >= 0 ==> gap * (e - t) >= 0) by (nonlinear_arith)
        requires
            e >= t,
    ;
    assert(gap <= 0 ==> gap * (e - t) <= 0) by (nonlinear_arith)
        requires
            e >= t,
    ;
}

/// What `quotient` makes of a gap times a share of the time constant.
proof fn lemma_share(gap: int, e: int)
    requires
        0 <= e <= TIME_CONSTANT,
    ensures
        gap >= 0 ==> 0 <= quotient(gap * e, TIME_CONSTANT as int) <= gap,
        gap * e >= TIME_CONSTANT ==> quotient(gap * e, TIME_CONSTANT as int) >= 1,
        e == TIME_CONSTANT ==> quotient(gap * e, TIME_CONSTANT as int) == gap,
{
    let t: int = TIME_CONSTANT as int;
    assert(gap >= 0 ==> 0 <= gap * e <= gap * t) by (nonlinear_arith)
        requires
            0 <= e <= t,
    ;
    assert(e == t ==> gap * e == gap * t) by (nonlinear_arith);
}

/// Within the snap distance the integrator puts a translation on its target
/// exactly; beyond it, a frame no longer than the time constant brings the
/// translation no farther from its target than it was.
pub proof fn law_smoothing_approaches(current: Vec3, target: Vec3, elapsed: u64)
    requires
        elapsed <= TIME_CONSTANT,
    ensures
        !apart(current, target) ==> smoothed_translation(current, target, elapsed) == target,
        distance_squared(smoothed_translation(current, target, elapsed), target)
            <= distance_squared(current, target),
{
    lemma_not_apart_from_itself(target);
    lemma_square_bounds(current.x - target.x, 0);
    lemma_square_bounds(current.y - target.y, 0);
    lemma_square_bounds(current.z - target.z, 0);
    if apart(current, target) {
        let next = current.approached(target, elapsed);
        law_blend_approaches(current.x, target.x, elapsed);
        law_blend_approaches(current.y, target.y, elapsed);
        law_blend_approaches(current.z, target.z, elapsed);
        lemma_nearer_square(next.x - target.x, current.x - target.x);
        lemma_nearer_square(next.y - target.y, current.y - target.y);
        lemma_nearer_square(next.z - target.z, current.z - target.z);
    }
}

/// Whether a frame of `elapsed` microseconds moves a value at `from` that is
/// on its way to `to`: the step does not round to nothing.
pub open spec fn moves(from: i64, to: i64, elapsed: u64) -> bool {
    (to - from) * elapsed >= TIME_CONSTANT || (from - to) * elapsed >= TIME_CONSTANT
}

/// Beyond the snap distance, a frame no longer than the time constant that
/// moves the translation on some axis brings it strictly closer to its
/// target.
pub proof fn law_smoothing_approaches_strictly(current: Vec3, target: Vec3, elapsed: u64)
    requires
        elapsed <= TIME_CONSTANT,
        apart(current, target),
        moves(current.x, target.x, elapsed) || moves(current.y, target.y, elapsed) || moves(
            current.z,
            target.z,
            elapsed,
        ),
    ensures
        distance_squared(smoothed_translation(current, target, elapsed), target)
            < distance_squared(current, target),
{
    let next = current.approached(target, elapsed);
    law_blend_approaches(current.x, target.x, elapsed);
    law_blend_approaches(current.y, target.y, elapsed);
    law_blend_approaches(current.z, target.z, elapsed);
    lemma_nearer_square(next.x - target.x, current.x - target.x);
    lemma_nearer_square(next.y - target.y, current.y - target.y);
    lemma_nearer_square(next.z - target.z, current.z - target.z);
    if moves(current.x, target.x, elapsed) {
        lemma_nearer_square_strict(next.x - target.x, current.x - target.x);
    } else if moves(current.y, target.y, elapsed) {
        lemma_nearer_square_strict(next.y - target.y, current.y - target.y);
    } else {
        lemma_nearer_square_strict(next.z - target.z, current.z - target.z);
    }
}

/// The shortest frame, in microseconds, that moves every translation that
/// lies beyond the snap distance.
pub const MOVING_FRAME: u64 = 35;

/// Beyond the snap distance, every frame of at least `MOVING_FRAME`
/// microseconds and no longer than the time constant brings the translation
/// strictly closer to its target.
pub proof fn law_frames_approach_strictly(current: Vec3, target: Vec3, elapsed: u64)
    requires
        MOVING_FRAME <= elapsed <= TIME_CONSTANT,
        apart(current, target),
    ensures
        distance_squared(smoothed_translation(current, target, elapsed), target)
            < distance_squared(current, target),
{
    let dx: int = current.x - target.x;
    let dy: int = current.y - target.y;
    let dz: int = current.z - target.z;
    lemma_square_bounds(dx, 2_886);
    lemma_square_bounds(dy, 2_886);
    lemma_square_bounds(dz, 2_886);
    assert(2_886 * 2_886 == 8_328_996int);
    lemma_far_enough_moves(current.x, target.x, elapsed);
    lemma_far_enough_moves(current.y, target.y, elapsed);
    lemma_far_enough_moves(current.z, target.z, elapsed);
    law_smoothing_approaches_strictly(current, target, elapsed);
}

/// A gap of more than 2886 millionths moves in a frame of `MOVING_FRAME`
/// microseconds or more.
proof fn lemma_far_enough_moves(from: i64, to: i64, elapsed: u64)
    requires
        elapsed >= MOVING_FRAME,
    ensures
        from - to > 2_886 || to - from > 2_886 ==> moves(from, to, elapsed),
{
    let gap: int = to - from;
    let e: int = elapsed as int;
    assert(gap > 2_886 ==> gap * e >= 2_887 * 35) by (nonlinear_arith)
        requires
            e >= 35,
    ;
    assert(-gap > 2_886 ==> (-gap) * e >= 2_887 * 35) by (nonlinear_arith)
        requires
            e >= 35,
    ;
    assert((from - to) * e == (-gap) * e) by (nonlinear_arith)
        requires
            gap == to - from,
    ;
}

/// A number between zero and another has no larger a square, and a smaller
/// one unless the two are equal.
proof fn lemma_nearer_square_strict(near: int, far: int)
    requires
        (0 <= near < far) || (far < near <= 0),
    ensures
        near * near < far * far,
{
    assert(near * near < far * far) by (nonlinear_arith)
        requires
            (0 <= near < far) || (far < near <= 0),
    ;
}

/// A number between zero and another has no larger a square.
proof fn lemma_nearer_square(near: int, far: int)
    requires
        (0 <= near <= far) || (far <= near <= 0),
    ensures
        near * near <= far * far,
{
    assert(near * near <= far * far) by (nonlinear_arith)
        requires
            (0 <= near <= far) || (far <= near <= 0),
    ;
}

/// Where a transform stands after the given frames, each with its own
/// duration in microseconds, on its way to a target that stays.
pub open spec fn settled(current: RigidTransform, target: RigidTransform, frames: Seq<u64>)
    -> RigidTransform
    decreases frames.len(),
{
    if frames.len() == 0 {
        current
    } else {
        smoothed(settled(current, target, frames.drop_last()), target, frames.last())
    }
}

/// A transform that is on its target stays there, however many frames pass
/// and however long they take.
pub proof fn law_rest_is_kept(at: RigidTransform, frames: Seq<u64>)
    ensures
        settled(at, at, frames) == at,
    decreases frames.len(),
{
    if frames.len() > 0 {
        law_rest_is_kept(at, frames.drop_last());
        lemma_not_apart_from_itself(at.translation);
    }
}

/// A frame without input leaves both targets as they are, whatever the
/// bindings, the height of the rig and the bearings.
pub proof fn law_idle_frame_keeps_targets(
    keyboard: KeyboardConf,
    mouse: MouseConf,
    height: i64,
    rig_target: RigidTransform,
    camera_target: RigidTransform,
    input: InputSnapshot,
    bearings: Bearings,
)
    requires
        input.idle(),
    ensures
        solved_rig(keyboard, mouse, height, rig_target, input, bearings) == rig_target,
        solved_camera(mouse, camera_target, input, carried_pitch(input), bearings)
            == camera_target,
{
    let forward = bearings.camera_forward;
    assert(0 * mouse.zoom_sensitivity == 0);
    assert(forward.x * 0 == 0 && forward.y * 0 == 0 && forward.z * 0 == 0);
}

/// Once every follow has ended, nothing draws the rig.
pub proof fn law_released_have_no_leader(followables: Seq<Followable>)
    ensures
        leader(all_released(followables)) == None::<Vec3>,
    decreases followables.len(),
{
    let released = all_released(followables);
    if followables.len() > 0 {
        assert(released.drop_last() =~= all_released(followables.drop_last()));
        law_released_have_no_leader(followables.drop_last());
    }
}

/// The rig is drawn to the followable that is followed and moved, provided
/// that none after it is.
pub proof fn law_leader_is_last_to_lead(followables: Seq<Followable>, index: int)
    requires
        0 <= index < followables.len(),
        followables[index].leads(),
        forall|j: int| index < j < followables.len() ==> !(#[trigger] followables[j]).leads(),
    ensures
        leader(followables) == Some(followables[index].translation),
    decreases followables.len(),
{
    if index < followables.len() - 1 {
        law_leader_is_last_to_lead(followables.drop_last(), index);
    }
}

/// Without a followable that is followed and moved, nothing draws the rig.
pub proof fn law_no_leader(followables: Seq<Followable>)
    requires
        forall|j: int| 0 <= j < followables.len() ==> !(#[trigger] followables[j]).leads(),
    ensures
        leader(followables) == None::<Vec3>,
    decreases followables.len(),
{
    if followables.len() > 0 {
        law_no_leader(followables.drop_last());
    }
}

/// The step of a zoom: the forward axis times the scroll times the zoom
/// sensitivity.
pub open spec fn zoom_step(forward: Vec3, sensitivity: i64, scroll: i64) -> Vec3 {
    forward.stretched(clamp(product(scroll as int, sensitivity as int)) as i64)
}

/// Zooming moves the camera by its step, against its forward axis. That
/// brings it closer to the rig, at the origin of its frame, whenever the step
/// points from the rig toward the camera and is shorter than twice the way
/// to the rig, so that it does not carry the camera through the rig and
/// farther out on the other side.
pub proof fn law_zoom_approaches(start: Vec3, forward: Vec3, sensitivity: i64, scroll: i64)
    requires
        ({
            let step = zoom_step(forward, sensitivity, scroll);
            &&& in_range(start.x - step.x) && in_range(start.y - step.y) && in_range(
                start.z - step.z,
            )
            &&& 2 * dot(start, step) > length_squared(step)
        }),
    ensures
        ({
            let step = zoom_step(forward, sensitivity, scroll);
            let zoomed = zoomed_translation(start, forward, sensitivity, scroll);
            &&& zoomed.x == start.x - step.x
            &&& zoomed.y == start.y - step.y
            &&& zoomed.z == start.z - step.z
            &&& length_squared(zoomed) < length_squared(start)
        }),
{
    let step = zoom_step(forward, sensitivity, scroll);
    lemma_square_of_difference(start.x as int, step.x as int);
    lemma_square_of_difference(start.y as int, step.y as int);
    lemma_square_of_difference(start.z as int, step.z as int);
}

/// A camera that looks at its rig from `distance` away, so that it hangs at
/// `distance` along its forward axis, comes strictly closer to the rig when
/// it zooms in by no more than `distance`, unless the step rounds to nothing.
pub proof fn law_zoom_in_approaches_the_rig(
    forward: Vec3,
    distance: i64,
    sensitivity: i64,
    scroll: i64,
)
    requires
        0 < clamp(product(scroll as int, sensitivity as int)) <= distance,
        zoom_step(forward, sensitivity, scroll) != (Vec3 { x: 0, y: 0, z: 0 }),
    ensures
        length_squared(
            zoomed_translation(forward.stretched(distance), forward, sensitivity, scroll),
        ) < length_squared(forward.stretched(distance)),
{
    let amount = clamp(product(scroll as int, sensitivity as int)) as i64;
    let start = forward.stretched(distance);
    let step = zoom_step(forward, sensitivity, scroll);
    lemma_shorter_stretch(forward.x, amount, distance);
    lemma_shorter_stretch(forward.y, amount, distance);
    lemma_shorter_stretch(forward.z, amount, distance);
    lemma_square_after_step(start.x as int, step.x as int);
    lemma_square_after_step(start.y as int, step.y as int);
    lemma_square_after_step(start.z as int, step.z as int);
}

/// Stretching by a smaller positive factor gives a value between zero and
/// what the larger factor gives.
proof fn lemma_shorter_stretch(component: i64, near: i64, far: i64)
    requires
        0 < near <= far,
    ensures
        ({
            let short = clamp(product(component as int, near as int));
            let long = clamp(product(component as int, far as int));
            (0 <= short <= long) || (long <= short <= 0)
        }),
{
    let c: int = component as int;
    assert(c >= 0 ==> 0 <= c * near <= c * far) by (nonlinear_arith)
        requires
            0 < near <= far,
    ;
    assert(c <= 0 ==> c * far <= c * near <= 0) by (nonlinear_arith)
        requires
            0 < near <= far,
    ;
}

/// Taking from a number a step toward zero that is no longer than the number
/// leaves no larger a square, and a smaller one unless the step is zero.
proof fn lemma_square_after_step(whole: int, step: int)
    requires
        (0 <= step <= whole) || (whole <= step <= 0),
    ensures
        (whole - step) * (whole - step) <= whole * whole,
        step != 0 ==> (whole - step) * (whole - step) < whole * whole,
{
    assert((whole - step) * (whole - step) <= whole * whole) by (nonlinear_arith)
        requires
            (0 <= step <= whole) || (whole <= step <= 0),
    ;
    assert(step != 0 ==> (whole - step) * (whole - step) < whole * whole) by (nonlinear_arith)
        requires
            (0 <= step <= whole) || (whole <= step <= 0),
    ;
}

proof fn lemma_square_of_difference(a: int, b: int)
    ensures
        (a - b) * (a - b) == a * a - 2 * (a * b) + b * b,
{
    assert((a - b) * (a - b) == a * a - 2 * (a * b) + b * b) by (nonlinear_arith);
}

/// The state after a run of frames with the same input, each with its own
/// bearings and duration.
pub open spec fn after_frames(
    keyboard: KeyboardConf,
    mouse: MouseConf,
    before: RigState,
    input: InputSnapshot,
    frames: Seq<(Bearings, u64)>,
) -> RigState
    decreases frames.len(),
{
    if frames.len() == 0 {
        before
    } else {
        after_frame(
            keyboard,
            mouse,
            after_frames(keyboard, mouse, before, input, frames.drop_last()),
            input,
            frames.last().0,
            frames.last().1,
        )
    }
}

/// A rig at rest stays at rest: with both targets on the live transforms,
/// and nothing to follow, frames without input change nothing, however many
/// they are and however long they take.
pub proof fn law_rig_at_rest_is_kept(
    keyboard: KeyboardConf,
    mouse: MouseConf,
    state: RigState,
    input: InputSnapshot,
    frames: Seq<(Bearings, u64)>,
)
    requires
        input.idle(),
        state.move_to == (Some(state.rig), Some(state.camera)),
        leader(state.followables) == None::<Vec3>,
    ensures
        after_frames(keyboard, mouse, state, input, frames) == state,
    decreases frames.len(),
{
    if frames.len() > 0 {
        law_rig_at_rest_is_kept(keyboard, mouse, state, input, frames.drop_last());
        law_idle_frame_keeps_targets(
            keyboard,
            mouse,
            state.rig.translation.y,
            state.rig,
            state.camera,
            input,
            frames.last().0,
        );
        lemma_not_apart_from_itself(state.rig.translation);
        lemma_not_apart_from_itself(state.camera.translation);
    }
}

} // verus!
