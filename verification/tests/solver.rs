use bevy_4x_camera::solver::{
    orbit_angle, rotate_by_keys, rotate_by_pointer, solve_camera, solve_rig, translate_by_drag,
    translate_by_keys, zoom,
};
use bevy_4x_camera::{
    Affine, Bearings, InputSnapshot, KeyboardConf, MouseConf, RigidTransform, Vec3,
};

fn level_bearings() -> Bearings {
    Bearings {
        rig_forward: Vec3::new(1_000_000, 0, 0),
        rig_right: Vec3::new(0, 0, 1_000_000),
        camera_forward: Vec3::new(-707_107, 707_107, 0),
        orbit_cosine: 1_000_000,
        orbit_sine: 0,
    }
}

#[test]
fn no_directional_key_leaves_the_translation() {
    let start = Vec3::new(5, -6, 7);
    let axes = level_bearings();
    let mut input = InputSnapshot::none();
    input.clockwise = true;
    input.rotate = true;
    input.drag = true;
    input.pointer_moved = true;
    input.motion_x = 9_000_000;
    input.scroll = 1_000_000;
    assert_eq!(
        translate_by_keys(start, axes.rig_forward, axes.rig_right, 100_000, &input),
        start
    );
}

#[test]
fn each_key_moves_along_its_axis() {
    let start = Vec3::zero();
    let axes = level_bearings();
    let forward = InputSnapshot { forward: true, ..InputSnapshot::none() };
    let backward = InputSnapshot { backward: true, ..InputSnapshot::none() };
    let right = InputSnapshot { right: true, ..InputSnapshot::none() };
    let left = InputSnapshot { left: true, ..InputSnapshot::none() };
    let go = |input: &InputSnapshot| {
        translate_by_keys(start, axes.rig_forward, axes.rig_right, 100_000, input)
    };
    assert_eq!(go(&forward), Vec3::new(100_000, 0, 0));
    assert_eq!(go(&backward), Vec3::new(-100_000, 0, 0));
    assert_eq!(go(&right), Vec3::new(0, 0, 100_000));
    assert_eq!(go(&left), Vec3::new(0, 0, -100_000));
}

#[test]
fn forward_and_right_add_up_without_normalization() {
    let start = Vec3::new(1_000, 2_000, 3_000);
    let forward_axis = Vec3::new(800_000, 0, -600_000);
    let right_axis = Vec3::new(600_000, 0, 800_000);
    let speed = 2_500_000;
    let ahead = InputSnapshot { forward: true, ..InputSnapshot::none() };
    let aside = InputSnapshot { right: true, ..InputSnapshot::none() };
    let both = InputSnapshot { forward: true, right: true, ..InputSnapshot::none() };
    let a = translate_by_keys(start, forward_axis, right_axis, speed, &ahead);
    let b = translate_by_keys(start, forward_axis, right_axis, speed, &aside);
    let c = translate_by_keys(start, forward_axis, right_axis, speed, &both);
    assert_eq!(a, Vec3::new(2_001_000, 2_000, -1_497_000));
    assert_eq!(b, Vec3::new(1_501_000, 2_000, 2_003_000));
    assert_eq!(c, Vec3::new(3_501_000, 2_000, 503_000));
    assert_eq!(c.minus(start), a.minus(start).plus(b.minus(start)));
    let single = a.minus(start);
    let diagonal = c.minus(start);
    let single_squared = single.x * single.x + single.z * single.z;
    let diagonal_squared = diagonal.x * diagonal.x + diagonal.z * diagonal.z;
    assert_eq!(diagonal_squared, 2 * single_squared);
}

#[test]
fn opposite_keys_cancel() {
    let start = Vec3::new(4, 5, 6);
    let axes = level_bearings();
    let input = InputSnapshot {
        forward: true,
        backward: true,
        left: true,
        right: true,
        ..InputSnapshot::none()
    };
    assert_eq!(
        translate_by_keys(start, axes.rig_forward, axes.rig_right, 20_100_000, &input),
        start
    );
}

#[test]
fn rotation_keys_turn_by_a_fixed_step() {
    let counter = InputSnapshot { counter_clockwise: true, ..InputSnapshot::none() };
    let clock = InputSnapshot { clockwise: true, ..InputSnapshot::none() };
    let both = InputSnapshot { clockwise: true, counter_clockwise: true, ..InputSnapshot::none() };
    assert_eq!(rotate_by_keys(1_000, 31_416, &counter), 32_416);
    assert_eq!(rotate_by_keys(1_000, 31_416, &clock), -30_416);
    assert_eq!(rotate_by_keys(1_000, 31_416, &both), 1_000);
    assert_eq!(rotate_by_keys(1_000, 31_416, &InputSnapshot::none()), 1_000);
}

#[test]
fn pointer_turns_the_rig_only_while_the_button_is_held() {
    let held = InputSnapshot {
        rotate: true,
        pointer_moved: true,
        motion_x: 10_000_000,
        motion_y: 4_000_000,
        ..InputSnapshot::none()
    };
    let loose = InputSnapshot { rotate: false, ..held };
    assert_eq!(rotate_by_pointer(0, 3_142, &held), -31_420);
    assert_eq!(rotate_by_pointer(0, 3_142, &loose), 0);
}

#[test]
fn drag_moves_along_the_rotated_axes() {
    let axes = level_bearings();
    let input = InputSnapshot {
        drag: true,
        pointer_moved: true,
        motion_x: 2_000_000,
        motion_y: 3_000_000,
        ..InputSnapshot::none()
    };
    assert_eq!(
        translate_by_drag(Vec3::zero(), axes.rig_forward, axes.rig_right, 3_142, &input),
        Vec3::new(9_426, 0, -6_284)
    );
    let still = InputSnapshot { pointer_moved: false, ..input };
    assert_eq!(
        translate_by_drag(Vec3::zero(), axes.rig_forward, axes.rig_right, 3_142, &still),
        Vec3::zero()
    );
    let loose = InputSnapshot { drag: false, ..input };
    assert_eq!(
        translate_by_drag(Vec3::zero(), axes.rig_forward, axes.rig_right, 3_142, &loose),
        Vec3::zero()
    );
}

#[test]
fn rig_without_target_starts_from_its_live_transform() {
    let keyboard = KeyboardConf::default();
    let mouse = MouseConf::default();
    let live = RigidTransform::new(Vec3::new(1_000_000, 0, 2_000_000), 500);
    let input = InputSnapshot { forward: true, ..InputSnapshot::none() };
    let solution = solve_rig(&keyboard, &mouse, &live, None, &input, &level_bearings());
    assert_eq!(
        solution.target,
        RigidTransform::new(Vec3::new(1_100_000, 0, 2_000_000), 500)
    );
    assert!(solution.translated);
    assert_eq!(solution.pitch_input, 0);
}

#[test]
fn rig_compounds_on_its_pending_target() {
    let keyboard = KeyboardConf::default();
    let mouse = MouseConf::default();
    let live = RigidTransform::new(Vec3::new(16_000, 0, 0), 0);
    let pending = RigidTransform::new(Vec3::new(100_000, 0, 0), 0);
    let input = InputSnapshot { forward: true, ..InputSnapshot::none() };
    let solution = solve_rig(&keyboard, &mouse, &live, Some(pending), &input, &level_bearings());
    assert_eq!(solution.target.translation, Vec3::new(200_000, 0, 0));
}

#[test]
fn move_sensitivity_scales_with_the_live_height() {
    let keyboard = KeyboardConf::default();
    let mouse = MouseConf::default();
    let live = RigidTransform::new(Vec3::new(0, 10_000_000, 0), 0);
    let pending = RigidTransform::new(Vec3::new(0, 0, 0), 0);
    let input = InputSnapshot { right: true, ..InputSnapshot::none() };
    let solution = solve_rig(&keyboard, &mouse, &live, Some(pending), &input, &level_bearings());
    assert_eq!(solution.target.translation, Vec3::new(0, 0, 20_100_000));
}

#[test]
fn rig_yaws_and_hands_the_pitch_to_the_camera() {
    let keyboard = KeyboardConf::default();
    let mouse = MouseConf::default();
    let live = RigidTransform::identity();
    let input = InputSnapshot {
        counter_clockwise: true,
        rotate: true,
        pointer_moved: true,
        motion_x: -10_000_000,
        motion_y: 4_000_000,
        ..InputSnapshot::none()
    };
    let solution = solve_rig(&keyboard, &mouse, &live, None, &input, &level_bearings());
    assert_eq!(solution.target.rotation, 31_416 + 31_420);
    assert_eq!(solution.target.translation, Vec3::zero());
    assert!(!solution.translated);
    assert_eq!(solution.pitch_input, 4_000_000);
}

#[test]
fn drag_counts_as_translation_only_when_the_pointer_moved() {
    let keyboard = KeyboardConf::default();
    let mouse = MouseConf::default();
    let live = RigidTransform::identity();
    let held = InputSnapshot { drag: true, ..InputSnapshot::none() };
    let solution = solve_rig(&keyboard, &mouse, &live, None, &held, &level_bearings());
    assert!(!solution.translated);
    let moved = InputSnapshot { drag: true, pointer_moved: true, ..InputSnapshot::none() };
    let solution = solve_rig(&keyboard, &mouse, &live, None, &moved, &level_bearings());
    assert!(solution.translated);
    assert_eq!(solution.pitch_input, 0);
}

#[test]
fn custom_bindings_are_honoured() {
    let keyboard = KeyboardConf {
        move_sensitivity: Affine { slope: 0, offset: 250_000 },
        rotate_sensitivity: 1_000,
        ..KeyboardConf::default()
    };
    let mouse = MouseConf {
        drag_sensitivity: Affine { slope: 0, offset: 10_000 },
        ..MouseConf::default()
    };
    let live = RigidTransform::new(Vec3::new(0, 40_000_000, 0), 0);
    let input = InputSnapshot {
        backward: true,
        clockwise: true,
        drag: true,
        pointer_moved: true,
        motion_x: 1_000_000,
        motion_y: 0,
        ..InputSnapshot::none()
    };
    let solution = solve_rig(&keyboard, &mouse, &live, None, &input, &level_bearings());
    assert_eq!(
        solution.target,
        RigidTransform::new(Vec3::new(-250_000, 40_000_000, -10_000), -1_000)
    );
}

#[test]
fn zoom_in_moves_the_camera_toward_the_rig() {
    let start = Vec3::new(-20_000_000, 20_000_000, 0);
    let forward = Vec3::new(-707_107, 707_107, 0);
    let zoomed = zoom(start, forward, 5_000_000, 1_000_000);
    assert_eq!(zoomed, Vec3::new(-16_464_465, 16_464_465, 0));
    let before = (start.x as i128).pow(2) + (start.y as i128).pow(2);
    let after = (zoomed.x as i128).pow(2) + (zoomed.y as i128).pow(2);
    assert!(after < before);
    let travelled = (((start.x - zoomed.x) as f64).powi(2) + ((start.y - zoomed.y) as f64).powi(2))
        .sqrt();
    assert!((travelled - 5_000_000.0).abs() < 2.0);
}

#[test]
fn zoom_out_moves_the_camera_away() {
    let start = Vec3::new(-20_000_000, 20_000_000, 0);
    let forward = Vec3::new(-707_107, 707_107, 0);
    assert_eq!(
        zoom(start, forward, 5_000_000, -2_000_000),
        Vec3::new(-27_071_070, 27_071_070, 0)
    );
    assert_eq!(zoom(start, forward, 5_000_000, 0), start);
}

#[test]
fn orbit_angle_is_against_the_vertical_motion() {
    let mouse = MouseConf::default();
    assert_eq!(orbit_angle(&mouse, 100_000_000), -314_200);
    assert_eq!(orbit_angle(&mouse, -100_000_000), 314_200);
    assert_eq!(orbit_angle(&mouse, 0), 0);
}

#[test]
fn camera_zooms_then_pitches_and_orbits() {
    let mouse = MouseConf::default();
    let live = RigidTransform::new(Vec3::new(-20_000_000, 20_000_000, 0), 0);
    let input = InputSnapshot {
        rotate: true,
        pointer_moved: true,
        motion_y: 100_000_000,
        scroll: 1_000_000,
        ..InputSnapshot::none()
    };
    let bearings = Bearings { orbit_cosine: 0, orbit_sine: 1_000_000, ..level_bearings() };
    let target = solve_camera(&mouse, &live, None, &input, 100_000_000, &bearings);
    assert_eq!(
        target,
        RigidTransform::new(Vec3::new(0, 16_464_465, 16_464_465), -314_200)
    );
}

#[test]
fn camera_does_not_pitch_while_the_button_is_loose() {
    let mouse = MouseConf::default();
    let live = RigidTransform::new(Vec3::new(-20_000_000, 20_000_000, 0), 12);
    let pending = RigidTransform::new(Vec3::new(-10_000_000, 10_000_000, 0), 34);
    let input = InputSnapshot { pointer_moved: true, motion_y: 100_000_000, ..InputSnapshot::none() };
    let bearings = Bearings { orbit_cosine: 0, orbit_sine: 1_000_000, ..level_bearings() };
    let target = solve_camera(&mouse, &live, Some(pending), &input, 0, &bearings);
    assert_eq!(target, pending);
}
