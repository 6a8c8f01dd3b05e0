use bevy_4x_camera::integrator::{integrate, smooth_rotation, smooth_translation, SNAP_ANGLE};
use bevy_4x_camera::{RigidTransform, Vec3};

#[test]
fn translation_at_the_threshold_snaps_to_target() {
    let current = Vec3::new(0, 0, 0);
    let target = Vec3::new(3_000, 4_000, 0);
    assert_eq!(smooth_translation(current, target, 16_000), target);
    assert_eq!(smooth_translation(current, target, 0), target);
}

#[test]
fn translation_just_beyond_the_threshold_is_interpolated() {
    let current = Vec3::new(0, 0, 0);
    let target = Vec3::new(3_000, 4_000, 1);
    assert_eq!(smooth_translation(current, target, 16_000), Vec3::new(480, 640, 0));
}

#[test]
fn translation_moves_by_the_fraction_of_the_frame_time() {
    let current = Vec3::new(0, 0, 0);
    let target = Vec3::new(1_000_000, -2_000_000, 0);
    assert_eq!(
        smooth_translation(current, target, 16_000),
        Vec3::new(160_000, -320_000, 0)
    );
}

#[test]
fn translation_overshoots_when_the_frame_is_longer_than_the_time_constant() {
    let current = Vec3::new(0, 0, 0);
    let target = Vec3::new(1_000_000, 0, 0);
    assert_eq!(smooth_translation(current, target, 250_000), Vec3::new(2_500_000, 0, 0));
}

#[test]
fn rotation_snaps_within_the_snap_angle() {
    assert_eq!(SNAP_ANGLE, 10);
    assert_eq!(smooth_rotation(100, 110, 16_000), 110);
    assert_eq!(smooth_rotation(100, 90, 16_000), 90);
    assert_eq!(smooth_rotation(100, 111, 50_000), 105);
    assert_eq!(smooth_rotation(100, 89, 50_000), 95);
}

#[test]
fn rotation_overshoots_on_long_frames() {
    assert_eq!(smooth_rotation(0, 31_416, 200_000), 62_832);
}

#[test]
fn integrate_smooths_translation_and_rotation_apart() {
    let current = RigidTransform::new(Vec3::new(0, 0, 0), 0);
    let target = RigidTransform::new(Vec3::new(1_000_000, 0, 0), 5);
    let next = integrate(&current, &target, 16_000);
    assert_eq!(next, RigidTransform::new(Vec3::new(160_000, 0, 0), 5));
}

#[test]
fn transform_at_rest_stays_for_any_number_of_frames() {
    let at = RigidTransform::new(Vec3::new(-20_000_000, 20_000_000, 7), -785_398);
    let mut live = at;
    for elapsed in [0u64, 1, 16_000, 100_000, 250_000, u64::MAX] {
        live = integrate(&live, &at, elapsed);
        assert_eq!(live, at);
    }
}

#[test]
fn smoothing_arrives_and_stays() {
    let target = RigidTransform::new(Vec3::new(1_000_000, 0, 0), 1_000);
    let mut live = RigidTransform::identity();
    let mut frames = 0;
    while live != target {
        live = integrate(&live, &target, 16_000);
        frames += 1;
        assert!(frames < 200);
    }
    assert_eq!(integrate(&live, &target, 16_000), target);
}

#[test]
fn a_frame_of_thirty_five_microseconds_moves_whatever_is_beyond_the_threshold() {
    let current = Vec3::zero();
    let target = Vec3::new(2_887, 2_887, 2_887);
    assert!(current.is_apart(target));
    assert_eq!(smooth_translation(current, target, 34), current);
    assert_eq!(smooth_translation(current, target, 35), Vec3::new(1, 1, 1));
}

#[test]
fn a_short_frame_brings_the_translation_closer() {
    let current = Vec3::new(1_000_000, -500_000, 250_000);
    let target = Vec3::new(-3_000_000, 0, 0);
    let next = smooth_translation(current, target, 16_667);
    assert_eq!(next, Vec3::new(333_320, -416_665, 208_333));
    let squared = |a: Vec3, b: Vec3| {
        let d = a.minus(b);
        (d.x as i128).pow(2) + (d.y as i128).pow(2) + (d.z as i128).pow(2)
    };
    assert!(squared(next, target) < squared(current, target));
}
