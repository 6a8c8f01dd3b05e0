use bevy_4x_camera::board::{board, building_lines, MovingCar, BOARD_REACH, STREET_SPACING};
use bevy_4x_camera::Vec3;

#[test]
fn building_lines_leave_out_every_fourth_line() {
    let lines = building_lines();
    let expected: Vec<i32> =
        (-BOARD_REACH..=BOARD_REACH).filter(|line| line % STREET_SPACING != 0).collect();
    assert_eq!(lines, expected);
    assert_eq!(lines.len(), 38);
    assert_eq!(&lines[..5], &[-25, -23, -22, -21, -19]);
    assert_eq!(lines[37], 25);
}

#[test]
fn the_board_has_a_building_on_every_crossing() {
    let lots = board(4, 5);
    let lines = building_lines();
    assert_eq!(lots.len(), 38 * 38);
    for (i, x) in lines.iter().enumerate() {
        for (j, z) in lines.iter().enumerate() {
            let lot = lots[i * 38 + j];
            assert_eq!((lot.x, lot.z), (*x, *z));
        }
    }
    assert_eq!((lots[0].x, lots[0].z), (-25, -25));
    assert_eq!((lots[37].x, lots[37].z), (-25, 25));
    assert_eq!((lots[38].x, lots[38].z), (-23, -25));
}

#[test]
fn meshes_and_materials_are_drawn_from_what_there_is() {
    let lots = board(4, 5);
    assert!(lots.iter().all(|lot| lot.mesh < 4 && lot.material < 5));
    let lots = board(1, 1);
    assert!(lots.iter().all(|lot| lot.mesh == 0 && lot.material == 0));
}

#[test]
fn every_mesh_is_drawn_sometimes() {
    let lots = board(4, 5);
    for mesh in 0..4 {
        assert!(lots.iter().any(|lot| lot.mesh == mesh));
    }
    for material in 0..5 {
        assert!(lots.iter().any(|lot| lot.material == material));
    }
}

#[test]
fn the_car_drives_along_its_direction() {
    let mut car = MovingCar { direction: Vec3::new(1_000_000, 0, 0), speed: 1_000_000 };
    let mut place = Vec3::new(0, 250_000, 0);
    car.advance(&mut place, 500_000);
    assert_eq!(place, Vec3::new(500_000, 250_000, 0));
    assert_eq!(car.direction, Vec3::new(1_000_000, 0, 0));
    car.advance(&mut place, 16_000);
    assert_eq!(place, Vec3::new(516_000, 250_000, 0));
}

#[test]
fn the_car_turns_back_beyond_its_range() {
    let mut car = MovingCar { direction: Vec3::new(1_000_000, 0, 0), speed: 1_000_000 };
    let mut place = Vec3::new(24_500_000, 0, 0);
    car.advance(&mut place, 500_000);
    assert_eq!(car.direction, Vec3::new(-1_000_000, 0, 0));
    assert_eq!(place, Vec3::new(24_000_000, 0, 0));
    car.advance(&mut place, 500_000);
    assert_eq!(car.direction, Vec3::new(-1_000_000, 0, 0));
    assert_eq!(place, Vec3::new(23_500_000, 0, 0));
    let mut place = Vec3::new(-24_000_001, 0, 0);
    car.advance(&mut place, 1_000_000);
    assert_eq!(car.direction, Vec3::new(1_000_000, 0, 0));
    assert_eq!(place, Vec3::new(-23_000_001, 0, 0));
}
