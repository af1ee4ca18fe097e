use game_of_rust::config::Config;
use game_of_rust::coord::Coord;
use game_of_rust::state::State;
use game_of_rust::state_mgmt::update_camera;
use game_of_rust::utils::{floor_div, game_coord, world_to_screen};

#[test]
fn floor_div_rounds_toward_negative_infinity() {
    assert_eq!(floor_div(7, 2), 3);
    assert_eq!(floor_div(-7, 2), -4);
    assert_eq!(floor_div(-8, 2), -4);
    assert_eq!(floor_div(0, 5), 0);
    assert_eq!(floor_div(-1, 1000), -1);
    assert_eq!(floor_div(999, 1000), 0);
}

#[test]
fn game_coord_floors_the_screen_position() {
    let mut state = State::new();
    state.camera_x = 0;
    state.camera_y = 0;
    state.cell_width = 1_000;
    state.cell_height = 1_000;
    assert_eq!(game_coord(0, 0, &state), Coord::new(0, 0));
    assert_eq!(game_coord(999, 999, &state), Coord::new(0, 0));
    assert_eq!(game_coord(1_000, 0, &state), Coord::new(1, 0));
    // A point left of the origin must land on cell -1, not cell 0: the
    // transform floors instead of truncating toward zero.
    assert_eq!(game_coord(-1, 0, &state), Coord::new(-1, 0));
    assert_eq!(game_coord(-1_500, -2_001, &state), Coord::new(-2, -3));
}

#[test]
fn game_coord_honors_camera_offset() {
    let state = State::new();
    // The initial camera offset is 390 pixels on each axis at 1 pixel per
    // cell, so the screen origin sits over cell (390, 390).
    assert_eq!(game_coord(0, 0, &state), Coord::new(390, 390));
}

#[test]
fn world_to_screen_inverts_up_to_one_cell() {
    let mut state = State::new();
    state.camera_x = 123_456;
    state.camera_y = -78_000;
    state.cell_width = 2_500;
    state.cell_height = 2_500;
    for &(x, y) in &[(0i64, 0i64), (799_999, 599_999), (-5, -5), (40_000, 1)] {
        let c = game_coord(x, y, &state);
        let (sx, sy) = world_to_screen(&c, &state);
        assert!(sx <= x && x - sx < state.cell_width, "x: {} vs {}", sx, x);
        assert!(sy <= y && y - sy < state.cell_height, "y: {} vs {}", sy, y);
    }
}

#[test]
fn pan_intent_accelerates_and_moves_the_camera() {
    let config = Config::new();
    let mut state = State::new();
    state.camera_x_i = 1;
    let x0 = state.camera_x;
    update_camera(&mut state, &config);
    // One tick: acceleration 100, velocity 100, position moved by 100; the
    // cell size is unchanged so re-centering adds nothing.
    assert_eq!(state.camera_x_acceleration, 100);
    assert_eq!(state.camera_x_velocity, 100);
    assert_eq!(state.camera_x, x0 + 100);
    update_camera(&mut state, &config);
    assert_eq!(state.camera_x_acceleration, 200);
    assert_eq!(state.camera_x_velocity, 300);
    assert_eq!(state.camera_x, x0 + 400);
}

#[test]
fn pan_without_intent_decays_to_rest() {
    let config = Config::new();
    let mut state = State::new();
    state.camera_y_i = -1;
    update_camera(&mut state, &config);
    assert!(state.camera_y_velocity > 0);
    state.camera_y_i = 0;
    let pos = state.camera_y;
    update_camera(&mut state, &config);
    assert_eq!(state.camera_y_acceleration, 0);
    assert_eq!(state.camera_y_velocity, 0);
    assert_eq!(state.camera_y, pos);
}

#[test]
fn pan_velocity_saturates_at_its_cap() {
    let config = Config::new();
    let mut state = State::new();
    state.camera_x_i = 1;
    for _ in 0..600 {
        update_camera(&mut state, &config);
    }
    assert_eq!(state.camera_x_velocity, config.camera_xy_velocity_max);
    assert_eq!(state.camera_x_acceleration, config.camera_xy_acceleration_max);
}

#[test]
fn zoom_clamps_cell_size_to_configured_bounds() {
    let config = Config::new();
    let mut state = State::new();
    state.camera_z_i = -1;
    update_camera(&mut state, &config);
    // Already at the minimum cell size: zooming out cannot shrink further.
    assert_eq!(state.cell_width, config.min_cell_width);
    assert_eq!(state.cell_height, config.min_cell_height);
    state.camera_z_i = 1;
    for _ in 0..5_000 {
        update_camera(&mut state, &config);
    }
    assert_eq!(state.cell_width, config.max_cell_width);
    assert_eq!(state.cell_height, config.max_cell_height);
}

#[test]
fn zoom_recenters_on_the_viewport_center() {
    // One zoom tick that doubles the cell size from 1000 to 2000 subpixels,
    // with the camera at 1000 and a 10000-subpixel window:
    // correction = (1000/1000 - 1000/2000 + (10000/1000 - 10000/2000)/2)
    //            = (1 - 0 + 2) = 3, so the position becomes
    // 1000 + 3 * 2000 = 7000.
    let mut config = Config::new();
    config.window_width = 10_000;
    config.window_height = 10_000;
    config.min_cell_width = 1_000;
    config.min_cell_height = 1_000;
    config.max_cell_width = 2_000;
    config.max_cell_height = 2_000;
    config.camera_z_acceleration = 1_000;
    config.camera_z_acceleration_max = 1_000;
    config.camera_z_velocity_max = 1_000;
    let mut state = State::new();
    state.camera_x = 1_000;
    state.camera_y = 1_000;
    state.camera_z_i = 1;
    update_camera(&mut state, &config);
    assert_eq!(state.cell_width, 2_000);
    assert_eq!(state.camera_x, 7_000);
    assert_eq!(state.camera_y, 7_000);
}
