use game_of_rust::config::Config;
use game_of_rust::coord::Coord;
use game_of_rust::scheduler::Scheduler;
use game_of_rust::state::State;
use game_of_rust::state_mgmt::{run_frame, seed_cells, update, update_camera, update_fps};

fn insert_blinker(state: &mut State) {
    state.cell_coords.insert(Coord::new(0, 0));
    state.cell_coords.insert(Coord::new(1, 0));
    state.cell_coords.insert(Coord::new(2, 0));
}

#[test]
fn new_state_defaults() {
    let s = State::new();
    assert_eq!(s.cell_coords.len(), 0);
    assert_eq!(s.cell_update_interval, 20);
    assert_eq!(s.t_since_last_cell_update, 0);
    assert!(s.running);
    assert!(!s.paused);
    assert_eq!(s.camera_x, 390_000);
    assert_eq!(s.camera_y, 390_000);
    assert_eq!(s.cell_width, 1_000);
    assert_eq!(s.cell_height, 1_000);
    assert_eq!(s.t, 0);
    assert_eq!(s.fps, 0);
}

#[test]
fn new_config_defaults() {
    let c = Config::new();
    assert_eq!(c.window_width, 800_000);
    assert_eq!(c.window_height, 600_000);
    assert_eq!(c.dt, 16);
    assert_eq!(c.min_cell_width, 1_000);
    assert_eq!(c.max_cell_width, 100_000);
    assert_eq!(c.camera_xy_velocity_max, 50_000);
}

#[test]
fn reset_cell_coords_clears_the_world() {
    let mut s = State::new();
    insert_blinker(&mut s);
    s.reset_cell_coords();
    assert_eq!(s.cell_coords.len(), 0);
}

#[test]
fn reset_camera_restores_initial_view() {
    let mut s = State::new();
    s.camera_x = -5;
    s.camera_y = 7;
    s.cell_width = 2_000;
    s.cell_height = 3_000;
    s.reset_camera();
    assert_eq!(s.camera_x, 390_000);
    assert_eq!(s.camera_y, 390_000);
    assert_eq!(s.cell_width, 1_000);
    assert_eq!(s.cell_height, 1_000);
}

#[test]
fn is_live_and_neighbor_count_agree_with_the_world() {
    let mut s = State::new();
    insert_blinker(&mut s);
    assert!(s.is_live(&Coord::new(1, 0)));
    assert!(!s.is_live(&Coord::new(1, 1)));
    assert_eq!(s.neighbor_count(&Coord::new(1, 0)), 2);
    assert_eq!(s.neighbor_count(&Coord::new(1, 1)), 3);
    assert_eq!(s.neighbor_count(&Coord::new(9, 9)), 0);
    assert!(s.should_live(&Coord::new(1, 0)));
    assert!(s.should_live(&Coord::new(1, 1)));
    assert!(!s.should_live(&Coord::new(0, 0)));
}

#[test]
fn toggle_cell_flips_membership() {
    let mut s = State::new();
    s.toggle_cell(Coord::new(4, 4));
    assert!(s.is_live(&Coord::new(4, 4)));
    s.toggle_cell(Coord::new(4, 4));
    assert!(!s.is_live(&Coord::new(4, 4)));
}

#[test]
fn interval_halves_only_above_the_fixed_step() {
    let config = Config::new();
    let mut s = State::new();
    assert_eq!(s.cell_update_interval, 20);
    s.halve_cell_update_interval(&config);
    assert_eq!(s.cell_update_interval, 10);
    // 10 ms is not above the 16 ms step, so halving stops here.
    s.halve_cell_update_interval(&config);
    assert_eq!(s.cell_update_interval, 10);
}

#[test]
fn interval_doubles_up_to_the_slowest_setting() {
    let mut s = State::new();
    s.cell_update_interval = 4_000;
    s.double_cell_update_interval();
    assert_eq!(s.cell_update_interval, 8_000);
    s.double_cell_update_interval();
    assert_eq!(s.cell_update_interval, 8_000);
}

#[test]
fn update_waits_for_the_cell_interval() {
    let config = Config::new();
    let mut s = State::new();
    insert_blinker(&mut s);
    // dt 16 against interval 20: the countdown reads 0, then 16, then 32;
    // the automaton fires on the third tick and gives the interval back.
    update(&mut s, &config);
    assert_eq!(s.t_since_last_cell_update, 16);
    assert!(s.is_live(&Coord::new(0, 0)));
    update(&mut s, &config);
    assert_eq!(s.t_since_last_cell_update, 32);
    assert!(s.is_live(&Coord::new(0, 0)));
    update(&mut s, &config);
    assert_eq!(s.t_since_last_cell_update, 12);
    assert!(!s.is_live(&Coord::new(0, 0)));
    assert!(s.is_live(&Coord::new(1, 1)));
    assert!(s.is_live(&Coord::new(1, -1)));
}

#[test]
fn paused_updates_change_nothing() {
    let config = Config::new();
    let mut s = State::new();
    insert_blinker(&mut s);
    s.paused = true;
    for _ in 0..50 {
        update(&mut s, &config);
    }
    assert_eq!(s.t_since_last_cell_update, 0);
    assert!(s.is_live(&Coord::new(0, 0)));
    assert!(s.is_live(&Coord::new(1, 0)));
    assert!(s.is_live(&Coord::new(2, 0)));
    assert_eq!(s.cell_coords.len(), 3);
}

#[test]
fn paused_frames_still_move_the_camera() {
    let config = Config::new();
    let mut s = State::new();
    insert_blinker(&mut s);
    s.paused = true;
    s.camera_x_i = 1;
    let mut sched = Scheduler::new();
    let ticks = run_frame(&mut s, &mut sched, &config, 160);
    assert_eq!(ticks, 10);
    assert_eq!(s.cell_coords.len(), 3);
    assert!(s.camera_x > 390_000);
}

#[test]
fn run_frame_counts_ticks_deterministically() {
    let config = Config::new();
    let mut a = State::new();
    let mut sched_a = Scheduler::new();
    let mut fired_a = 0;
    for _ in 0..10 {
        fired_a += run_frame(&mut a, &mut sched_a, &config, 10);
    }
    let mut b = State::new();
    let mut sched_b = Scheduler::new();
    let fired_b = run_frame(&mut b, &mut sched_b, &config, 100);
    assert_eq!(fired_a, fired_b);
    assert_eq!(fired_b, 6);
    assert_eq!(sched_a.accumulator, sched_b.accumulator);
    assert_eq!(a.t, b.t);
}

#[test]
fn run_frame_advances_the_clock_per_tick() {
    let config = Config::new();
    let mut s = State::new();
    let mut sched = Scheduler::new();
    let ticks = run_frame(&mut s, &mut sched, &config, 100);
    assert_eq!(ticks, 6);
    assert_eq!(s.t, 96);
    assert_eq!(sched.accumulator, 4);
}

#[test]
fn run_frame_steps_the_blinker_through_the_gate() {
    let config = Config::new();
    let mut s = State::new();
    insert_blinker(&mut s);
    let mut sched = Scheduler::new();
    // Three ticks: the automaton fires once, on the third.
    run_frame(&mut s, &mut sched, &config, 48);
    assert!(s.is_live(&Coord::new(1, 1)));
    assert!(!s.is_live(&Coord::new(0, 0)));
}

#[test]
fn update_fps_keeps_the_old_sample_without_a_new_one() {
    let mut s = State::new();
    update_fps(&mut s, Some(60));
    assert_eq!(s.fps, 60);
    update_fps(&mut s, None);
    assert_eq!(s.fps, 60);
}

#[test]
fn seed_cells_pairs_from_the_end_of_the_list() {
    let mut s = State::new();
    seed_cells(&mut s, vec![1, 2, 3, 4, 5]);
    // Pairs are drawn from the end, x before y; the leftover 1 names none.
    assert_eq!(s.cell_coords.len(), 2);
    assert!(s.is_live(&Coord::new(5, 4)));
    assert!(s.is_live(&Coord::new(3, 2)));
    assert!(!s.is_live(&Coord::new(1, 2)));
}
