//! The mutable simulation aggregate: the live-set, pause and running flags,
//! timing accumulators, and the camera parameters, together with the
//! per-cell queries of Conway's rule.
//!
//! Spatial fields are in subpixels (1000 to a pixel), times in milliseconds,
//! as in `crate::config`.

use vstd::prelude::*;

use crate::automaton::{live_neighbor_count, should_live, spec_should_live, neighbor_count};
use crate::config::{ACCELERATION_LIMIT, CAMERA_LIMIT, CELL_SIZE_LIMIT, Config, VELOCITY_LIMIT};
use crate::coord::Coord;
use crate::live_set::LiveSet;
use crate::scheduler::STEP_LIMIT;

verus! {

/// The largest value the user-adjustable cell-update interval can reach.
pub const INTERVAL_LIMIT: u64 = 10_000;

/// Slowing down stops once the interval reaches this many milliseconds.
pub const SLOWEST_INTERVAL: u64 = 5_000;

pub const INITIAL_CAMERA_X: i64 = 390_000;

pub const INITIAL_CAMERA_Y: i64 = 390_000;

pub const INITIAL_CELL_UPDATE_INTERVAL: u64 = 20;

pub const INITIAL_CELL_WIDTH: i64 = 1_000;

pub const INITIAL_CELL_HEIGHT: i64 = 1_000;

/// Everything the simulation mutates from tick to tick.
pub struct State {
    /// The live cells of the current generation.
    pub cell_coords: LiveSet,
    /// How much simulated time must pass between automaton steps, in ms.
    pub cell_update_interval: u64,
    /// Simulated time accumulated toward the next automaton step, in ms.
    pub t_since_last_cell_update: u64,
    /// Cursor position on screen, in pixels.
    pub cursor_x: i32,
    /// Cursor position on screen, in pixels.
    pub cursor_y: i32,
    /// Cleared by external input to end the outer loop.
    pub running: bool,
    /// While set, automaton steps are skipped entirely.
    pub paused: bool,
    /// Camera pan offset, x axis, in subpixels.
    pub camera_x: i64,
    /// Camera pan offset, y axis, in subpixels.
    pub camera_y: i64,
    /// Pan input intent on the x axis: -1, 0 or +1.
    pub camera_x_i: i64,
    /// Pan input intent on the y axis: -1, 0 or +1.
    pub camera_y_i: i64,
    /// Zoom input intent: -1, 0 or +1.
    pub camera_z_i: i64,
    /// Pan velocity, x axis, in subpixels per tick.
    pub camera_x_velocity: i64,
    /// Pan velocity, y axis, in subpixels per tick.
    pub camera_y_velocity: i64,
    /// Zoom velocity, in subpixels per tick.
    pub camera_z_velocity: i64,
    /// Pan acceleration, x axis, in subpixels per tick squared.
    pub camera_x_acceleration: i64,
    /// Pan acceleration, y axis, in subpixels per tick squared.
    pub camera_y_acceleration: i64,
    /// Zoom acceleration, in subpixels per tick squared.
    pub camera_z_acceleration: i64,
    /// Width of one cell on screen (the zoom level), in subpixels.
    pub cell_width: i64,
    /// Height of one cell on screen (the zoom level), in subpixels.
    pub cell_height: i64,
    /// Simulated time advanced so far, in ms.
    pub t: u64,
    /// The frame rate most recently sampled by the outer loop.
    pub fps: u32,
}

/// The mathematical shadow of the fields a simulation tick reads or writes.
pub struct StateModel {
    pub cells: Set<Coord>,
    pub cell_update_interval: int,
    pub t_since_last_cell_update: int,
    pub paused: bool,
    pub camera_x: int,
    pub camera_y: int,
    pub camera_x_i: int,
    pub camera_y_i: int,
    pub camera_z_i: int,
    pub camera_x_velocity: int,
    pub camera_y_velocity: int,
    pub camera_z_velocity: int,
    pub camera_x_acceleration: int,
    pub camera_y_acceleration: int,
    pub camera_z_acceleration: int,
    pub cell_width: int,
    pub cell_height: int,
    pub t: int,
}

impl State {
    /// The model of the current state.
    pub open spec fn model(&self) -> StateModel {
        StateModel {
            cells: self.cell_coords@,
            cell_update_interval: self.cell_update_interval as int,
            t_since_last_cell_update: self.t_since_last_cell_update as int,
            paused: self.paused,
            camera_x: self.camera_x as int,
            camera_y: self.camera_y as int,
            camera_x_i: self.camera_x_i as int,
            camera_y_i: self.camera_y_i as int,
            camera_z_i: self.camera_z_i as int,
            camera_x_velocity: self.camera_x_velocity as int,
            camera_y_velocity: self.camera_y_velocity as int,
            camera_z_velocity: self.camera_z_velocity as int,
            camera_x_acceleration: self.camera_x_acceleration as int,
            camera_y_acceleration: self.camera_y_acceleration as int,
            camera_z_acceleration: self.camera_z_acceleration as int,
            cell_width: self.cell_width as int,
            cell_height: self.cell_height as int,
            t: self.t as int,
        }
    }

    /// The ranges every reachable state stays within: intents are signum
    /// values, accelerations and velocities are nonnegative and capped, the
    /// cell size is positive and bounded, the camera position is bounded,
    /// and the timing counters are bounded. These are what the integer
    /// arithmetic of the tick functions is proved against.
    pub open spec fn wf(&self) -> bool {
        &&& -1 <= self.camera_x_i <= 1
        &&& -1 <= self.camera_y_i <= 1
        &&& -1 <= self.camera_z_i <= 1
        &&& 0 <= self.camera_x_acceleration <= ACCELERATION_LIMIT
        &&& 0 <= self.camera_y_acceleration <= ACCELERATION_LIMIT
        &&& 0 <= self.camera_z_acceleration <= ACCELERATION_LIMIT
        &&& 0 <= self.camera_x_velocity <= VELOCITY_LIMIT
        &&& 0 <= self.camera_y_velocity <= VELOCITY_LIMIT
        &&& 0 <= self.camera_z_velocity <= VELOCITY_LIMIT
        &&& -CAMERA_LIMIT <= self.camera_x <= CAMERA_LIMIT
        &&& -CAMERA_LIMIT <= self.camera_y <= CAMERA_LIMIT
        &&& 1 <= self.cell_width <= CELL_SIZE_LIMIT
        &&& 1 <= self.cell_height <= CELL_SIZE_LIMIT
        &&& 1 <= self.cell_update_interval <= INTERVAL_LIMIT
        &&& self.t_since_last_cell_update <= INTERVAL_LIMIT + STEP_LIMIT
    }

    /// The startup state: an empty world, running and unpaused, the camera
    /// at its initial offset and the zoom at one pixel per cell.
    pub fn new() -> (s: State)
        ensures
            s == (State {
                cell_coords: s.cell_coords,
                cell_update_interval: INITIAL_CELL_UPDATE_INTERVAL,
                t_since_last_cell_update: 0,
                cursor_x: 0,
                cursor_y: 0,
                running: true,
                paused: false,
                camera_x: INITIAL_CAMERA_X,
                camera_y: INITIAL_CAMERA_Y,
                camera_x_i: 0,
                camera_y_i: 0,
                camera_z_i: 0,
                camera_x_velocity: 0,
                camera_y_velocity: 0,
                camera_z_velocity: 0,
                camera_x_acceleration: 0,
                camera_y_acceleration: 0,
                camera_z_acceleration: 0,
                cell_width: INITIAL_CELL_WIDTH,
                cell_height: INITIAL_CELL_HEIGHT,
                t: 0,
                fps: 0,
            }),
            s.cell_coords@ == Set::<Coord>::empty(),
            s.wf(),
    {
        State {
            cell_coords: LiveSet::new(),
            cell_update_interval: INITIAL_CELL_UPDATE_INTERVAL,
            t_since_last_cell_update: 0,
            cursor_x: 0,
            cursor_y: 0,
            running: true,
            paused: false,
            camera_x: INITIAL_CAMERA_X,
            camera_y: INITIAL_CAMERA_Y,
            camera_x_i: 0,
            camera_y_i: 0,
            camera_z_i: 0,
            camera_x_velocity: 0,
            camera_y_velocity: 0,
            camera_z_velocity: 0,
            camera_x_acceleration: 0,
            camera_y_acceleration: 0,
            camera_z_acceleration: 0,
            cell_width: INITIAL_CELL_WIDTH,
            cell_height: INITIAL_CELL_HEIGHT,
            t: 0,
            fps: 0,
        }
    }

    /// Clears the world: every cell becomes dead.
    pub fn reset_cell_coords(&mut self)
        ensures
            *final(self) == (State { cell_coords: final(self).cell_coords, ..*old(self) }),
            final(self).cell_coords@ == Set::<Coord>::empty(),
    {
        self.cell_coords = LiveSet::new();
    }

    /// Puts the camera back at its initial offset and zoom.
    pub fn reset_camera(&mut self)
        ensures
            *final(self) == (State {
                camera_x: INITIAL_CAMERA_X,
                camera_y: INITIAL_CAMERA_Y,
                cell_width: INITIAL_CELL_WIDTH,
                cell_height: INITIAL_CELL_HEIGHT,
                ..*old(self)
            }),
    {
        self.camera_x = INITIAL_CAMERA_X;
        self.camera_y = INITIAL_CAMERA_Y;
        self.cell_width = INITIAL_CELL_WIDTH;
        self.cell_height = INITIAL_CELL_HEIGHT;
    }

    /// Is the cell at `coord` alive in the current generation?
    pub fn is_live(&self, coord: &Coord) -> (r: bool)
        ensures
            r == self.cell_coords@.contains(*coord),
    {
        self.cell_coords.contains(coord)
    }

    /// Will the cell at `coord` be alive in the next generation?
    pub fn should_live(&self, coord: &Coord) -> (r: bool)
        ensures
            r == spec_should_live(self.cell_coords@, *coord),
    {
        should_live(&self.cell_coords, coord)
    }

    /// How many of the eight Moore neighbors of `coord` are alive.
    pub fn neighbor_count(&self, coord: &Coord) -> (n: u8)
        ensures
            n as int == live_neighbor_count(self.cell_coords@, *coord),
    {
        neighbor_count(&self.cell_coords, coord)
    }

    /// Flips the cell under a hit-test click: a live cell dies, a dead cell
    /// is born.
    pub fn toggle_cell(&mut self, coord: Coord)
        ensures
            *final(self) == (State { cell_coords: final(self).cell_coords, ..*old(self) }),
            final(self).cell_coords@ == (if old(self).cell_coords@.contains(coord) {
                old(self).cell_coords@.remove(coord)
            } else {
                old(self).cell_coords@.insert(coord)
            }),
    {
        if self.cell_coords.contains(&coord) {
            self.cell_coords.remove(coord);
        } else {
            self.cell_coords.insert(coord);
        }
    }

    /// Runs the automaton twice as often, unless the interval is already at
    /// or below one fixed step.
    pub fn halve_cell_update_interval(&mut self, config: &Config)
        ensures
            *final(self) == (State {
                cell_update_interval: final(self).cell_update_interval,
                ..*old(self)
            }),
            final(self).cell_update_interval == (if old(self).cell_update_interval > config.dt {
                old(self).cell_update_interval / 2
            } else {
                old(self).cell_update_interval
            }),
    {
        if self.cell_update_interval > config.dt {
            self.cell_update_interval = self.cell_update_interval / 2;
        }
    }

    /// Runs the automaton half as often, unless the interval has already
    /// reached the slowest setting.
    pub fn double_cell_update_interval(&mut self)
        ensures
            *final(self) == (State {
                cell_update_interval: final(self).cell_update_interval,
                ..*old(self)
            }),
            final(self).cell_update_interval == (if old(self).cell_update_interval
                < SLOWEST_INTERVAL {
                old(self).cell_update_interval * 2
            } else {
                old(self).cell_update_interval as int
            }),
    {
        if self.cell_update_interval < SLOWEST_INTERVAL {
            self.cell_update_interval = self.cell_update_interval * 2;
        }
    }
}

} // verus!
