//! The immutable configuration snapshot: window dimensions, the fixed
//! simulation step, cell-size (zoom) bounds, and camera motion caps.
//!
//! All spatial quantities are integers in subpixels, with 1000 subpixels to
//! one screen pixel, so that camera positions keep sub-cell precision without
//! fractional arithmetic; times are in milliseconds.

use vstd::prelude::*;

use crate::scheduler::STEP_LIMIT;

verus! {

/// The largest window dimension a well-formed configuration may carry.
pub const WINDOW_LIMIT: i64 = 0x1_0000_0000;

/// The largest cell size (zoom) bound a well-formed configuration may carry.
pub const CELL_SIZE_LIMIT: i64 = 0x10_0000;

/// The largest camera acceleration cap a well-formed configuration may carry.
pub const ACCELERATION_LIMIT: i64 = 0x100_0000;

/// The largest camera velocity cap a well-formed configuration may carry.
pub const VELOCITY_LIMIT: i64 = 0x100_0000;

/// The range the camera position is kept within on each axis.
pub const CAMERA_LIMIT: i64 = 0x100_0000_0000;

const WINDOW_WIDTH: i64 = 800_000;

const WINDOW_HEIGHT: i64 = 600_000;

const MS_PER_UPDATE: u64 = 16;

const MIN_CELL_WIDTH: i64 = 1_000;

const MIN_CELL_HEIGHT: i64 = 1_000;

const MAX_CELL_WIDTH: i64 = 100_000;

const MAX_CELL_HEIGHT: i64 = 100_000;

const CAMERA_XY_ACCELERATION: i64 = 100;

const CAMERA_XY_ACCELERATION_MAX: i64 = 1_000;

const CAMERA_XY_VELOCITY_MAX: i64 = 50_000;

const CAMERA_Z_ACCELERATION: i64 = 10;

const CAMERA_Z_ACCELERATION_MAX: i64 = 10;

const CAMERA_Z_VELOCITY_MAX: i64 = 50;

/// The tunables the simulation core reads. Loaded once at startup and
/// treated as immutable thereafter.
pub struct Config {
    /// Window width in subpixels, for the viewport-centering math.
    pub window_width: i64,
    /// Window height in subpixels, for the viewport-centering math.
    pub window_height: i64,
    /// The fixed simulation step, in milliseconds.
    pub dt: u64,
    /// Smallest cell width (zoom floor), in subpixels.
    pub min_cell_width: i64,
    /// Smallest cell height (zoom floor), in subpixels.
    pub min_cell_height: i64,
    /// Largest cell width (zoom ceiling), in subpixels.
    pub max_cell_width: i64,
    /// Largest cell height (zoom ceiling), in subpixels.
    pub max_cell_height: i64,
    /// Pan acceleration applied per tick while input intent is active.
    pub camera_xy_acceleration: i64,
    /// Cap on pan acceleration.
    pub camera_xy_acceleration_max: i64,
    /// Cap on pan velocity.
    pub camera_xy_velocity_max: i64,
    /// Zoom acceleration applied per tick while input intent is active.
    pub camera_z_acceleration: i64,
    /// Cap on zoom acceleration.
    pub camera_z_acceleration_max: i64,
    /// Cap on zoom velocity.
    pub camera_z_velocity_max: i64,
}

impl Config {
    /// A configuration the core can run on: a positive fixed step, ordered
    /// positive cell-size bounds, and nonnegative capped camera parameters,
    /// all within the ranges the integer camera arithmetic is proved for.
    pub open spec fn wf(&self) -> bool {
        &&& 1 <= self.dt <= STEP_LIMIT
        &&& 0 <= self.window_width <= WINDOW_LIMIT
        &&& 0 <= self.window_height <= WINDOW_LIMIT
        &&& 1 <= self.min_cell_width <= self.max_cell_width <= CELL_SIZE_LIMIT
        &&& 1 <= self.min_cell_height <= self.max_cell_height <= CELL_SIZE_LIMIT
        &&& 0 <= self.camera_xy_acceleration <= ACCELERATION_LIMIT
        &&& 0 <= self.camera_xy_acceleration_max <= ACCELERATION_LIMIT
        &&& 0 <= self.camera_xy_velocity_max <= VELOCITY_LIMIT
        &&& 0 <= self.camera_z_acceleration <= ACCELERATION_LIMIT
        &&& 0 <= self.camera_z_acceleration_max <= ACCELERATION_LIMIT
        &&& 0 <= self.camera_z_velocity_max <= VELOCITY_LIMIT
    }

    /// The default tunables: an 800x600 pixel window, a 16 ms fixed step,
    /// cell sizes between 1 and 100 pixels, and the stock camera caps.
    pub fn new() -> (c: Config)
        ensures
            c == (Config {
                window_width: 800_000,
                window_height: 600_000,
                dt: 16,
                min_cell_width: 1_000,
                min_cell_height: 1_000,
                max_cell_width: 100_000,
                max_cell_height: 100_000,
                camera_xy_acceleration: 100,
                camera_xy_acceleration_max: 1_000,
                camera_xy_velocity_max: 50_000,
                camera_z_acceleration: 10,
                camera_z_acceleration_max: 10,
                camera_z_velocity_max: 50,
            }),
            c.wf(),
    {
        Config {
            window_width: WINDOW_WIDTH,
            window_height: WINDOW_HEIGHT,
            dt: MS_PER_UPDATE,
            min_cell_width: MIN_CELL_WIDTH,
            min_cell_height: MIN_CELL_HEIGHT,
            max_cell_width: MAX_CELL_WIDTH,
            max_cell_height: MAX_CELL_HEIGHT,
            camera_xy_acceleration: CAMERA_XY_ACCELERATION,
            camera_xy_acceleration_max: CAMERA_XY_ACCELERATION_MAX,
            camera_xy_velocity_max: CAMERA_XY_VELOCITY_MAX,
            camera_z_acceleration: CAMERA_Z_ACCELERATION,
            camera_z_acceleration_max: CAMERA_Z_ACCELERATION_MAX,
            camera_z_velocity_max: CAMERA_Z_VELOCITY_MAX,
        }
    }
}

} // verus!
