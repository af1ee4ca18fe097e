//! The per-tick state transitions: gating the automaton step behind the
//! cell-update interval, integrating camera pan and zoom with re-centering,
//! and draining a frame's wall-clock delta into fixed-size ticks.
//!
//! Every transition is specified against `StateModel`, the mathematical
//! shadow of the state, so that a whole frame is pinned down as an iterated
//! function of the starting model.

use vstd::prelude::*;
use vstd::arithmetic::div_mod::{lemma_fundamental_div_mod, lemma_fundamental_div_mod_converse};
use vstd::math::min;

use crate::automaton::{spec_step, step};
use crate::config::{CAMERA_LIMIT, Config};
use crate::coord::Coord;
use crate::scheduler::{ACCUMULATOR_LIMIT, DELTA_LIMIT, Scheduler, spec_residue, spec_ticks};
use crate::state::{State, StateModel};
use crate::utils::floor_div;

verus! {

/// The live-set after one tick: unchanged while paused or while the
/// cell-update interval has not yet elapsed, the next generation otherwise.
pub open spec fn next_cells(m: StateModel) -> Set<Coord> {
    if m.paused || m.t_since_last_cell_update < m.cell_update_interval {
        m.cells
    } else {
        spec_step(m.cells)
    }
}

/// The cell-update countdown after one tick: frozen while paused; otherwise
/// it accumulates one fixed step until the interval has elapsed, and when
/// the automaton fires it gives the interval back — not resetting to zero,
/// so overshoot carries forward and the cadence does not drift.
pub open spec fn next_t_since(m: StateModel, dt: int) -> int {
    if m.paused {
        m.t_since_last_cell_update
    } else if m.t_since_last_cell_update < m.cell_update_interval {
        m.t_since_last_cell_update + dt
    } else {
        m.t_since_last_cell_update - m.cell_update_interval
    }
}

/// The automaton part of one tick.
pub open spec fn spec_update_cells(m: StateModel, dt: int) -> StateModel {
    StateModel {
        cells: next_cells(m),
        t_since_last_cell_update: next_t_since(m, dt),
        ..m
    }
}

/// Clamps `v` into `[lo, hi]`.
pub open spec fn clamp(v: int, lo: int, hi: int) -> int {
    if v < lo {
        lo
    } else if v > hi {
        hi
    } else {
        v
    }
}

/// One axis of acceleration integration: while input intent is active the
/// acceleration grows by `a` up to the cap `amax`; without intent it decays
/// immediately to zero.
pub open spec fn accel_step(intent: int, accel: int, a: int, amax: int) -> int {
    if intent != 0 {
        if accel < amax {
            min(accel + a, amax)
        } else {
            accel
        }
    } else {
        0
    }
}

/// One axis of pan velocity integration: while input intent is active the
/// velocity grows by the new acceleration up to the cap `vmax`; without
/// intent it decays immediately to zero.
pub open spec fn velocity_step(intent: int, accel1: int, vel: int, vmax: int) -> int {
    if intent != 0 {
        if vel < vmax {
            min(vel + accel1, vmax)
        } else {
            vel
        }
    } else {
        0
    }
}

/// Zoom velocity integration: as pan velocity, but capped unconditionally.
pub open spec fn zoom_velocity_step(intent: int, accel1: int, vel: int, vmax: int) -> int {
    if intent != 0 {
        min(vel + accel1, vmax)
    } else {
        0
    }
}

/// The re-centering correction applied to one camera axis when the cell
/// size changes from `old_size` to `new_size`: chosen so that the world
/// point under the viewport center stays visually fixed across the zoom.
/// All divisions are floor divisions.
pub open spec fn recenter_axis(pos: int, old_size: int, new_size: int, window: int) -> int {
    pos + (pos / old_size - pos / new_size + (window / old_size - window / new_size) / 2)
        * new_size
}

/// The camera part of one tick: pan integration on x and y, zoom
/// integration on the cell size clamped to its configured bounds, and the
/// re-centering correction, with each camera position clamped to the range
/// the arithmetic is proved for.
pub open spec fn spec_update_camera(m: StateModel, c: Config) -> StateModel {
    let ax1 = accel_step(
        m.camera_x_i,
        m.camera_x_acceleration,
        c.camera_xy_acceleration as int,
        c.camera_xy_acceleration_max as int,
    );
    let vx1 = velocity_step(m.camera_x_i, ax1, m.camera_x_velocity,
        c.camera_xy_velocity_max as int);
    let px1 = clamp(m.camera_x + vx1 * m.camera_x_i, -CAMERA_LIMIT as int, CAMERA_LIMIT as int);
    let ay1 = accel_step(
        m.camera_y_i,
        m.camera_y_acceleration,
        c.camera_xy_acceleration as int,
        c.camera_xy_acceleration_max as int,
    );
    let vy1 = velocity_step(m.camera_y_i, ay1, m.camera_y_velocity,
        c.camera_xy_velocity_max as int);
    let py1 = clamp(m.camera_y + vy1 * m.camera_y_i, -CAMERA_LIMIT as int, CAMERA_LIMIT as int);
    let az1 = accel_step(
        m.camera_z_i,
        m.camera_z_acceleration,
        c.camera_z_acceleration as int,
        c.camera_z_acceleration_max as int,
    );
    let vz1 = zoom_velocity_step(m.camera_z_i, az1, m.camera_z_velocity,
        c.camera_z_velocity_max as int);
    let w1 = clamp(
        m.cell_width + vz1 * m.camera_z_i,
        c.min_cell_width as int,
        c.max_cell_width as int,
    );
    let h1 = clamp(
        m.cell_height + vz1 * m.camera_z_i,
        c.min_cell_height as int,
        c.max_cell_height as int,
    );
    let px2 = clamp(
        recenter_axis(px1, m.cell_width, w1, c.window_width as int),
        -CAMERA_LIMIT as int,
        CAMERA_LIMIT as int,
    );
    let py2 = clamp(
        recenter_axis(py1, m.cell_height, h1, c.window_height as int),
        -CAMERA_LIMIT as int,
        CAMERA_LIMIT as int,
    );
    StateModel {
        camera_x: px2,
        camera_y: py2,
        camera_x_acceleration: ax1,
        camera_y_acceleration: ay1,
        camera_z_acceleration: az1,
        camera_x_velocity: vx1,
        camera_y_velocity: vy1,
        camera_z_velocity: vz1,
        cell_width: w1,
        cell_height: h1,
        ..m
    }
}

/// The simulation clock after one tick: advanced by one fixed step,
/// saturating at the top of its range.
pub open spec fn spec_advance_clock(m: StateModel, dt: int) -> StateModel {
    StateModel {
        t: if m.t + dt > u64::MAX {
            u64::MAX as int
        } else {
            m.t + dt
        },
        ..m
    }
}

/// One whole simulation tick: the automaton part, then camera integration,
/// then the clock.
pub open spec fn spec_tick(m: StateModel, c: Config) -> StateModel {
    spec_advance_clock(spec_update_camera(spec_update_cells(m, c.dt as int), c), c.dt as int)
}

/// `k` simulation ticks in a row.
pub open spec fn spec_run(m: StateModel, c: Config, k: nat) -> StateModel
    decreases k,
{
    if k == 0 {
        m
    } else {
        spec_tick(spec_run(m, c, (k - 1) as nat), c)
    }
}

/// Advances the world by one tick: runs the automaton step if it is due.
pub fn update(state: &mut State, config: &Config)
    requires
        old(state).wf(),
        config.wf(),
    ensures
        final(state).model() == spec_update_cells(old(state).model(), config.dt as int),
        final(state).cursor_x == old(state).cursor_x,
        final(state).cursor_y == old(state).cursor_y,
        final(state).running == old(state).running,
        final(state).fps == old(state).fps,
        final(state).wf(),
        old(state).paused ==> final(state).cell_coords@ == old(state).cell_coords@,
        old(state).paused ==> *final(state) == *old(state),
{
    update_cells(state, config);
}

/// Records the most recent frame-rate sample, if the outer loop has one.
pub fn update_fps(state: &mut State, fps: Option<u32>)
    ensures
        *final(state) == (State { fps: final(state).fps, ..*old(state) }),
        final(state).fps == (match fps {
            Some(f) => f,
            None => old(state).fps,
        }),
{
    match fps {
        Some(f) => {
            state.fps = f;
        },
        None => {},
    }
}

/// The gated automaton step. Paused: nothing changes. Interval not yet
/// elapsed: the countdown accumulates one fixed step and the world is left
/// alone. Otherwise the live-set is replaced wholesale by the next
/// generation — the old set is only read while the new one is built — and
/// the countdown gives the interval back.
fn update_cells(state: &mut State, config: &Config)
    requires
        old(state).wf(),
        config.wf(),
    ensures
        final(state).model() == spec_update_cells(old(state).model(), config.dt as int),
        final(state).cursor_x == old(state).cursor_x,
        final(state).cursor_y == old(state).cursor_y,
        final(state).running == old(state).running,
        final(state).fps == old(state).fps,
        final(state).wf(),
        old(state).paused ==> final(state).cell_coords@ == old(state).cell_coords@,
        old(state).paused ==> *final(state) == *old(state),
{
    if state.paused {
        return ;
    }
    if state.t_since_last_cell_update < state.cell_update_interval {
        state.t_since_last_cell_update = state.t_since_last_cell_update + config.dt;
        return ;
    }
    let new_cell_coords = step(&state.cell_coords);
    state.t_since_last_cell_update = state.t_since_last_cell_update - state.cell_update_interval;
    state.cell_coords = new_cell_coords;
}

/// Clamps `v` into `[lo, hi]`.
fn clamp_i64(v: i64, lo: i64, hi: i64) -> (r: i64)
    requires
        lo <= hi,
    ensures
        r == clamp(v as int, lo as int, hi as int),
{
    if v < lo {
        lo
    } else if v > hi {
        hi
    } else {
        v
    }
}

/// Bounds of floor division by a positive divisor: the quotient lies
/// between the dividend and zero.
proof fn lemma_floor_div_range(p: int, cell: int)
    requires
        1 <= cell,
    ensures
        p >= 0 ==> 0 <= p / cell <= p,
        p < 0 ==> p <= p / cell <= 0,
{
    lemma_fundamental_div_mod(p, cell);
    let q = p / cell;
    let r = p % cell;
    if p >= 0 {
        if q < 0 {
            assert(cell * q <= q) by (nonlinear_arith)
                requires
                    q < 0,
                    1 <= cell,
            ;
        }
        if q > p {
            assert(cell * q >= q) by (nonlinear_arith)
                requires
                    q > 0,
                    1 <= cell,
            ;
        }
    } else {
        if q > 0 {
            assert(cell * q >= q) by (nonlinear_arith)
                requires
                    q > 0,
                    1 <= cell,
            ;
        }
        assert(p <= q) by {
            if q + 1 <= 0 {
                assert((q + 1) * cell <= q + 1) by (nonlinear_arith)
                    requires
                        q + 1 <= 0,
                        1 <= cell,
                ;
                assert((q + 1) * cell == cell * q + cell) by (nonlinear_arith);
            }
        }
    }
}

/// Pan integration for one axis: acceleration toward its cap while intent
/// is active, velocity toward its cap, then the position moved by the
/// velocity in the intent's direction and kept within the camera range.
fn pan_axis(intent: i64, accel: &mut i64, vel: &mut i64, pos: &mut i64, a: i64, amax: i64,
    vmax: i64)
    requires
        -1 <= intent <= 1,
        0 <= *old(accel) <= 0x100_0000,
        0 <= *old(vel) <= 0x100_0000,
        -CAMERA_LIMIT <= *old(pos) <= CAMERA_LIMIT,
        0 <= a <= 0x100_0000,
        0 <= amax <= 0x100_0000,
        0 <= vmax <= 0x100_0000,
    ensures
        *final(accel) == accel_step(intent as int, *old(accel) as int, a as int, amax as int),
        *final(vel) == velocity_step(intent as int, *final(accel) as int, *old(vel) as int,
            vmax as int),
        *final(pos) == clamp(
            *old(pos) + *final(vel) * intent,
            -CAMERA_LIMIT as int,
            CAMERA_LIMIT as int,
        ),
        0 <= *final(accel) <= 0x100_0000,
        0 <= *final(vel) <= 0x100_0000,
        -CAMERA_LIMIT <= *final(pos) <= CAMERA_LIMIT,
{
    if intent != 0 {
        if *accel < amax {
            let na = *accel + a;
            *accel = if na < amax {
                na
            } else {
                amax
            };
        }
        if *vel < vmax {
            let nv = *vel + *accel;
            *vel = if nv < vmax {
                nv
            } else {
                vmax
            };
        }
    } else {
        *accel = 0;
        *vel = 0;
    }
    proof {
        assert(-0x100_0000 <= *vel * intent <= 0x100_0000) by (nonlinear_arith)
            requires
                0 <= *vel <= 0x100_0000,
                -1 <= intent <= 1,
        ;
    }
    *pos = clamp_i64(*pos + *vel * intent, -CAMERA_LIMIT, CAMERA_LIMIT);
}

/// Zoom integration: acceleration as on the pan axes, the velocity capped
/// unconditionally, and the resulting cell-size change handed back.
fn zoom_axis(intent: i64, accel: &mut i64, vel: &mut i64, a: i64, amax: i64, vmax: i64) -> (dz:
    i64)
    requires
        -1 <= intent <= 1,
        0 <= *old(accel) <= 0x100_0000,
        0 <= *old(vel) <= 0x100_0000,
        0 <= a <= 0x100_0000,
        0 <= amax <= 0x100_0000,
        0 <= vmax <= 0x100_0000,
    ensures
        *final(accel) == accel_step(intent as int, *old(accel) as int, a as int, amax as int),
        *final(vel) == zoom_velocity_step(intent as int, *final(accel) as int, *old(vel) as int,
            vmax as int),
        dz == *final(vel) * intent,
        0 <= *final(accel) <= 0x100_0000,
        0 <= *final(vel) <= 0x100_0000,
        -0x100_0000 <= dz <= 0x100_0000,
{
    if intent != 0 {
        if *accel < amax {
            let na = *accel + a;
            *accel = if na < amax {
                na
            } else {
                amax
            };
        }
        let nv = *vel + *accel;
        *vel = if nv < vmax {
            nv
        } else {
            vmax
        };
    } else {
        *accel = 0;
        *vel = 0;
    }
    proof {
        assert(-0x100_0000 <= *vel * intent <= 0x100_0000) by (nonlinear_arith)
            requires
                0 <= *vel <= 0x100_0000,
                -1 <= intent <= 1,
        ;
    }
    *vel * intent
}

/// Camera integration for one tick, run by the frame loop after the
/// automaton part: pan, zoom with clamping, then re-centering.
#[verifier::rlimit(100)]
pub fn update_camera(state: &mut State, config: &Config)
    requires
        old(state).wf(),
        config.wf(),
    ensures
        final(state).model() == spec_update_camera(old(state).model(), *config),
        final(state).cursor_x == old(state).cursor_x,
        final(state).cursor_y == old(state).cursor_y,
        final(state).running == old(state).running,
        final(state).fps == old(state).fps,
        final(state).wf(),
{
    pan_axis(
        state.camera_x_i,
        &mut state.camera_x_acceleration,
        &mut state.camera_x_velocity,
        &mut state.camera_x,
        config.camera_xy_acceleration,
        config.camera_xy_acceleration_max,
        config.camera_xy_velocity_max,
    );
    pan_axis(
        state.camera_y_i,
        &mut state.camera_y_acceleration,
        &mut state.camera_y_velocity,
        &mut state.camera_y,
        config.camera_xy_acceleration,
        config.camera_xy_acceleration_max,
        config.camera_xy_velocity_max,
    );
    let dz = zoom_axis(
        state.camera_z_i,
        &mut state.camera_z_acceleration,
        &mut state.camera_z_velocity,
        config.camera_z_acceleration,
        config.camera_z_acceleration_max,
        config.camera_z_velocity_max,
    );
    let old_cell_width = state.cell_width;
    let old_cell_height = state.cell_height;
    state.cell_width = clamp_i64(
        state.cell_width + dz,
        config.min_cell_width,
        config.max_cell_width,
    );
    state.cell_height = clamp_i64(
        state.cell_height + dz,
        config.min_cell_height,
        config.max_cell_height,
    );

    // Re-centering, so the world point under the viewport center stays put.
    state.camera_x = recenter(state.camera_x, old_cell_width, state.cell_width,
        config.window_width);
    state.camera_y = recenter(state.camera_y, old_cell_height, state.cell_height,
        config.window_height);
}

/// One axis of the zoom re-centering correction, clamped to the camera
/// range.
fn recenter(pos: i64, old_size: i64, new_size: i64, window: i64) -> (r: i64)
    requires
        -CAMERA_LIMIT <= pos <= CAMERA_LIMIT,
        1 <= old_size <= 0x10_0000,
        1 <= new_size <= 0x10_0000,
        0 <= window <= 0x1_0000_0000,
    ensures
        r == clamp(
            recenter_axis(pos as int, old_size as int, new_size as int, window as int),
            -CAMERA_LIMIT as int,
            CAMERA_LIMIT as int,
        ),
{
    proof {
        lemma_floor_div_range(pos as int, old_size as int);
        lemma_floor_div_range(pos as int, new_size as int);
        lemma_floor_div_range(window as int, old_size as int);
        lemma_floor_div_range(window as int, new_size as int);
    }
    let t1 = floor_div(pos, old_size);
    let t2 = floor_div(pos, new_size);
    let t3 = floor_div(window, old_size);
    let t4 = floor_div(window, new_size);
    proof {
        lemma_floor_div_range((t3 - t4) as int, 2);
    }
    let half = floor_div(t3 - t4, 2);
    let corr = t1 - t2 + half;
    proof {
        assert(-0x400_0000_0000 * 0x10_0000 <= (corr as int) * (new_size as int) <= 0x400_0000_0000
            * 0x10_0000) by (nonlinear_arith)
            requires
                -0x400_0000_0000 <= corr as int <= 0x400_0000_0000,
                1 <= new_size as int <= 0x10_0000,
        ;
    }
    let delta = corr * new_size;
    clamp_i64(pos + delta, -CAMERA_LIMIT, CAMERA_LIMIT)
}

/// While paused, repeated ticks never change the live-set contents, no
/// matter how many fire or how much time elapses.
pub proof fn lemma_pause_correctness(m: StateModel, c: Config, k: nat)
    requires
        m.paused,
    ensures
        spec_run(m, c, k).cells == m.cells,
        spec_run(m, c, k).paused,
    decreases k,
{
    if k > 0 {
        lemma_pause_correctness(m, c, (k - 1) as nat);
    }
}

/// Drains one frame's wall-clock delta into fixed-size simulation ticks:
/// adds the delta to the scheduler's lag, then, while a whole fixed step of
/// lag remains, consumes it and advances the world, the camera, and the
/// simulation clock by one tick. Returns how many ticks fired, which
/// depends only on the accumulated time, never on its chunking.
pub fn run_frame(state: &mut State, sched: &mut Scheduler, config: &Config, delta: u64) -> (ticks:
    u64)
    requires
        old(state).wf(),
        config.wf(),
        -ACCUMULATOR_LIMIT <= old(sched).accumulator <= ACCUMULATOR_LIMIT,
        delta <= DELTA_LIMIT,
    ensures
        ticks == spec_ticks(old(sched).accumulator + delta, config.dt as int),
        final(sched).accumulator == spec_residue(old(sched).accumulator + delta, config.dt as int),
        final(state).model() == spec_run(old(state).model(), *config, ticks as nat),
        final(state).cursor_x == old(state).cursor_x,
        final(state).cursor_y == old(state).cursor_y,
        final(state).running == old(state).running,
        final(state).fps == old(state).fps,
        final(state).wf(),
{
    sched.accumulate(delta);
    let ghost acc0 = old(sched).accumulator + delta;
    let ghost m0 = old(state).model();
    let dt_lag = config.dt as i64;
    let mut ticks: u64 = 0;
    while sched.accumulator >= dt_lag
        invariant
            state.wf(),
            config.wf(),
            dt_lag == config.dt as int,
            1 <= config.dt <= 0x10_0000,
            acc0 <= ACCUMULATOR_LIMIT + DELTA_LIMIT,
            sched.accumulator == acc0 - config.dt * ticks,
            ticks > 0 ==> sched.accumulator >= 0,
            ticks <= acc0 || ticks == 0,
            state.model() == spec_run(m0, *config, ticks as nat),
            state.cursor_x == old(state).cursor_x,
            state.cursor_y == old(state).cursor_y,
            state.running == old(state).running,
            state.fps == old(state).fps,
        decreases sched.accumulator,
    {
        let _fired = sched.consume(config.dt);
        update(state, config);
        update_camera(state, config);
        advance_clock(state, config);
        proof {
            assert(config.dt * (ticks + 1) == config.dt * ticks + config.dt) by (nonlinear_arith);
            assert(ticks + 1 <= acc0) by {
                assert(config.dt * (ticks + 1) >= ticks + 1) by (nonlinear_arith)
                    requires
                        config.dt >= 1,
                        ticks >= 0,
                ;
            }
        }
        ticks = ticks + 1;
    }
    proof {
        let dt = config.dt as int;
        if ticks == 0 {
            if acc0 >= 0 {
                lemma_fundamental_div_mod_converse(acc0, dt, 0, acc0);
            }
        } else {
            let rem = acc0 - dt * ticks;
            assert((ticks as int) * dt == dt * ticks) by (nonlinear_arith);
            lemma_fundamental_div_mod_converse(acc0, dt, ticks as int, rem);
        }
    }
    ticks
}

/// The cells named by a flat list of coordinates, consumed in pairs from
/// the end: the last entry is an x, the one before it the matching y, and
/// so on; a leftover odd entry names no cell.
pub open spec fn pair_cells(s: Seq<i32>) -> Set<Coord>
    decreases s.len(),
{
    if s.len() < 2 {
        Set::empty()
    } else {
        pair_cells(s.take(s.len() - 2)).insert(
            Coord { x: s[s.len() - 1], y: s[s.len() - 2] },
        )
    }
}

/// Seeds the world from a flat coordinate list, as the startup path does
/// with the numbers read from the seed file: pairs are drawn from the end
/// of the list, and a leftover odd entry is ignored.
pub fn seed_cells(state: &mut State, coords: Vec<i32>)
    ensures
        *final(state) == (State { cell_coords: final(state).cell_coords, ..*old(state) }),
        final(state).cell_coords@ == old(state).cell_coords@.union(pair_cells(coords@)),
{
    let mut coords = coords;
    let ghost all = old(state).cell_coords@.union(pair_cells(coords@));
    while coords.len() > 0
        invariant
            *state == (State { cell_coords: state.cell_coords, ..*old(state) }),
            state.cell_coords@.union(pair_cells(coords@)) == all,
        decreases coords@.len(),
    {
        let ghost before = coords@;
        let x = coords.pop().unwrap();
        match coords.pop() {
            Some(y) => {
                proof {
                    assert(before.take(before.len() - 2) =~= coords@);
                }
                state.cell_coords.insert(Coord::new(x, y));
                proof {
                    assert(state.cell_coords@.union(pair_cells(coords@)) =~= all);
                }
            },
            None => {
                proof {
                    assert(state.cell_coords@.union(pair_cells(coords@)) =~= all);
                }
            },
        }
    }
    proof {
        assert(state.cell_coords@.union(pair_cells(coords@)) =~= state.cell_coords@);
    }
}

/// Advances the simulation clock by one fixed step, saturating at the top
/// of its range.
fn advance_clock(state: &mut State, config: &Config)
    requires
        old(state).wf(),
        config.wf(),
    ensures
        final(state).model() == spec_advance_clock(old(state).model(), config.dt as int),
        final(state).cursor_x == old(state).cursor_x,
        final(state).cursor_y == old(state).cursor_y,
        final(state).running == old(state).running,
        final(state).fps == old(state).fps,
        final(state).wf(),
{
    if state.t > u64::MAX - config.dt {
        state.t = u64::MAX;
    } else {
        state.t = state.t + config.dt;
    }
}

} // verus!
