//! The fixed-timestep scheduler: converts variable wall-clock frame delivery
//! into a deterministic sequence of fixed-size simulation ticks. Elapsed time
//! accumulates in a lag counter; each tick consumes one fixed step from it,
//! so the number of ticks depends only on the total accumulated time, not on
//! how that time was chunked into frames.
//!
//! The accumulator may be seeded negative to defer the first tick — an
//! explicit initial-pause mechanism.

use vstd::prelude::*;
use vstd::arithmetic::div_mod::{lemma_fundamental_div_mod, lemma_fundamental_div_mod_converse};

verus! {

/// The most negative (and largest) accumulator seed the scheduler accepts.
pub const ACCUMULATOR_LIMIT: i64 = 0x8_0000_0000_0000;

/// The largest single wall-clock delta the scheduler accepts, in time units.
pub const DELTA_LIMIT: u64 = 0x1_0000_0000;

/// The largest fixed step the scheduler accepts, in time units.
pub const STEP_LIMIT: u64 = 0x10_0000;

/// How many whole fixed steps of size `dt` an accumulator reading `acc`
/// contains: `floor(acc / dt)`, and none while the accumulator is negative.
pub open spec fn spec_ticks(acc: int, dt: int) -> int {
    if acc >= 0 {
        acc / dt
    } else {
        0
    }
}

/// What is left in the accumulator after draining every whole step of size
/// `dt` from the reading `acc`.
pub open spec fn spec_residue(acc: int, dt: int) -> int {
    acc - dt * spec_ticks(acc, dt)
}

/// The wall-clock lag not yet consumed by fixed-size simulation steps.
pub struct Scheduler {
    /// Accumulated wall-clock time, in time units, waiting to be drained.
    pub accumulator: i64,
}

impl Scheduler {
    /// A scheduler with no accumulated lag.
    pub fn new() -> (s: Scheduler)
        ensures
            s.accumulator == 0,
    {
        Scheduler { accumulator: 0 }
    }

    /// A scheduler whose accumulator starts at `initial`; a negative seed
    /// defers the first tick by that much wall-clock time.
    pub fn seeded(initial: i64) -> (s: Scheduler)
        ensures
            s.accumulator == initial,
    {
        Scheduler { accumulator: initial }
    }

    /// Adds one frame's wall-clock delta to the accumulated lag.
    pub fn accumulate(&mut self, delta: u64)
        requires
            -ACCUMULATOR_LIMIT <= old(self).accumulator <= ACCUMULATOR_LIMIT,
            delta <= DELTA_LIMIT,
        ensures
            final(self).accumulator == old(self).accumulator + delta,
    {
        self.accumulator = self.accumulator + (delta as i64);
    }

    /// Consumes one fixed step of size `dt` from the accumulator if a whole
    /// step of lag is available, and reports whether it did.
    pub fn consume(&mut self, dt: u64) -> (fired: bool)
        requires
            1 <= dt <= STEP_LIMIT,
        ensures
            fired == (old(self).accumulator >= dt),
            fired ==> final(self).accumulator == old(self).accumulator - dt,
            !fired ==> final(self).accumulator == old(self).accumulator,
    {
        if self.accumulator >= dt as i64 {
            self.accumulator = self.accumulator - dt as i64;
            true
        } else {
            false
        }
    }
}

/// Draining leaves less than one whole step of nonnegative lag whenever the
/// reading was nonnegative, and leaves a negative reading untouched.
pub proof fn lemma_residue_range(acc: int, dt: int)
    requires
        dt >= 1,
    ensures
        acc >= 0 ==> 0 <= spec_residue(acc, dt) < dt,
        acc < 0 ==> spec_residue(acc, dt) == acc,
        spec_ticks(acc, dt) >= 0,
{
    if acc >= 0 {
        lemma_fundamental_div_mod(acc, dt);
        if acc / dt < 0 {
            lemma_fundamental_div_mod_converse(acc, dt, acc / dt, acc % dt);
        }
    }
}

/// Scheduler determinism: splitting elapsed time across two frames fires
/// exactly as many ticks, and leaves exactly as much lag, as delivering the
/// whole of it in one frame.
pub proof fn lemma_ticks_chunking(acc: int, d1: int, d2: int, dt: int)
    requires
        dt >= 1,
        d1 >= 0,
        d2 >= 0,
    ensures
        spec_ticks(acc + d1, dt) + spec_ticks(spec_residue(acc + d1, dt) + d2, dt) == spec_ticks(
            acc + d1 + d2,
            dt,
        ),
        spec_residue(spec_residue(acc + d1, dt) + d2, dt) == spec_residue(acc + d1 + d2, dt),
{
    let a = acc + d1;
    if a >= 0 {
        let q = a / dt;
        let r = a % dt;
        lemma_fundamental_div_mod(a, dt);
        lemma_residue_range(a, dt);
        assert(spec_residue(a, dt) == r);
        let q2 = (r + d2) / dt;
        let r2 = (r + d2) % dt;
        lemma_fundamental_div_mod(r + d2, dt);
        lemma_residue_range(r + d2, dt);
        assert(a + d2 == (q + q2) * dt + r2) by {
            assert(a == dt * q + r);
            assert(r + d2 == dt * q2 + r2);
            assert((q + q2) * dt == dt * q + dt * q2) by (nonlinear_arith);
        }
        lemma_fundamental_div_mod_converse(a + d2, dt, q + q2, r2);
    }
}

/// The total wall-clock time of a sequence of frame deltas.
pub open spec fn total_time(deltas: Seq<int>) -> int
    decreases deltas.len(),
{
    if deltas.len() == 0 {
        0
    } else {
        total_time(deltas.drop_last()) + deltas.last()
    }
}

/// The number of ticks fired when the frame deltas of `deltas` are delivered
/// one after another, each drained fully before the next arrives.
pub open spec fn ticks_of_run(acc: int, deltas: Seq<int>, dt: int) -> int
    decreases deltas.len(),
{
    if deltas.len() == 0 {
        0
    } else {
        ticks_of_run(acc, deltas.drop_last(), dt) + spec_ticks(
            residue_of_run(acc, deltas.drop_last(), dt) + deltas.last(),
            dt,
        )
    }
}

/// The accumulator reading after the frame deltas of `deltas` are delivered
/// one after another, each drained fully before the next arrives.
pub open spec fn residue_of_run(acc: int, deltas: Seq<int>, dt: int) -> int
    decreases deltas.len(),
{
    if deltas.len() == 0 {
        acc
    } else {
        spec_residue(residue_of_run(acc, deltas.drop_last(), dt) + deltas.last(), dt)
    }
}

/// Scheduler determinism over a whole run: however the elapsed wall-clock
/// time is chunked into frames, a scheduler whose lag starts below one step
/// executes exactly `floor((lag + accumulated_time) / fixed_step)` ticks, and
/// the leftover lag is likewise chunking-independent.
pub proof fn lemma_scheduler_determinism(acc: int, deltas: Seq<int>, dt: int)
    requires
        dt >= 1,
        0 <= acc < dt,
        forall|i: int| 0 <= i < deltas.len() ==> deltas[i] >= 0,
    ensures
        ticks_of_run(acc, deltas, dt) == spec_ticks(acc + total_time(deltas), dt),
        residue_of_run(acc, deltas, dt) == spec_residue(acc + total_time(deltas), dt),
    decreases deltas.len(),
{
    if deltas.len() == 0 {
        lemma_small_ticks(acc, dt);
    } else {
        let rest = deltas.drop_last();
        let d = deltas.last();
        assert(forall|i: int| 0 <= i < rest.len() ==> rest[i] >= 0) by {
            assert(forall|i: int| 0 <= i < rest.len() ==> rest[i] == deltas[i]);
        }
        lemma_scheduler_determinism(acc, rest, dt);
        lemma_total_time_nonneg(rest);
        lemma_ticks_chunking(acc, total_time(rest), d, dt);
    }
}

/// A nonnegative reading below one step drains to itself with no tick.
proof fn lemma_small_ticks(acc: int, dt: int)
    requires
        dt >= 1,
        0 <= acc < dt,
    ensures
        spec_ticks(acc, dt) == 0,
        spec_residue(acc, dt) == acc,
{
    lemma_fundamental_div_mod_converse(acc, dt, 0, acc);
}

/// Every frame taking nonnegative time, a run takes nonnegative time.
proof fn lemma_total_time_nonneg(deltas: Seq<int>)
    requires
        forall|i: int| 0 <= i < deltas.len() ==> deltas[i] >= 0,
    ensures
        total_time(deltas) >= 0,
    decreases deltas.len(),
{
    if deltas.len() > 0 {
        assert(forall|i: int| 0 <= i < deltas.len() - 1 ==> deltas.drop_last()[i] == deltas[i]);
        lemma_total_time_nonneg(deltas.drop_last());
    }
}

} // verus!
