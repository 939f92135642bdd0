//! Per-tick scheduling: the effective burst duration, the target number of
//! update points per second, and the step size and substep count that
//! realise it.

use vstd::prelude::*;
use crate::calibration::{step_us, throughput};
use crate::selector::{select_dt_neuron_model, select_index, substep_count, substeps_for};

verus! {

/// Nanoseconds in one second.
pub const NS_PER_SEC: i64 = 1000000000;

/// Millionths of a point in one point.
pub const MICRO: u64 = 1000000;

/// The burst duration in force, in nanoseconds: the live input, or the
/// configured fallback when the input is at most minus one second (the
/// mark for "unset"); a result that is not positive becomes one
/// nanosecond.
pub open spec fn effective_burst(config_ns: int, input_ns: int) -> int {
    let b = if input_ns <= -NS_PER_SEC { config_ns } else { input_ns };
    if b <= 0 {
        1
    } else {
        b
    }
}

/// Target update rate, in millionths of a point per second, for a burst of
/// `burst_ns` driven at one tick every `period_ns`: `burst / period` points,
/// kept within one millionth and `u64::MAX`.
pub open spec fn points_live(burst_ns: int, period_ns: int) -> int {
    let p = burst_ns * MICRO / period_ns;
    if p < 1 {
        1
    } else if p > u64::MAX {
        u64::MAX as int
    } else {
        p
    }
}

/// The scheduling state derived for one tick.
#[derive(Clone, Copy, Debug, PartialEq, Eq)]
pub struct Schedule {
    /// Target update rate, in millionths of a point per second.
    pub pts_live: u64,
    /// Integration step size, in microseconds.
    pub step_us: u64,
    /// Sustainable throughput of the selected entry, in millionths of a
    /// point per second.
    pub throughput: u64,
    /// Number of integration substeps to run in the tick.
    pub substeps: u64,
}

/// The schedule derived from a target rate `live`.
pub open spec fn schedule_for(live: int) -> Schedule
    recommends
        0 < live <= u64::MAX,
{
    let i = select_index(live);
    Schedule {
        pts_live: live as u64,
        step_us: step_us(i) as u64,
        throughput: throughput(i) as u64,
        substeps: substeps_for(throughput(i), live) as u64,
    }
}

/// The burst duration in force; see [`effective_burst`].
pub fn effective_burst_ns(config_ns: i64, input_ns: i64) -> (r: i64)
    ensures
        r == effective_burst(config_ns as int, input_ns as int),
        r > 0,
{
    let b = if input_ns <= -NS_PER_SEC {
        config_ns
    } else {
        input_ns
    };
    if b <= 0 {
        1
    } else {
        b
    }
}

/// Target update rate for a burst and a tick period; see [`points_live`].
pub fn points_live_micro(burst_ns: i64, period_ns: u64) -> (r: u64)
    requires
        burst_ns > 0,
        period_ns > 0,
    ensures
        r == points_live(burst_ns as int, period_ns as int),
        r > 0,
{
    let wide = (burst_ns as u128) * (MICRO as u128);
    let p = wide / (period_ns as u128);
    if p < 1 {
        1
    } else if p > u64::MAX as u128 {
        u64::MAX
    } else {
        p as u64
    }
}

/// Recomputes the schedule for a tick of `period_ns` nanoseconds, from the
/// live burst duration `input_ns` (at most minus one second when unset) and
/// the configured fallback `config_ns`.
pub fn refresh_burst(config_ns: i64, input_ns: i64, period_ns: u64) -> (s: Schedule)
    requires
        period_ns > 0,
    ensures
        s == schedule_for(points_live(effective_burst(config_ns as int, input_ns as int), period_ns as int)),
        s.substeps >= 1,
{
    let burst = effective_burst_ns(config_ns, input_ns);
    let live = points_live_micro(burst, period_ns);
    let (dt, thr) = select_dt_neuron_model(live);
    let substeps = substep_count(thr, live);
    Schedule { pts_live: live, step_us: dt, throughput: thr, substeps }
}

} // verus!
