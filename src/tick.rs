//! One external tick: refuse a zero period, derive the schedule, and run the
//! substeps with their divergence guard.

use vstd::prelude::*;
use crate::schedule::{effective_burst, points_live, refresh_burst, schedule_for, Schedule};
use crate::substeps::{lemma_rollback_on_divergence, run_substeps, substep_outcome};

verus! {

/// What a tick did: the schedule it ran under and the number of substeps
/// it kept.
#[derive(Clone, Copy, Debug, PartialEq, Eq)]
pub struct TickReport {
    pub schedule: Schedule,
    pub kept: u64,
}

/// The outcome of a tick from `start` to `end` that reported `r`: a zero
/// period is refused with the state unchanged; any other runs the substeps
/// of the schedule derived from the period and the burst durations.
pub open spec fn tick_outcome<S, F: Fn(u64, S) -> S, G: Fn(S) -> bool>(
    step: F,
    stable: G,
    config_ns: i64,
    input_ns: i64,
    period_ns: u64,
    start: S,
    r: Option<TickReport>,
    end: S,
) -> bool {
    &&& r is None <==> period_ns == 0
    &&& r is None ==> end == start
    &&& r matches Some(t) ==> t.schedule == schedule_for(
        points_live(effective_burst(config_ns as int, input_ns as int), period_ns as int),
    ) && substep_outcome(
        step,
        stable,
        t.schedule.step_us,
        start,
        t.schedule.substeps as nat,
        t.kept as nat,
        end,
    )
}

/// The divergence guard over a whole tick: when the first step from the
/// starting state, at the scheduled step size, gives a result that `stable`
/// rejects, the tick keeps no substep and ends in exactly the state it
/// started from.
pub proof fn lemma_tick_rollback<S, F: Fn(u64, S) -> S, G: Fn(S) -> bool>(
    step: F,
    stable: G,
    config_ns: i64,
    input_ns: i64,
    period_ns: u64,
    start: S,
    r: Option<TickReport>,
    end: S,
)
    requires
        forall|t: S, b: bool|
            #[trigger] step.ensures(
                (
                    schedule_for(
                        points_live(
                            effective_burst(config_ns as int, input_ns as int),
                            period_ns as int,
                        ),
                    ).step_us,
                    start,
                ),
                t,
            ) && #[trigger] stable.ensures((t,), b) ==> !b,
        tick_outcome(step, stable, config_ns, input_ns, period_ns, start, r, end),
    ensures
        end == start,
        r matches Some(t) ==> t.kept == 0,
{
    if let Some(t) = r {
        lemma_rollback_on_divergence(
            step,
            stable,
            t.schedule.step_us,
            start,
            t.schedule.substeps as nat,
            t.kept as nat,
            end,
        );
    }
}

/// Advances `state` by one tick of `period_ns` nanoseconds; `input_ns` is
/// the live burst duration and `config_ns` the configured fallback, used
/// when the live one is at most minus one second. A zero period is refused
/// and leaves the state alone. Otherwise the schedule is derived
/// from the period and the burst durations, and its substeps run with the
/// step size in microseconds handed to `step`; the first result that
/// `stable` rejects is undone and ends the tick.
pub fn process_tick<S: Copy, F: Fn(u64, S) -> S, G: Fn(S) -> bool>(
    state: &mut S,
    config_ns: i64,
    input_ns: i64,
    period_ns: u64,
    step: &F,
    stable: &G,
) -> (r: Option<TickReport>)
    requires
        forall|dt: u64, s: S| step.requires((dt, s)),
        forall|s: S| stable.requires((s,)),
    ensures
        tick_outcome(*step, *stable, config_ns, input_ns, period_ns, *old(state), r, *final(state)),
{
    if period_ns == 0 {
        return None;
    }
    let schedule = refresh_burst(config_ns, input_ns, period_ns);
    let kept = run_substeps(state, schedule.substeps, schedule.step_us, step, stable);
    Some(TickReport { schedule, kept })
}

} // verus!
