//! The substep loop of a tick: advance the state one fixed step at a time,
//! and on the first step whose result is not stable, restore the state from
//! before that step and stop.

use vstd::prelude::*;

verus! {

/// `run` is a chain of accepted steps of size `dt`: each state is a
/// possible result of `step` on the one before it, and `stable` accepted it.
pub open spec fn accepted_chain<S, F: Fn(u64, S) -> S, G: Fn(S) -> bool>(
    step: F,
    stable: G,
    dt: u64,
    run: Seq<S>,
) -> bool {
    forall|j: int|
        0 <= j < run.len() - 1 ==> #[trigger] step.ensures((dt, run[j]), run[j + 1])
            && stable.ensures((run[j + 1],), true)
}

/// The outcome of at most `count` substeps of size `dt` from `start`:
/// `done` steps were accepted in a chain that ends at `end`, and, when fewer
/// than `count` were, the next step from `end` was judged unstable and
/// dropped.
pub open spec fn substep_outcome<S, F: Fn(u64, S) -> S, G: Fn(S) -> bool>(
    step: F,
    stable: G,
    dt: u64,
    start: S,
    count: nat,
    done: nat,
    end: S,
) -> bool {
    &&& done <= count
    &&& exists|run: Seq<S>|
        #![trigger accepted_chain(step, stable, dt, run)]
        {
            &&& run.len() == done + 1
            &&& run[0] == start
            &&& run[done as int] == end
            &&& accepted_chain(step, stable, dt, run)
        }
    &&& done < count ==> exists|bad: S|
        #[trigger] step.ensures((dt, end), bad) && stable.ensures((bad,), false)
}

/// Runs up to `count` substeps of size `dt` on `state`. Each substep
/// replaces the state by `step(dt, state)`; when `stable` rejects the result, the state from before
/// that substep is restored and no further substep runs. Returns the number
/// of substeps kept.
pub fn run_substeps<S: Copy, F: Fn(u64, S) -> S, G: Fn(S) -> bool>(
    state: &mut S,
    count: u64,
    dt: u64,
    step: &F,
    stable: &G,
) -> (done: u64)
    requires
        forall|s: S| step.requires((dt, s)),
        forall|s: S| stable.requires((s,)),
    ensures
        substep_outcome(*step, *stable, dt, *old(state), count as nat, done as nat, *final(state)),
{
    let ghost start = *state;
    let ghost mut run: Seq<S> = seq![start];
    let mut done: u64 = 0;
    while done < count
        invariant_except_break
            done <= count,
        invariant
            forall|s: S| step.requires((dt, s)),
            forall|s: S| stable.requires((s,)),
            run.len() == done + 1,
            run[0] == start,
            run[done as int] == *state,
            accepted_chain(*step, *stable, dt, run),
        ensures
            done <= count,
            done < count ==> exists|bad: S|
                #[trigger] step.ensures((dt, *state), bad) && stable.ensures((bad,), false),
        decreases count - done,
    {
        let prev = *state;
        *state = step(dt, prev);
        if !stable(*state) {
            let ghost bad = *state;
            *state = prev;
            assert(step.ensures((dt, *state), bad) && stable.ensures((bad,), false));
            break;
        }
        proof {
            let old_run = run;
            run = run.push(*state);
            assert forall|j: int| 0 <= j < run.len() - 1 implies #[trigger] step.ensures(
                (dt, run[j]),
                run[j + 1],
            ) && stable.ensures((run[j + 1],), true) by {
                if j < old_run.len() - 1 {
                    assert(run[j] == old_run[j] && run[j + 1] == old_run[j + 1]);
                }
            }
        }
        done = done + 1;
    }
    assert(run.len() == done + 1 && run[0] == start && run[done as int] == *state
        && accepted_chain(*step, *stable, dt, run));
    done
}

/// The divergence guard: when the first step from `start` gives a result
/// that `stable` rejects, no substep is kept and the state is left exactly
/// as it was found.
pub proof fn lemma_rollback_on_divergence<S, F: Fn(u64, S) -> S, G: Fn(S) -> bool>(
    step: F,
    stable: G,
    dt: u64,
    start: S,
    count: nat,
    done: nat,
    end: S,
)
    requires
        forall|t: S, b: bool|
            #[trigger] step.ensures((dt, start), t) && #[trigger] stable.ensures((t,), b) ==> !b,
        substep_outcome(step, stable, dt, start, count, done, end),
    ensures
        done == 0,
        end == start,
{
    let run = choose|run: Seq<S>|
        {
            &&& run.len() == done + 1
            &&& run[0] == start
            &&& run[done as int] == end
            &&& #[trigger] accepted_chain(step, stable, dt, run)
        };
    if done > 0 {
        let j: int = 0;
        assert(step.ensures((dt, run[j]), run[j + 1]));
    }
}

} // verus!
