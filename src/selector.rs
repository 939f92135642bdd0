//! The adaptive step selector: from a target number of update points per
//! second, pick a calibration entry and the number of substeps per tick.

use vstd::prelude::*;
use crate::calibration::{max_throughput, step_size_us, step_us, throughput, TABLE_LEN};

verus! {

/// Index of the coarsest entry whose throughput exceeds `a`, scanning the
/// entries `i, i - 1, ..., 0`; `-1` when none does.
pub open spec fn scan_down(a: int, i: int) -> int
    decreases i + 1,
{
    if i < 0 {
        -1
    } else if throughput(i) > a {
        i
    } else {
        scan_down(a, i - 1)
    }
}

/// Index of the coarsest entry whose throughput exceeds `a`; `-1` when none
/// does.
pub open spec fn coarsest_above(a: int) -> int {
    scan_down(a, TABLE_LEN - 1)
}

/// The efficiency test on a candidate throughput `thr` for the target `live`:
/// with `q` the floor of `thr / live`, the fractional part of `thr / live`
/// is at most `q / 10`. Multiplied through by `10 * live`, this reads
/// `10 * (thr % live) <= q * live`.
pub open spec fn within_tolerance(thr: int, live: int) -> bool {
    10 * (thr % live) <= (thr / live) * live
}

/// The entry picked once the target has been scaled up to `aux`, a multiple
/// of `live` below the finest throughput: the coarsest entry above `aux` is
/// kept if it passes the efficiency test or if the next multiple leaves the
/// table; otherwise the next multiple is tried.
pub open spec fn pick_from(live: int, aux: int) -> int
    decreases throughput(0) - aux,
{
    if live <= 0 || aux >= throughput(0) {
        TABLE_LEN - 1
    } else {
        let i = coarsest_above(aux);
        if within_tolerance(throughput(i), live) || aux + live >= throughput(0) {
            i
        } else {
            pick_from(live, aux + live)
        }
    }
}

/// The entry selected for the target `live`: the coarsest entry when the
/// target reaches the finest throughput; the coarsest entry above the
/// target when it reaches the smallest throughput; otherwise the pick of
/// the scaling search, starting from the unscaled target.
pub open spec fn select_index(live: int) -> int {
    if live >= throughput(0) {
        TABLE_LEN - 1
    } else if live >= throughput(TABLE_LEN - 1) {
        coarsest_above(live)
    } else {
        pick_from(live, live)
    }
}

/// Number of substeps per tick: the floor of `thr / live`, at least one.
pub open spec fn substeps_for(thr: int, live: int) -> int {
    if live <= 0 || thr / live < 1 {
        1
    } else {
        thr / live
    }
}

proof fn lemma_scan_down_range(a: int, i: int)
    requires
        -1 <= i < TABLE_LEN,
    ensures
        -1 <= scan_down(a, i) <= i,
        a < throughput(0) && i >= 0 ==> scan_down(a, i) >= 0,
    decreases i + 1,
{
    if i >= 0 {
        lemma_scan_down_range(a, i - 1);
    }
}

proof fn lemma_pick_from_range(live: int, aux: int)
    ensures
        0 <= pick_from(live, aux) < TABLE_LEN,
    decreases throughput(0) - aux,
{
    if live > 0 && aux < throughput(0) {
        lemma_scan_down_range(aux, TABLE_LEN - 1);
        let i = coarsest_above(aux);
        if !(within_tolerance(throughput(i), live) || aux + live >= throughput(0)) {
            lemma_pick_from_range(live, aux + live);
        }
    }
}

/// The selected index always names an entry of the table.
pub proof fn lemma_select_index_range(live: int)
    ensures
        0 <= select_index(live) < TABLE_LEN,
{
    if live < throughput(0) {
        lemma_scan_down_range(live, TABLE_LEN - 1);
        lemma_pick_from_range(live, live);
    }
}

/// The selection is a function of the target alone: two selections for the
/// same target give the same entry, hence the same step size, throughput and
/// substep count.
pub proof fn lemma_selector_deterministic(live1: int, live2: int)
    requires
        live1 == live2,
    ensures
        select_index(live1) == select_index(live2),
        step_us(select_index(live1)) == step_us(select_index(live2)),
        substeps_for(throughput(select_index(live1)), live1) == substeps_for(
            throughput(select_index(live2)),
            live2,
        ),
{
}

proof fn lemma_pick_from_exceeds(live: int, aux: int)
    requires
        0 < live <= aux < throughput(0),
    ensures
        throughput(pick_from(live, aux)) > live,
    decreases throughput(0) - aux,
{
    lemma_scan_above(aux, TABLE_LEN - 1);
    let i = coarsest_above(aux);
    if !(within_tolerance(throughput(i), live) || aux + live >= throughput(0)) {
        lemma_pick_from_exceeds(live, aux + live);
    }
}

proof fn lemma_scan_above(a: int, i: int)
    requires
        -1 <= i < TABLE_LEN,
        a < throughput(0),
    ensures
        i >= 0 ==> 0 <= scan_down(a, i) <= i && throughput(scan_down(a, i)) > a,
    decreases i + 1,
{
    if i >= 0 && throughput(i) <= a {
        lemma_scan_above(a, i - 1);
    }
}

proof fn lemma_scan_down_coarsest(a: int, i: int)
    requires
        0 <= i < TABLE_LEN,
        a < throughput(0),
        i == TABLE_LEN - 1 || throughput(i + 1) <= a,
    ensures
        scan_down(a, i) == TABLE_LEN - 1 || throughput(scan_down(a, i) + 1) <= a,
    decreases i,
{
    if throughput(i) <= a {
        crate::calibration::lemma_table_monotonic(i - 1);
        lemma_scan_down_coarsest(a, i - 1);
    }
}

/// Below the finest throughput, [`coarsest_above`] is the entry whose
/// throughput exceeds `a` while the next coarser one, if any, does not.
pub proof fn lemma_coarsest_above(a: int)
    requires
        a < throughput(0),
    ensures
        0 <= coarsest_above(a) < TABLE_LEN,
        throughput(coarsest_above(a)) > a,
        coarsest_above(a) == TABLE_LEN - 1 || throughput(coarsest_above(a) + 1) <= a,
{
    lemma_scan_above(a, TABLE_LEN - 1);
    lemma_scan_down_coarsest(a, TABLE_LEN - 1);
}

/// Below the finest throughput, the selected entry sustains more than the
/// target, so at least one substep per tick meets it.
pub proof fn lemma_selected_exceeds_target(live: int)
    requires
        0 < live < throughput(0),
    ensures
        throughput(select_index(live)) > live,
        substeps_for(throughput(select_index(live)), live) == throughput(select_index(live))
            / live,
{
    if live >= throughput(TABLE_LEN - 1) {
        lemma_scan_above(live, TABLE_LEN - 1);
    } else {
        lemma_pick_from_exceeds(live, live);
    }
    let t = throughput(select_index(live));
    assert(t / live >= 1) by (nonlinear_arith)
        requires
            t > live > 0,
    ;
}

/// Index of the coarsest entry whose throughput exceeds `a`.
fn find_coarsest_above(a: u64) -> (i: usize)
    requires
        a < throughput(0),
    ensures
        i == coarsest_above(a as int),
        i < TABLE_LEN,
{
    let mut i: usize = TABLE_LEN - 1;
    while max_throughput(i) <= a
        invariant
            i < TABLE_LEN,
            a < throughput(0),
            coarsest_above(a as int) == scan_down(a as int, i as int),
        decreases i,
    {
        i = i - 1;
    }
    i
}

/// The efficiency test of [`within_tolerance`] on a candidate throughput.
fn passes_tolerance(thr: u64, live: u64) -> (r: bool)
    requires
        live > 0,
        thr <= throughput(0),
    ensures
        r == within_tolerance(thr as int, live as int),
{
    let q = thr / live;
    let rem = thr % live;
    assert(rem <= thr && q * live <= thr) by (nonlinear_arith)
        requires
            live > 0,
            q == thr / live,
            rem == thr % live,
            thr * 1 == thr,
    ;
    10 * rem <= q * live
}

/// Picks the calibration entry for a target of `pts_live` millionths of a
/// point per second and returns its step size (microseconds) and its
/// throughput (millionths of a point per second).
///
/// A target that reaches the finest throughput gets the coarsest entry. A
/// target between the smallest and the finest throughput gets, directly,
/// the coarsest entry whose throughput exceeds it. A target below the
/// smallest throughput is scaled by the multipliers 1, 2, 3, ... while it
/// stays below the finest throughput; at each multiple the coarsest entry
/// above it is taken, and the search stops at the first one that passes the
/// efficiency test. When none passes, the last entry taken is kept.
pub fn select_dt_neuron_model(pts_live: u64) -> (r: (u64, u64))
    requires
        pts_live > 0,
    ensures
        0 <= select_index(pts_live as int) < TABLE_LEN,
        r.0 == step_us(select_index(pts_live as int)),
        r.1 == throughput(select_index(pts_live as int)),
{
    proof {
        lemma_select_index_range(pts_live as int);
    }
    let top = max_throughput(0);
    if pts_live >= top {
        return (step_size_us(TABLE_LEN - 1), max_throughput(TABLE_LEN - 1));
    }
    if pts_live >= max_throughput(TABLE_LEN - 1) {
        let i = find_coarsest_above(pts_live);
        return (step_size_us(i), max_throughput(i));
    }
    let mut aux: u64 = pts_live;
    loop
        invariant
            0 < pts_live < top,
            aux < top,
            top == throughput(0),
            select_index(pts_live as int) == pick_from(pts_live as int, aux as int),
        decreases top - aux,
    {
        let i = find_coarsest_above(aux);
        let thr = max_throughput(i);
        proof {
            crate::calibration::lemma_table_ordered_or_equal(0, i as int);
        }
        if passes_tolerance(thr, pts_live) || aux >= top - pts_live {
            return (step_size_us(i), thr);
        }
        aux = aux + pts_live;
    }
}

/// Number of substeps to run per tick for a selected throughput `thr` and a
/// target `pts_live`: the floor of their ratio, and at least one.
pub fn substep_count(thr: u64, pts_live: u64) -> (r: u64)
    ensures
        r == substeps_for(thr as int, pts_live as int),
        r >= 1,
{
    if pts_live == 0 {
        return 1;
    }
    let steps = thr / pts_live;
    if steps < 1 {
        1
    } else {
        steps
    }
}

} // verus!
