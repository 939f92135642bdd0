//! The calibration table: for each integration step size, the largest number
//! of update points per second that the integrator sustains at that size.

use vstd::prelude::*;

verus! {

/// Number of entries in the calibration table.
pub const TABLE_LEN: usize = 19;

/// Step size of entry `i`, in microseconds: 10, 20, ..., 100, then
/// 200, 300, ..., 1000.
pub open spec fn step_us(i: int) -> int {
    if i < 10 {
        10 * (i + 1)
    } else {
        100 * (i - 8)
    }
}

/// Sustainable throughput of entry `i`, in millionths of a point per second.
pub open spec fn throughput(i: int) -> int {
    if i == 0 {
        489646000000
    } else if i == 1 {
        250715000000
    } else if i == 2 {
        172155000000
    } else if i == 3 {
        131029714286
    } else if i == 4 {
        105694000000
    } else if i == 5 {
        88541272727
    } else if i == 6 {
        76167307692
    } else if i == 7 {
        66740857143
    } else if i == 8 {
        59461687500
    } else if i == 9 {
        53611000000
    } else if i == 10 {
        26996527778
    } else if i == 11 {
        18041654545
    } else if i == 12 {
        13546534247
    } else if i == 13 {
        10844543478
    } else if i == 14 {
        9040509091
    } else if i == 15 {
        7750382812
    } else if i == 16 {
        6783319728
    } else if i == 17 {
        6030793939
    } else {
        5428152174
    }
}

/// Step size of entry `i`, in microseconds.
pub fn step_size_us(i: usize) -> (r: u64)
    requires
        i < TABLE_LEN,
    ensures
        r == step_us(i as int),
{
    if i < 10 {
        10 * (i as u64 + 1)
    } else {
        100 * (i as u64 - 8)
    }
}

/// Sustainable throughput of entry `i`, in millionths of a point per second.
pub fn max_throughput(i: usize) -> (r: u64)
    requires
        i < TABLE_LEN,
    ensures
        r == throughput(i as int),
{
    match i {
        0 => 489646000000,
        1 => 250715000000,
        2 => 172155000000,
        3 => 131029714286,
        4 => 105694000000,
        5 => 88541272727,
        6 => 76167307692,
        7 => 66740857143,
        8 => 59461687500,
        9 => 53611000000,
        10 => 26996527778,
        11 => 18041654545,
        12 => 13546534247,
        13 => 10844543478,
        14 => 9040509091,
        15 => 7750382812,
        16 => 6783319728,
        17 => 6030793939,
        _ => 5428152174,
    }
}

/// The table is monotonic: between adjacent entries the step size grows
/// and the sustainable throughput falls.
pub proof fn lemma_table_monotonic(i: int)
    requires
        0 <= i < TABLE_LEN - 1,
    ensures
        step_us(i) < step_us(i + 1),
        step_us(i) < step_us(i + 1) ==> throughput(i) > throughput(i + 1),
{
}

/// Monotonicity over any two entries: a finer step always sustains a higher
/// throughput.
pub proof fn lemma_table_ordered(i: int, j: int)
    requires
        0 <= i < j < TABLE_LEN,
    ensures
        step_us(i) < step_us(j),
        throughput(i) > throughput(j),
    decreases j - i,
{
    lemma_table_monotonic(j - 1);
    if i < j - 1 {
        lemma_table_ordered(i, j - 1);
    }
}

/// No entry sustains more than the finest one.
pub proof fn lemma_table_ordered_or_equal(i: int, j: int)
    requires
        0 <= i <= j < TABLE_LEN,
    ensures
        throughput(i) >= throughput(j),
{
    if i < j {
        lemma_table_ordered(i, j);
    }
}

} // verus!
