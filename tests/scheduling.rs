use kk_neuron::calibration::{max_throughput, step_size_us, TABLE_LEN};
use kk_neuron::schedule::{effective_burst_ns, points_live_micro, refresh_burst, Schedule};
use kk_neuron::selector::{select_dt_neuron_model, substep_count};

#[test]
fn table_is_monotonic() {
    for i in 0..TABLE_LEN - 1 {
        assert!(step_size_us(i) < step_size_us(i + 1));
        assert!(max_throughput(i) > max_throughput(i + 1));
    }
}

#[test]
fn table_ends() {
    assert_eq!(step_size_us(0), 10);
    assert_eq!(step_size_us(9), 100);
    assert_eq!(step_size_us(10), 200);
    assert_eq!(step_size_us(TABLE_LEN - 1), 1000);
    assert_eq!(max_throughput(0), 489_646_000_000);
    assert_eq!(max_throughput(3), 131_029_714_286);
    assert_eq!(max_throughput(TABLE_LEN - 1), 5_428_152_174);
}

#[test]
fn finest_entry_for_high_target() {
    let live = 480_000_000_000;
    let (dt, thr) = select_dt_neuron_model(live);
    assert_eq!(dt, 10);
    assert_eq!(thr, 489_646_000_000);
    assert_eq!(substep_count(thr, live), 1);
}

#[test]
fn selection_is_repeatable() {
    for live in [1u64, 1_000_000_000, 60_000_000_000, 300_000_000_000, 480_000_000_000] {
        let a = select_dt_neuron_model(live);
        let b = select_dt_neuron_model(live);
        assert_eq!(a, b);
        assert_eq!(substep_count(a.1, live), substep_count(b.1, live));
    }
}

#[test]
fn target_beyond_table_takes_coarsest() {
    assert_eq!(select_dt_neuron_model(489_646_000_000), (1000, 5_428_152_174));
    assert_eq!(select_dt_neuron_model(u64::MAX), (1000, 5_428_152_174));
}

#[test]
fn low_target_takes_coarsest_with_several_substeps() {
    let live = 1_000_000_000;
    let (dt, thr) = select_dt_neuron_model(live);
    assert_eq!((dt, thr), (1000, 5_428_152_174));
    assert_eq!(substep_count(thr, live), 5);
}

#[test]
fn close_fit_accepted_at_first_multiple() {
    assert_eq!(select_dt_neuron_model(100_000_000_000), (50, 105_694_000_000));
}

#[test]
fn mid_target_takes_coarsest_above() {
    let live = 60_000_000_000;
    let (dt, thr) = select_dt_neuron_model(live);
    assert_eq!((dt, thr), (80, 66_740_857_143));
    assert_eq!(substep_count(thr, live), 1);
    assert_eq!(select_dt_neuron_model(300_000_000_000), (10, 489_646_000_000));
    assert_eq!(select_dt_neuron_model(5_428_152_174), (900, 6_030_793_939));
}

#[test]
fn poor_fit_scales_target() {
    let live = 4_500_000_000;
    let (dt, thr) = select_dt_neuron_model(live);
    assert_eq!((dt, thr), (600, 9_040_509_091));
    assert_eq!(substep_count(thr, live), 2);
}

#[test]
fn substep_count_floor_and_minimum() {
    assert_eq!(substep_count(5, 0), 1);
    assert_eq!(substep_count(5, 10), 1);
    assert_eq!(substep_count(100, 10), 10);
    assert_eq!(substep_count(109, 10), 10);
}

#[test]
fn burst_override_and_fallback() {
    assert_eq!(effective_burst_ns(2_000_000_000, 3), 3);
    assert_eq!(effective_burst_ns(3, -1_000_000_000), 3);
    assert_eq!(effective_burst_ns(700, -5_000_000_000), 700);
    assert_eq!(effective_burst_ns(700, -5), 1);
    assert_eq!(effective_burst_ns(700, 0), 1);
    assert_eq!(effective_burst_ns(0, -1_000_000_000), 1);
    assert_eq!(effective_burst_ns(-4, -1_000_000_000), 1);
}

#[test]
fn points_live_bounds() {
    assert_eq!(points_live_micro(1_000_000_000, 1_000_000), 1_000_000_000);
    assert_eq!(points_live_micro(1, 1_000_000_000), 1);
    assert_eq!(points_live_micro(i64::MAX, 1), u64::MAX);
    assert_eq!(points_live_micro(3, 2), 1_500_000);
}

#[test]
fn default_tick_schedule() {
    let s = refresh_burst(1_000_000_000, 1_000_000_000, 1_000_000);
    assert_eq!(
        s,
        Schedule { pts_live: 1_000_000_000, step_us: 1000, throughput: 5_428_152_174, substeps: 5 }
    );
}

#[test]
fn live_burst_takes_precedence() {
    let s = refresh_burst(1_000_000_000, 480_000_000, 1_000);
    assert_eq!(s.pts_live, 480_000_000_000);
    assert_eq!(s.step_us, 10);
    assert_eq!(s.substeps, 1);
}

#[test]
fn unset_live_burst_uses_config() {
    let s = refresh_burst(480_000_000, -1_000_000_000, 1_000);
    assert_eq!(s.pts_live, 480_000_000_000);
    assert_eq!(s.step_us, 10);
    assert_eq!(s.substeps, 1);
}

#[test]
fn short_live_burst_gives_many_substeps() {
    let s = refresh_burst(1_000_000_000_000, 1_000_000, 1_000_000);
    assert_eq!(s.pts_live, 1_000_000);
    assert_eq!(s.step_us, 1000);
    assert_eq!(s.substeps, 5428);
}
