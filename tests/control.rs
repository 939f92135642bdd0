use std::cell::Cell;

use kk_neuron::keys::{
    config_key, input_key, internal_key, output_key, same_text, ConfigKey, InputKey, InternalKey,
    OutputKey,
};
use kk_neuron::schedule::Schedule;
use kk_neuron::substeps::run_substeps;
use kk_neuron::tick::{process_tick, TickReport};

#[test]
fn all_substeps_kept_when_stable() {
    let mut x: i64 = 0;
    let done = run_substeps(&mut x, 4, 10, &|_dt: u64, s: i64| s + 1, &|s: i64| s < 100);
    assert_eq!(done, 4);
    assert_eq!(x, 4);
}

#[test]
fn unstable_step_is_rolled_back() {
    let mut x: i64 = 0;
    let done = run_substeps(&mut x, 10, 10, &|_dt: u64, s: i64| s + 1, &|s: i64| s < 3);
    assert_eq!(done, 2);
    assert_eq!(x, 2);
}

#[test]
fn divergence_on_first_substep_restores_state() {
    let calls = Cell::new(0u32);
    let mut x: (i64, i64) = (7, -3);
    let step = |_dt: u64, s: (i64, i64)| {
        calls.set(calls.get() + 1);
        (s.0 * 1000, i64::MIN)
    };
    let done = run_substeps(&mut x, 50, 10, &step, &|s: (i64, i64)| s.1 != i64::MIN);
    assert_eq!(done, 0);
    assert_eq!(x, (7, -3));
    assert_eq!(calls.get(), 1);
}

#[test]
fn zero_substeps_leave_state() {
    let mut x: i64 = 9;
    assert_eq!(run_substeps(&mut x, 0, 10, &|_dt: u64, s: i64| s + 1, &|_s: i64| true), 0);
    assert_eq!(x, 9);
}

#[test]
fn unknown_keys_are_not_recognised() {
    assert_eq!(output_key("nonexistent"), None);
    assert_eq!(config_key("nonexistent"), None);
    assert_eq!(input_key("nonexistent"), None);
    assert_eq!(internal_key("nonexistent"), None);
}

#[test]
fn known_keys() {
    assert_eq!(output_key("Vm (v)"), Some(OutputKey::Volts));
    assert_eq!(output_key("Vm (mV)"), Some(OutputKey::Millivolts));
    assert_eq!(config_key("i"), Some(ConfigKey::InjectedCurrent));
    assert_eq!(config_key("I"), Some(ConfigKey::InjectedCurrent));
    assert_eq!(config_key("Burst duration (s)"), Some(ConfigKey::BurstDuration));
    assert_eq!(config_key("g_na_ttx"), Some(ConfigKey::GNaTtx));
    assert_eq!(config_key("g_na"), Some(ConfigKey::GNa));
    assert_eq!(config_key("v0 (mV)"), Some(ConfigKey::InitialPotential));
    assert_eq!(config_key("k_s"), Some(ConfigKey::KS));
    assert_eq!(input_key("Isyn (nA)"), Some(InputKey::SynapticCurrent));
    assert_eq!(input_key("Burst duration (s)"), Some(InputKey::BurstDuration));
    assert_eq!(internal_key("ca"), Some(InternalKey::Ca));
    assert_eq!(internal_key("n"), Some(InternalKey::N));
}

#[test]
fn keys_are_case_and_length_sensitive() {
    assert_eq!(config_key("CM"), None);
    assert_eq!(output_key("Vm (mv)"), None);
    assert_eq!(internal_key("c"), None);
    assert!(same_text("g_k", "g_k"));
    assert!(!same_text("g_k", "g_k_tea"));
    assert!(!same_text("", "m"));
    assert!(same_text("", ""));
}

#[test]
fn step_size_reaches_step() {
    let mut x: u64 = 0;
    let done = run_substeps(&mut x, 3, 40, &|dt: u64, s: u64| s + dt, &|_s: u64| true);
    assert_eq!(done, 3);
    assert_eq!(x, 120);
}

#[test]
fn zero_period_tick_is_refused() {
    let mut x: i64 = 5;
    let r = process_tick(&mut x, 1_000_000_000, 1_000_000_000, 0, &|_dt: u64, s: i64| s + 1, &|_s: i64| true);
    assert_eq!(r, None);
    assert_eq!(x, 5);
}

#[test]
fn default_tick_runs_scheduled_substeps() {
    let mut x: u64 = 0;
    let r = process_tick(
        &mut x,
        1_000_000_000,
        1_000_000_000,
        1_000_000,
        &|dt: u64, s: u64| s + dt,
        &|_s: u64| true,
    );
    let schedule =
        Schedule { pts_live: 1_000_000_000, step_us: 1000, throughput: 5_428_152_174, substeps: 5 };
    assert_eq!(r, Some(TickReport { schedule, kept: 5 }));
    assert_eq!(x, 5000);
}

#[test]
fn diverging_tick_keeps_prior_state() {
    let calls = Cell::new(0u32);
    let mut x: i64 = -55;
    let step = |_dt: u64, _s: i64| {
        calls.set(calls.get() + 1);
        i64::MAX
    };
    let r = process_tick(&mut x, 1_000_000_000, 1_000_000_000, 1_000_000, &step, &|s: i64| s != i64::MAX);
    assert_eq!(r.map(|t| t.kept), Some(0));
    assert_eq!(x, -55);
    assert_eq!(calls.get(), 1);
}

#[test]
fn tick_stops_at_first_unstable_substep() {
    let mut x: u64 = 0;
    let r = process_tick(
        &mut x,
        1_000_000_000,
        1_000_000_000,
        1_000_000,
        &|_dt: u64, s: u64| s + 1,
        &|s: u64| s < 3,
    );
    assert_eq!(r.map(|t| t.kept), Some(2));
    assert_eq!(x, 2);
}
