//! The string keys under which a host configures the model, feeds its
//! inputs and reads its outputs and internal variables.

use vstd::prelude::*;
use vstd::string::*;

verus! {

/// A configuration entry.
#[derive(Clone, Copy, Debug, PartialEq, Eq, Structural)]
pub enum ConfigKey {
    BurstDuration,
    InjectedCurrent,
    Capacitance,
    GNaV,
    VNa,
    GNa,
    GNaTtx,
    GK,
    GKTea,
    VK,
    GB,
    VB,
    GCa,
    VCa,
    GCaCa,
    KBeta,
    Beta,
    Rho,
    KS,
    InitialPotential,
}

/// An input channel.
#[derive(Clone, Copy, Debug, PartialEq, Eq, Structural)]
pub enum InputKey {
    SynapticCurrent,
    BurstDuration,
}

/// An output channel: the membrane potential in volts or in millivolts.
#[derive(Clone, Copy, Debug, PartialEq, Eq, Structural)]
pub enum OutputKey {
    Volts,
    Millivolts,
}

/// An internal variable open to inspection.
#[derive(Clone, Copy, Debug, PartialEq, Eq, Structural)]
pub enum InternalKey {
    M,
    H,
    N,
    Ca,
}

/// Whether two strings hold the same characters.
pub fn same_text(a: &str, b: &str) -> (r: bool)
    ensures
        r == (a@ == b@),
{
    let n = a.unicode_len();
    if n != b.unicode_len() {
        return false;
    }
    let mut i: usize = 0;
    while i < n
        invariant
            n == a@.len(),
            n == b@.len(),
            i <= n,
            forall|j: int| 0 <= j < i ==> a@[j] == b@[j],
        decreases n - i,
    {
        if a.get_char(i) != b.get_char(i) {
            return false;
        }
        i = i + 1;
    }
    assert(a@ =~= b@);
    true
}

/// The configuration entry named by `s`, if any.
pub open spec fn config_key_of(s: Seq<char>) -> Option<ConfigKey> {
    if s == "Burst duration (s)"@ {
        Some(ConfigKey::BurstDuration)
    } else if s == "i"@ || s == "I"@ {
        Some(ConfigKey::InjectedCurrent)
    } else if s == "cm"@ {
        Some(ConfigKey::Capacitance)
    } else if s == "g_na_v"@ {
        Some(ConfigKey::GNaV)
    } else if s == "v_na"@ {
        Some(ConfigKey::VNa)
    } else if s == "g_na"@ {
        Some(ConfigKey::GNa)
    } else if s == "g_na_ttx"@ {
        Some(ConfigKey::GNaTtx)
    } else if s == "g_k"@ {
        Some(ConfigKey::GK)
    } else if s == "g_k_tea"@ {
        Some(ConfigKey::GKTea)
    } else if s == "v_k"@ {
        Some(ConfigKey::VK)
    } else if s == "g_b"@ {
        Some(ConfigKey::GB)
    } else if s == "v_b"@ {
        Some(ConfigKey::VB)
    } else if s == "g_ca"@ {
        Some(ConfigKey::GCa)
    } else if s == "v_ca"@ {
        Some(ConfigKey::VCa)
    } else if s == "g_ca_ca"@ {
        Some(ConfigKey::GCaCa)
    } else if s == "k_beta"@ {
        Some(ConfigKey::KBeta)
    } else if s == "beta"@ {
        Some(ConfigKey::Beta)
    } else if s == "rho"@ {
        Some(ConfigKey::Rho)
    } else if s == "k_s"@ {
        Some(ConfigKey::KS)
    } else if s == "v0 (mV)"@ {
        Some(ConfigKey::InitialPotential)
    } else {
        None
    }
}

/// The input channel named by `s`, if any.
pub open spec fn input_key_of(s: Seq<char>) -> Option<InputKey> {
    if s == "Isyn (nA)"@ {
        Some(InputKey::SynapticCurrent)
    } else if s == "Burst duration (s)"@ {
        Some(InputKey::BurstDuration)
    } else {
        None
    }
}

/// The output channel named by `s`, if any.
pub open spec fn output_key_of(s: Seq<char>) -> Option<OutputKey> {
    if s == "Vm (v)"@ {
        Some(OutputKey::Volts)
    } else if s == "Vm (mV)"@ {
        Some(OutputKey::Millivolts)
    } else {
        None
    }
}

/// The internal variable named by `s`, if any.
pub open spec fn internal_key_of(s: Seq<char>) -> Option<InternalKey> {
    if s == "m"@ {
        Some(InternalKey::M)
    } else if s == "h"@ {
        Some(InternalKey::H)
    } else if s == "n"@ {
        Some(InternalKey::N)
    } else if s == "ca"@ {
        Some(InternalKey::Ca)
    } else {
        None
    }
}

/// Looks up a configuration entry by name.
pub fn config_key(key: &str) -> (r: Option<ConfigKey>)
    ensures
        r == config_key_of(key@),
{
    if same_text(key, "Burst duration (s)") {
        Some(ConfigKey::BurstDuration)
    } else if same_text(key, "i") || same_text(key, "I") {
        Some(ConfigKey::InjectedCurrent)
    } else if same_text(key, "cm") {
        Some(ConfigKey::Capacitance)
    } else if same_text(key, "g_na_v") {
        Some(ConfigKey::GNaV)
    } else if same_text(key, "v_na") {
        Some(ConfigKey::VNa)
    } else if same_text(key, "g_na") {
        Some(ConfigKey::GNa)
    } else if same_text(key, "g_na_ttx") {
        Some(ConfigKey::GNaTtx)
    } else if same_text(key, "g_k") {
        Some(ConfigKey::GK)
    } else if same_text(key, "g_k_tea") {
        Some(ConfigKey::GKTea)
    } else if same_text(key, "v_k") {
        Some(ConfigKey::VK)
    } else if same_text(key, "g_b") {
        Some(ConfigKey::GB)
    } else if same_text(key, "v_b") {
        Some(ConfigKey::VB)
    } else if same_text(key, "g_ca") {
        Some(ConfigKey::GCa)
    } else if same_text(key, "v_ca") {
        Some(ConfigKey::VCa)
    } else if same_text(key, "g_ca_ca") {
        Some(ConfigKey::GCaCa)
    } else if same_text(key, "k_beta") {
        Some(ConfigKey::KBeta)
    } else if same_text(key, "beta") {
        Some(ConfigKey::Beta)
    } else if same_text(key, "rho") {
        Some(ConfigKey::Rho)
    } else if same_text(key, "k_s") {
        Some(ConfigKey::KS)
    } else if same_text(key, "v0 (mV)") {
        Some(ConfigKey::InitialPotential)
    } else {
        None
    }
}

/// Looks up an input channel by name.
pub fn input_key(key: &str) -> (r: Option<InputKey>)
    ensures
        r == input_key_of(key@),
{
    if same_text(key, "Isyn (nA)") {
        Some(InputKey::SynapticCurrent)
    } else if same_text(key, "Burst duration (s)") {
        Some(InputKey::BurstDuration)
    } else {
        None
    }
}

/// Looks up an output channel by name.
pub fn output_key(key: &str) -> (r: Option<OutputKey>)
    ensures
        r == output_key_of(key@),
{
    if same_text(key, "Vm (v)") {
        Some(OutputKey::Volts)
    } else if same_text(key, "Vm (mV)") {
        Some(OutputKey::Millivolts)
    } else {
        None
    }
}

/// Looks up an internal variable by name.
pub fn internal_key(key: &str) -> (r: Option<InternalKey>)
    ensures
        r == internal_key_of(key@),
{
    if same_text(key, "m") {
        Some(InternalKey::M)
    } else if same_text(key, "h") {
        Some(InternalKey::H)
    } else if same_text(key, "n") {
        Some(InternalKey::N)
    } else if same_text(key, "ca") {
        Some(InternalKey::Ca)
    } else {
        None
    }
}

} // verus!
