use vstd::prelude::*;

use super::quircks::Quircks;

verus! {

/// The immutable per-run tunables: the CPU and timer frequencies in Hz and
/// the quirk flags.
#[derive(Debug, Clone, Copy, PartialEq, Eq, Structural)]
pub struct Config {
    pub quircks: Quircks,
    pub cpu_frequency: u16,
    pub timer_frequency: u16,
}

impl Config {
    /// The value `Default::default` returns.
    pub open spec fn spec_default() -> Config {
        Config { quircks: Quircks { shift: false }, cpu_frequency: 500, timer_frequency: 60 }
    }
}

impl Default for Config {
    /// The reference configuration: 500 instructions per second, 60 timer
    /// ticks per second, every quirk off.
    fn default() -> (r: Self)
        ensures
            r == Config::spec_default(),
    {
        Self { quircks: Quircks::default(), cpu_frequency: 500, timer_frequency: 60 }
    }
}

} // verus!
