//! Flash access-control model: read-latency (wait states) for a given
//! system-clock frequency.

use vstd::prelude::*;

verus! {

/// Wait states required for safe flash reads at `sys_clock` hertz.
///
/// The count starts at zero below the lowest breakpoint and grows by one
/// per breakpoint crossed (16, 32, 48, 64 MHz), capped at the hardware
/// maximum of four.
pub open spec fn spec_flash_latency(sys_clock: u32) -> u8 {
    if sys_clock <= 16_000_000 {
        0
    } else if sys_clock <= 32_000_000 {
        1
    } else if sys_clock <= 48_000_000 {
        2
    } else if sys_clock <= 64_000_000 {
        3
    } else {
        4
    }
}

/// Derives the flash wait-state count for a system-clock frequency.
pub fn flash_latency(sys_clock: u32) -> (r: u8)
    ensures
        r == spec_flash_latency(sys_clock),
{
    if sys_clock <= 16_000_000 {
        0
    } else if sys_clock <= 32_000_000 {
        1
    } else if sys_clock <= 48_000_000 {
        2
    } else if sys_clock <= 64_000_000 {
        3
    } else {
        4
    }
}

/// The wait-state derivation never exceeds the hardware maximum.
pub proof fn lemma_flash_latency_bounded(sys_clock: u32)
    ensures
        spec_flash_latency(sys_clock) <= 4,
{
}

/// The wait-state derivation is monotonic: a higher system-clock frequency
/// never asks for fewer wait states.
pub proof fn lemma_flash_latency_monotonic(f1: u32, f2: u32)
    requires
        f1 <= f2,
    ensures
        spec_flash_latency(f1) <= spec_flash_latency(f2),
{
}

/// Model of the flash access-control register: the programmed read-latency
/// code. A frozen clock configuration writes it before any clock switch.
pub struct ACR {
    latency: u8,
}

impl ACR {
    /// The wait-state code currently held by the register model.
    pub closed spec fn spec_latency(&self) -> u8 {
        self.latency
    }

    /// A register model in its reset state: zero wait states.
    pub fn new() -> (r: ACR)
        ensures
            r.spec_latency() == 0,
    {
        ACR { latency: 0 }
    }

    /// Reads the programmed wait-state code.
    pub fn latency(&self) -> (r: u8)
        ensures
            r == self.spec_latency(),
    {
        self.latency
    }

    /// Programs the wait-state code.
    pub(crate) fn set_latency(&mut self, bits: u8)
        requires
            bits < 8,
        ensures
            final(self).spec_latency() == bits,
    {
        self.latency = bits;
    }
}

/// Constrained flash peripheral: the access-control register model.
pub struct Parts {
    /// Access-control register.
    pub acr: ACR,
}

impl Parts {
    /// Flash parts in their reset state.
    pub fn new() -> (r: Parts)
        ensures
            r.acr.spec_latency() == 0,
    {
        Parts { acr: ACR::new() }
    }
}

} // verus!
