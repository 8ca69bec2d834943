//! Reset and clock control: register models, the clock-configuration
//! builder, and the frozen clock snapshot.

use vstd::prelude::*;

use crate::clocking;
use crate::flash::ACR;
use crate::time::Hertz;

verus! {

/// Maximum value for the system clock, in hertz.
pub const SYS_CLOCK_MAX: u32 = 80_000_000;

/// Whether `d` is a divider the AHB prescaler hardware can realize.
pub open spec fn ahb_legal_div(d: int) -> bool {
    ||| d == 1
    ||| d == 2
    ||| d == 4
    ||| d == 8
    ||| d == 16
    ||| d == 64
    ||| d == 128
    ||| d == 256
    ||| d == 512
}

/// Whether `d` is a divider the APB prescaler hardware can realize.
pub open spec fn apb_legal_div(d: int) -> bool {
    ||| d == 1
    ||| d == 2
    ||| d == 4
    ||| d == 8
    ||| d == 16
}

/// The AHB divider chosen for a system-clock frequency and an optional
/// bus-frequency target: the smallest hardware-legal divider whose floored
/// result meets the target; one when the target is absent or at least the
/// input; the largest legal divider when even it cannot meet the target.
pub open spec fn spec_ahb_div(sys_clock: int, hclk: Option<u32>) -> int {
    match hclk {
        Option::None => 1,
        Option::Some(t) => {
            if sys_clock <= t {
                1
            } else if sys_clock / 2 <= t {
                2
            } else if sys_clock / 4 <= t {
                4
            } else if sys_clock / 8 <= t {
                8
            } else if sys_clock / 16 <= t {
                16
            } else if sys_clock / 64 <= t {
                64
            } else if sys_clock / 128 <= t {
                128
            } else if sys_clock / 256 <= t {
                256
            } else {
                512
            }
        },
    }
}

/// The register code for an AHB divider.
pub open spec fn spec_hpre_bits(d: int) -> u8
    recommends
        ahb_legal_div(d),
{
    if d == 1 {
        0b0111
    } else if d == 2 {
        0b1000
    } else if d == 4 {
        0b1001
    } else if d == 8 {
        0b1010
    } else if d == 16 {
        0b1011
    } else if d == 64 {
        0b1100
    } else if d == 128 {
        0b1101
    } else if d == 256 {
        0b1110
    } else {
        0b1111
    }
}

/// The APB divider chosen for an AHB frequency and an optional
/// bus-frequency target: the smallest hardware-legal divider whose floored
/// result meets the target; one when the target is absent or at least the
/// input; the largest legal divider when even it cannot meet the target.
pub open spec fn spec_apb_div(ahb: int, pclk: Option<u32>) -> int {
    match pclk {
        Option::None => 1,
        Option::Some(t) => {
            if ahb <= t {
                1
            } else if ahb / 2 <= t {
                2
            } else if ahb / 4 <= t {
                4
            } else if ahb / 8 <= t {
                8
            } else {
                16
            }
        },
    }
}

/// The register code for an APB divider.
pub open spec fn spec_ppre_bits(d: int) -> u8
    recommends
        apb_legal_div(d),
{
    if d == 1 {
        0b011
    } else if d == 2 {
        0b100
    } else if d == 4 {
        0b101
    } else if d == 8 {
        0b110
    } else {
        0b111
    }
}


/// With no bus target, or with a target at least the input frequency, the
/// chosen AHB divider is one: the bus runs at the full input frequency.
pub proof fn lemma_ahb_div_default(sys_clock: u32, hclk: Option<u32>)
    requires
        hclk matches Some(t) ==> t >= sys_clock,
    ensures
        spec_ahb_div(sys_clock as int, hclk) == 1,
{
}

/// With no bus target, or with a target at least the input frequency, the
/// chosen APB divider is one.
pub proof fn lemma_apb_div_default(ahb: u32, pclk: Option<u32>)
    requires
        pclk matches Some(t) ==> t >= ahb,
    ensures
        spec_apb_div(ahb as int, pclk) == 1,
{
}

/// The chosen AHB divider is the smallest hardware-legal divider whose
/// floored result meets the target: every smaller legal divider overshoots,
/// and the chosen one overshoots only when it is the largest of the set, so
/// that no legal divider meets the target at all.
pub proof fn lemma_ahb_div_smallest(sys_clock: u32, t: u32)
    ensures
        ({
            let d = spec_ahb_div(sys_clock as int, Some(t));
            &&& ahb_legal_div(d)
            &&& forall|d2: int| ahb_legal_div(d2) && d2 < d ==> sys_clock as int / d2 > t
            &&& (sys_clock as int / d > t ==> d == 512)
        }),
{
}

/// The chosen APB divider is the smallest hardware-legal divider whose
/// floored result meets the target: every smaller legal divider overshoots,
/// and the chosen one overshoots only when it is the largest of the set, so
/// that no legal divider meets the target at all.
pub proof fn lemma_apb_div_smallest(ahb: u32, t: u32)
    ensures
        ({
            let d = spec_apb_div(ahb as int, Some(t));
            &&& apb_legal_div(d)
            &&& forall|d2: int| apb_legal_div(d2) && d2 < d ==> ahb as int / d2 > t
            &&& (ahb as int / d > t ==> d == 16)
        }),
{
}

/// Clock configuration builder: optional bus-frequency targets and the
/// chosen system-clock source.
///
/// A builder exists only inside an [`Rcc`], which is made at most once per
/// process, and the type is neither clonable nor copyable, so `freeze` --
/// which takes the builder by value -- is reachable at most once per
/// builder: the move from draft to frozen snapshot is terminal, enforced
/// by ownership rather than by proof.
pub struct CFGR {
    hclk: Option<u32>,
    pclk1: Option<u32>,
    pclk2: Option<u32>,
    sysclk: clocking::SysClkSource,
}

/// The draft a clock-configuration builder holds.
pub struct CfgrState {
    /// AHB bus-frequency target.
    pub hclk: Option<u32>,
    /// APB1 bus-frequency target.
    pub pclk1: Option<u32>,
    /// APB2 bus-frequency target.
    pub pclk2: Option<u32>,
    /// System-clock source.
    pub sysclk: clocking::SysClkSource,
}

impl View for CFGR {
    type V = CfgrState;

    closed spec fn view(&self) -> CfgrState {
        CfgrState { hclk: self.hclk, pclk1: self.pclk1, pclk2: self.pclk2, sysclk: self.sysclk }
    }
}

/// Whether a draft can be frozen without a fault: every stated target is a
/// real frequency, the source selection is legal, and the source's
/// frequency arithmetic stays within the register width.
pub open spec fn spec_cfgr_ok(c: CfgrState) -> bool {
    &&& c.hclk != Some(0u32)
    &&& c.pclk1 != Some(0u32)
    &&& c.pclk2 != Some(0u32)
    &&& clocking::source_valid(c.sysclk)
    &&& clocking::source_freq_fits(c.sysclk)
}

impl CFGR {
    /// Sets a frequency target for the AHB bus.
    pub fn hclk(self, freq: Hertz) -> (r: CFGR)
        requires
            freq.0 > 0,
        ensures
            r@ == (CfgrState { hclk: Some(freq.0), ..self@ }),
    {
        CFGR { hclk: Some(freq.0), ..self }
    }

    /// Sets a frequency target for the APB1 bus.
    pub fn pclk1(self, freq: Hertz) -> (r: CFGR)
        requires
            freq.0 > 0,
        ensures
            r@ == (CfgrState { pclk1: Some(freq.0), ..self@ }),
    {
        CFGR { pclk1: Some(freq.0), ..self }
    }

    /// Sets a frequency target for the APB2 bus.
    pub fn pclk2(self, freq: Hertz) -> (r: CFGR)
        requires
            freq.0 > 0,
        ensures
            r@ == (CfgrState { pclk2: Some(freq.0), ..self@ }),
    {
        CFGR { pclk2: Some(freq.0), ..self }
    }

    /// Sets the source for the system clock.
    ///
    /// An illegal phase-locked-loop selection -- one with no upstream
    /// source, or with a divider field outside its hardware range -- is
    /// refused: the draft keeps its previous source.
    pub fn sysclk(self, src: clocking::SysClkSource) -> (r: CFGR)
        ensures
            clocking::source_valid(src) ==> r@ == (CfgrState { sysclk: src, ..self@ }),
            !clocking::source_valid(src) ==> r@ == self@,
    {
        let ok = match src {
            clocking::SysClkSource::PLL(p) => p.is_valid(),
            _ => true,
        };
        if ok {
            CFGR { sysclk: src, ..self }
        } else {
            self
        }
    }

    /// The draft's system-clock source, for the owner of the hardware
    /// registers to program.
    pub fn source(&self) -> (r: clocking::SysClkSource)
        ensures
            r == self@.sysclk,
    {
        self.sysclk
    }

    /// Chooses the AHB divider: given the achieved system-clock frequency
    /// and an optional bus target, returns the register code and the
    /// divided frequency of the smallest hardware-legal divider whose
    /// floored result meets the target -- one when the target is absent or
    /// at least the input, the largest legal divider when none meets it.
    pub fn calc_ahb(sys_clock: u32, hclk: Option<u32>) -> (r: (u8, u32))
        requires
            hclk != Some(0u32),
        ensures
            ({
                let d = spec_ahb_div(sys_clock as int, hclk);
                r.0 == spec_hpre_bits(d) && r.1 == sys_clock as int / d
            }),
    {
        match hclk {
            Option::None => (0b0111, sys_clock),
            Option::Some(t) => {
                if sys_clock <= t {
                    (0b0111, sys_clock)
                } else if sys_clock / 2 <= t {
                    (0b1000, sys_clock / 2)
                } else if sys_clock / 4 <= t {
                    (0b1001, sys_clock / 4)
                } else if sys_clock / 8 <= t {
                    (0b1010, sys_clock / 8)
                } else if sys_clock / 16 <= t {
                    (0b1011, sys_clock / 16)
                } else if sys_clock / 64 <= t {
                    (0b1100, sys_clock / 64)
                } else if sys_clock / 128 <= t {
                    (0b1101, sys_clock / 128)
                } else if sys_clock / 256 <= t {
                    (0b1110, sys_clock / 256)
                } else {
                    (0b1111, sys_clock / 512)
                }
            },
        }
    }

    /// Chooses an APB divider: given the achieved AHB frequency and an
    /// optional bus target, returns the register code and the value of the
    /// smallest hardware-legal divider whose floored result meets the
    /// target -- one when the target is absent or at least the input, the
    /// largest legal divider when none meets it.
    pub fn calc_apb(ahb: u32, pclk: Option<u32>) -> (r: (u8, u8))
        requires
            pclk != Some(0u32),
        ensures
            ({
                let d = spec_apb_div(ahb as int, pclk);
                r.0 == spec_ppre_bits(d) && r.1 == d
            }),
    {
        match pclk {
            Option::None => (0b011, 1),
            Option::Some(t) => {
                if ahb <= t {
                    (0b011, 1)
                } else if ahb / 2 <= t {
                    (0b100, 2)
                } else if ahb / 4 <= t {
                    (0b101, 4)
                } else if ahb / 8 <= t {
                    (0b110, 8)
                } else {
                    (0b111, 16)
                }
            },
        }
    }

    /// Checks that this draft can be frozen: every stated target is a real
    /// frequency, the source selection is legal, and the source's frequency
    /// arithmetic stays within the register width.
    pub fn freeze_ok(&self) -> (r: bool)
        ensures
            r == spec_cfgr_ok(self@),
    {
        let targets_ok = self.hclk != Some(0) && self.pclk1 != Some(0) && self.pclk2 != Some(0);
        let source_ok = match self.sysclk {
            clocking::SysClkSource::PLL(p) => {
                if p.is_valid() {
                    let src_freq: u32 = match p.src {
                        clocking::PLLClkSource::NoClock => 0,
                        clocking::PLLClkSource::MSI(rc) => rc.freq(),
                        clocking::PLLClkSource::HSI16 => clocking::HSI16_FREQ,
                        clocking::PLLClkSource::HSE(clk) => clk.freq(),
                    };
                    let q: u64 = src_freq as u64 / p.m as u64;
                    proof {
                        assert(q * (p.n as u64) <= 0xffff_ffff * 86) by (nonlinear_arith)
                            requires
                                q <= 0xffff_ffff,
                                p.n <= 86,
                        ;
                    }
                    let vco: u64 = q * p.n as u64;
                    vco <= u32::MAX as u64
                } else {
                    false
                }
            },
            _ => true,
        };
        targets_ok && source_ok
    }

    /// Freezes the clock configuration, consuming the draft.
    ///
    /// The derivation runs strictly in order: the source's achieved
    /// frequency, the AHB divider, the two APB dividers, and last the flash
    /// wait-state count, which is recorded in the access-control register
    /// model before the snapshot exists -- the owner of the hardware
    /// registers must likewise write the latency before switching the
    /// clock. The returned snapshot is immutable; no path leads from it
    /// back to a draft.
    pub fn freeze(self, acr: &mut ACR) -> (r: Clocks)
        requires
            spec_cfgr_ok(self@),
        ensures
            r == spec_predicted_clocks(self@),
            final(acr).spec_latency() == crate::flash::spec_flash_latency(
                clocking::spec_source_freq(self@.sysclk) as u32,
            ),
    {
        let (sys_clock, _sw_bits) = self.sysclk.configure();

        let (_hpre_bits, ahb) = Self::calc_ahb(sys_clock, self.hclk);

        let (_ppre1_bits, ppre1) = Self::calc_apb(ahb, self.pclk1);
        let apb1 = ahb / ppre1 as u32;

        let (_ppre2_bits, ppre2) = Self::calc_apb(ahb, self.pclk2);
        let apb2 = ahb / ppre2 as u32;

        let latency = crate::flash::flash_latency(sys_clock);
        acr.set_latency(latency);

        Clocks {
            hclk: Hertz(ahb),
            pclk1: Hertz(apb1),
            pclk2: Hertz(apb2),
            sysclk: Hertz(sys_clock),
            pll_src: match self.sysclk {
                clocking::SysClkSource::PLL(p) => Some(p.src),
                _ => None,
            },
            pll_psc: match self.sysclk {
                clocking::SysClkSource::PLL(p) => Some(p.m),
                _ => None,
            },
            ppre1,
            ppre2,
        }
    }

    /// The register image a freeze commits: the flash wait-state code and
    /// the divider and source-select codes, for the owner of the hardware
    /// registers to write -- latency strictly first.
    pub fn freeze_plan(&self) -> (r: FreezePlan)
        requires
            spec_cfgr_ok(self@),
        ensures
            r == spec_freeze_plan(self@),
    {
        let (sys_clock, sw_bits) = self.sysclk.configure();
        let (hpre_bits, ahb) = Self::calc_ahb(sys_clock, self.hclk);
        let (ppre1_bits, _ppre1) = Self::calc_apb(ahb, self.pclk1);
        let (ppre2_bits, _ppre2) = Self::calc_apb(ahb, self.pclk2);
        let latency = crate::flash::flash_latency(sys_clock);
        FreezePlan { latency, hpre_bits, ppre1_bits, ppre2_bits, sw_bits }
    }
}

/// The fields of the frozen snapshot predicted from a draft: the source's
/// achieved frequency, each bus frequency after its chosen divider, the
/// divider values, and the PLL parameters when the source is a PLL.
pub open spec fn spec_predicted_clocks(c: CfgrState) -> Clocks {
    let sys = clocking::spec_source_freq(c.sysclk);
    let ahb_d = spec_ahb_div(sys, c.hclk);
    let ahb = sys / ahb_d;
    let p1_d = spec_apb_div(ahb, c.pclk1);
    let p2_d = spec_apb_div(ahb, c.pclk2);
    Clocks {
        hclk: Hertz(ahb as u32),
        pclk1: Hertz((ahb / p1_d) as u32),
        pclk2: Hertz((ahb / p2_d) as u32),
        sysclk: Hertz(sys as u32),
        pll_src: match c.sysclk {
            clocking::SysClkSource::PLL(p) => Some(p.src),
            _ => None,
        },
        pll_psc: match c.sysclk {
            clocking::SysClkSource::PLL(p) => Some(p.m),
            _ => None,
        },
        ppre1: p1_d as u8,
        ppre2: p2_d as u8,
    }
}

/// The register image predicted from a draft.
pub open spec fn spec_freeze_plan(c: CfgrState) -> FreezePlan {
    let sys = clocking::spec_source_freq(c.sysclk);
    let ahb_d = spec_ahb_div(sys, c.hclk);
    let ahb = sys / ahb_d;
    FreezePlan {
        latency: crate::flash::spec_flash_latency(sys as u32),
        hpre_bits: spec_hpre_bits(ahb_d),
        ppre1_bits: spec_ppre_bits(spec_apb_div(ahb, c.pclk1)),
        ppre2_bits: spec_ppre_bits(spec_apb_div(ahb, c.pclk2)),
        sw_bits: clocking::spec_source_code(c.sysclk),
    }
}

/// The register image a freeze commits, in commit order: the flash
/// wait-state code is written before the divider and source-select codes.
#[derive(Clone, Copy, Debug, PartialEq, Eq, Structural)]
pub struct FreezePlan {
    /// Flash wait-state code.
    pub latency: u8,
    /// AHB divider code.
    pub hpre_bits: u8,
    /// APB1 divider code.
    pub ppre1_bits: u8,
    /// APB2 divider code.
    pub ppre2_bits: u8,
    /// System-clock source-select code.
    pub sw_bits: u8,
}

/// Frozen clock frequencies.
///
/// The existence of this value indicates that the clock configuration can
/// no longer be changed: it is produced only by consuming a builder, and it
/// carries no capability that mutates the clock hardware.
#[derive(Clone, Copy, Debug, PartialEq, Eq, Structural)]
pub struct Clocks {
    /// Frequency of the AHB bus (HCLK).
    pub hclk: Hertz,
    /// Frequency of the APB1 bus (PCLK1).
    pub pclk1: Hertz,
    /// Frequency of the APB2 bus (PCLK2).
    pub pclk2: Hertz,
    /// Frequency of the system clock (SYSCLK).
    pub sysclk: Hertz,
    /// Clock source driving the PLL, when the system clock is the PLL.
    pub pll_src: Option<clocking::PLLClkSource>,
    /// PLL input divider M, when the system clock is the PLL.
    pub pll_psc: Option<u8>,
    /// APB1 prescaler value.
    pub ppre1: u8,
    /// APB2 prescaler value.
    pub ppre2: u8,
}

impl Clocks {
    /// Returns the frequency of the AHB.
    pub fn hclk(&self) -> (r: Hertz)
        ensures
            r == self.hclk,
    {
        self.hclk
    }

    /// Returns the frequency of the APB1.
    pub fn pclk1(&self) -> (r: Hertz)
        ensures
            r == self.pclk1,
    {
        self.pclk1
    }

    /// Returns the frequency of the APB2.
    pub fn pclk2(&self) -> (r: Hertz)
        ensures
            r == self.pclk2,
    {
        self.pclk2
    }

    /// Returns the value of the APB1 prescaler.
    pub fn ppre1(&self) -> (r: u8)
        ensures
            r == self.ppre1,
    {
        self.ppre1
    }

    /// Returns the value of the APB2 prescaler.
    pub fn ppre2(&self) -> (r: u8)
        ensures
            r == self.ppre2,
    {
        self.ppre2
    }

    /// Returns the system (core) frequency.
    pub fn sysclk(&self) -> (r: Hertz)
        ensures
            r == self.sysclk,
    {
        self.sysclk
    }
}

/// The state of the backup-domain control register: the RTC source-select
/// field, the RTC enable bit, and the low-speed external oscillator's
/// enable and ready bits.
pub struct BdcrState {
    /// Two-bit RTC clock-source select field.
    pub rtcsel: u8,
    /// RTC enable bit.
    pub rtcen: bool,
    /// LSE oscillator enable bit.
    pub lseon: bool,
    /// LSE oscillator ready flag.
    pub lserdy: bool,
}

/// Backup-domain control register model.
///
/// The hardware register is write-protected; lifting the protection is the
/// builder owner's part. The model's state is the state the hardware is
/// known to be in once each operation has returned: an enable that must
/// wait for the ready flag returns only with the flag in its new state.
pub struct BDCR {
    rtcsel: u8,
    rtcen: bool,
    lseon: bool,
    lserdy: bool,
}

impl View for BDCR {
    type V = BdcrState;

    closed spec fn view(&self) -> BdcrState {
        BdcrState { rtcsel: self.rtcsel, rtcen: self.rtcen, lseon: self.lseon, lserdy: self.lserdy }
    }
}

/// The cleared backup domain: no RTC source selected, RTC off, LSE off.
pub open spec fn spec_bdcr_reset() -> BdcrState {
    BdcrState { rtcsel: 0, rtcen: false, lseon: false, lserdy: false }
}

/// How an enable request changes the backup-domain state: an unchanged
/// request is a no-op, a changed one flips the enable bit and returns only
/// once the ready flag has followed it.
pub open spec fn spec_lse_enable(pre: BdcrState, is_on: bool) -> BdcrState {
    if pre.lseon == is_on {
        pre
    } else {
        BdcrState { lseon: is_on, lserdy: is_on, ..pre }
    }
}

/// Whether an enable request must spin on the ready flag: exactly when the
/// requested state differs from the current one.
pub open spec fn spec_lse_wait_needed(pre: BdcrState, is_on: bool) -> bool {
    pre.lseon != is_on
}

/// How a source-select write changes the backup-domain state: the hardware
/// latches the first selected source and silently ignores later writes
/// until the domain is reset.
pub open spec fn spec_set_rtc_clock(pre: BdcrState, clock: clocking::RtcClkSource) -> BdcrState {
    if pre.rtcsel == 0 {
        BdcrState { rtcsel: clocking::spec_rtc_sel_bits(clock), ..pre }
    } else {
        pre
    }
}

impl BDCR {
    /// Whether the model is well formed: the source-select field is two
    /// bits wide.
    pub open spec fn wf(&self) -> bool {
        self@.rtcsel < 4
    }

    /// A register model over the given field values, as read from the
    /// hardware register.
    pub fn new(rtcsel: u8, rtcen: bool, lseon: bool, lserdy: bool) -> (r: BDCR)
        requires
            rtcsel < 4,
        ensures
            r@ == (BdcrState { rtcsel, rtcen, lseon, lserdy }),
            r.wf(),
    {
        BDCR { rtcsel, rtcen, lseon, lserdy }
    }

    /// Resets the entire backup domain: a reset pulse clears every field,
    /// the RTC source selection among them.
    ///
    /// Use it to change the RTC clock source: the hardware ignores
    /// source-select writes until the domain has been reset.
    pub fn reset(&mut self)
        ensures
            final(self)@ == spec_bdcr_reset(),
            final(self).wf(),
    {
        self.rtcsel = 0;
        self.rtcen = false;
        self.lseon = false;
        self.lserdy = false;
    }

    /// Returns the selected RTC clock source.
    pub fn rtc_clock(&mut self) -> (r: clocking::RtcClkSource)
        requires
            old(self).wf(),
        ensures
            final(self)@ == old(self)@,
            r == clocking::spec_rtc_sel_decode(old(self)@.rtcsel),
    {
        if self.rtcsel == 0 {
            clocking::RtcClkSource::NoClock
        } else if self.rtcsel == 1 {
            clocking::RtcClkSource::LSE
        } else if self.rtcsel == 2 {
            clocking::RtcClkSource::LSI
        } else {
            clocking::RtcClkSource::HSEDiv32
        }
    }

    /// Selects the clock source for the RTC.
    ///
    /// Once a source has been selected, the hardware ignores further
    /// writes until the backup domain is reset; the model does the same.
    pub fn set_rtc_clock(&mut self, clock: clocking::RtcClkSource)
        requires
            old(self).wf(),
        ensures
            final(self)@ == spec_set_rtc_clock(old(self)@, clock),
            final(self).wf(),
    {
        if self.rtcsel == 0 {
            self.rtcsel = clock.bits();
        }
    }

    /// Sets the RTC on or off.
    pub fn rtc_enable(&mut self, is_on: bool)
        ensures
            final(self)@ == (BdcrState { rtcen: is_on, ..old(self)@ }),
    {
        self.rtcen = is_on;
    }

    /// Sets the low-speed external oscillator on or off.
    ///
    /// When the oscillator is already in the requested state the call
    /// returns at once, without a ready-wait; otherwise it flips the
    /// enable bit and returns only once the ready flag has followed.
    pub fn lse_enable(&mut self, is_on: bool)
        ensures
            final(self)@ == spec_lse_enable(old(self)@, is_on),
    {
        if self.lseon == is_on {
            return ;
        }
        self.lseon = is_on;
        self.lserdy = is_on;
    }

    /// Whether the RTC is enabled.
    pub fn rtc_is_enabled(&self) -> (r: bool)
        ensures
            r == self@.rtcen,
    {
        self.rtcen
    }

    /// Whether the low-speed external oscillator is enabled.
    pub fn lse_is_on(&self) -> (r: bool)
        ensures
            r == self@.lseon,
    {
        self.lseon
    }

    /// Whether the low-speed external oscillator reports ready.
    pub fn lse_is_ready(&self) -> (r: bool)
        ensures
            r == self@.lserdy,
    {
        self.lserdy
    }
}

/// Once a clock source has been selected for the RTC, later selections are
/// silently ignored; a backup-domain reset makes the next selection latch
/// again.
pub proof fn lemma_rtc_selection_latches(
    pre: BdcrState,
    first: clocking::RtcClkSource,
    second: clocking::RtcClkSource,
)
    requires
        pre.rtcsel == 0,
        first !is NoClock,
    ensures
        spec_set_rtc_clock(spec_set_rtc_clock(pre, first), second) == spec_set_rtc_clock(
            pre,
            first,
        ),
        spec_set_rtc_clock(spec_bdcr_reset(), second).rtcsel == clocking::spec_rtc_sel_bits(
            second,
        ),
{
}

/// After an enable call, an immediately repeated call with the same
/// request finds the oscillator already in that state and so performs no
/// second ready-wait -- and leaves the register unchanged.
pub proof fn lemma_lse_enable_no_second_wait(pre: BdcrState, is_on: bool)
    ensures
        !spec_lse_wait_needed(spec_lse_enable(pre, is_on), is_on),
        spec_lse_enable(spec_lse_enable(pre, is_on), is_on) == spec_lse_enable(pre, is_on),
{
}

/// The state of the control/status register: the low-speed internal
/// oscillator's enable and ready bits.
pub struct CsrState {
    /// LSI oscillator enable bit.
    pub lsion: bool,
    /// LSI oscillator ready flag.
    pub lsirdy: bool,
}

/// Control/status register model. As with the backup-domain model, its
/// state is the state the hardware is known to be in once each operation
/// has returned.
pub struct CSR {
    lsion: bool,
    lsirdy: bool,
}

impl View for CSR {
    type V = CsrState;

    closed spec fn view(&self) -> CsrState {
        CsrState { lsion: self.lsion, lsirdy: self.lsirdy }
    }
}

/// How an enable request changes the control/status state: an unchanged
/// request is a no-op, a changed one flips the enable bit and returns only
/// once the ready flag has followed it.
pub open spec fn spec_lsi_enable(pre: CsrState, is_on: bool) -> CsrState {
    if pre.lsion == is_on {
        pre
    } else {
        CsrState { lsion: is_on, lsirdy: is_on }
    }
}

/// Whether an enable request must spin on the ready flag: exactly when the
/// requested state differs from the current one.
pub open spec fn spec_lsi_wait_needed(pre: CsrState, is_on: bool) -> bool {
    pre.lsion != is_on
}

impl CSR {
    /// A register model over the given bit values, as read from the
    /// hardware register.
    pub fn new(lsion: bool, lsirdy: bool) -> (r: CSR)
        ensures
            r@ == (CsrState { lsion, lsirdy }),
    {
        CSR { lsion, lsirdy }
    }

    /// Turns the low-speed internal oscillator on or off.
    ///
    /// When the oscillator is already in the requested state the call
    /// returns at once, without a ready-wait; otherwise it flips the
    /// enable bit and returns only once the ready flag has followed.
    pub fn lsi_enable(&mut self, is_on: bool)
        ensures
            final(self)@ == spec_lsi_enable(old(self)@, is_on),
    {
        if self.lsion == is_on {
            return ;
        }
        self.lsion = is_on;
        self.lsirdy = is_on;
    }

    /// Whether the low-speed internal oscillator is enabled.
    pub fn lsi_is_on(&self) -> (r: bool)
        ensures
            r == self@.lsion,
    {
        self.lsion
    }

    /// Whether the low-speed internal oscillator reports ready.
    pub fn lsi_is_ready(&self) -> (r: bool)
        ensures
            r == self@.lsirdy,
    {
        self.lsirdy
    }
}

/// After an enable call, an immediately repeated call with the same
/// request finds the oscillator already in that state and so performs no
/// second ready-wait -- and leaves the register unchanged.
pub proof fn lemma_lsi_enable_no_second_wait(pre: CsrState, is_on: bool)
    ensures
        !spec_lsi_wait_needed(spec_lsi_enable(pre, is_on), is_on),
        spec_lsi_enable(spec_lsi_enable(pre, is_on), is_on) == spec_lsi_enable(pre, is_on),
{
}

/// Capability token for the AHB peripheral enable and reset registers.
/// Holding it is the right to touch that register group; the register
/// access itself belongs to the unverified owner of the peripherals.
pub struct AHB(());

/// Capability token for the APB1 peripheral enable and reset registers.
pub struct APB1(());

/// Capability token for the APB2 peripheral enable and reset registers.
pub struct APB2(());

/// Constrained reset-and-clock-control peripheral: one capability token
/// per register group, the two guarded register models, and the clock
/// configuration builder.
///
/// At most one value exists per process -- it is created by consuming the
/// raw peripheral singleton -- so no two owners can race on the clock
/// registers. Creating it lifts the backup-domain write protection;
/// freezing the configuration restores the protection.
pub struct Rcc {
    /// AHB register-group token.
    pub ahb: AHB,
    /// APB1 register-group token.
    pub apb1: APB1,
    /// APB2 register-group token.
    pub apb2: APB2,
    /// Backup-domain control register model.
    pub bdcr: BDCR,
    /// Control/status register model.
    pub csr: CSR,
    /// Clock configuration builder.
    pub cfgr: CFGR,
}

impl Rcc {
    /// A constrained peripheral over the given register models, as read
    /// from the hardware.
    ///
    /// The builder starts from the hardware's reset configuration: the
    /// medium-speed internal oscillator at 4 MHz drives the system clock,
    /// and no bus target is stated.
    pub fn new(bdcr: BDCR, csr: CSR) -> (r: Rcc)
        ensures
            r.bdcr@ == bdcr@,
            r.csr@ == csr@,
            r.cfgr@.hclk is None,
            r.cfgr@.pclk1 is None,
            r.cfgr@.pclk2 is None,
            r.cfgr@.sysclk matches clocking::SysClkSource::MSI(rc) && rc.spec_freq()
                == 4_000_000 && !rc.spec_auto_calibration(),
            spec_cfgr_ok(r.cfgr@),
    {
        Rcc {
            ahb: AHB(()),
            apb1: APB1(()),
            apb2: APB2(()),
            bdcr,
            csr,
            cfgr: CFGR {
                hclk: None,
                pclk1: None,
                pclk2: None,
                sysclk: clocking::SysClkSource::MSI(
                    clocking::MediumSpeedInternalRC::new(4_000_000, false),
                ),
            },
        }
    }
}

} // verus!

