//! System-clock source variants.
//!
//! Each variant derives the frequency it achieves once configured, together
//! with the two-bit system-clock select code the hardware expects. The
//! register writes and ready-flag waits that accompany a real configuration
//! are performed by the unverified layer that owns the peripherals, using
//! the values computed here.

use vstd::prelude::*;

verus! {

/// The frequencies the medium-speed internal RC oscillator can be trimmed
/// to: the hardware-defined discrete range set.
pub open spec fn msi_freq_ok(freq: u32) -> bool {
    ||| freq == 100_000
    ||| freq == 200_000
    ||| freq == 400_000
    ||| freq == 800_000
    ||| freq == 1_000_000
    ||| freq == 2_000_000
    ||| freq == 4_000_000
    ||| freq == 8_000_000
    ||| freq == 16_000_000
    ||| freq == 24_000_000
    ||| freq == 32_000_000
    ||| freq == 48_000_000
}

/// The range code the hardware assigns to each legal MSI frequency:
/// the index of the frequency in the ascending range set.
pub open spec fn spec_msi_range_code(freq: u32) -> u8
    recommends
        msi_freq_ok(freq),
{
    if freq == 100_000 {
        0
    } else if freq == 200_000 {
        1
    } else if freq == 400_000 {
        2
    } else if freq == 800_000 {
        3
    } else if freq == 1_000_000 {
        4
    } else if freq == 2_000_000 {
        5
    } else if freq == 4_000_000 {
        6
    } else if freq == 8_000_000 {
        7
    } else if freq == 16_000_000 {
        8
    } else if freq == 24_000_000 {
        9
    } else if freq == 32_000_000 {
        10
    } else {
        11
    }
}

/// Medium-speed internal RC oscillator (MSI): trimmed to one of the
/// hardware-defined range frequencies, optionally auto-calibrated against
/// the low-speed external oscillator.
#[derive(Clone, Copy, Debug, PartialEq, Eq, Structural)]
pub struct MediumSpeedInternalRC {
    freq: u32,
    auto_calibration: bool,
}

impl MediumSpeedInternalRC {
    /// The nominal frequency the oscillator is trimmed to.
    pub closed spec fn spec_freq(&self) -> u32 {
        self.freq
    }

    /// Whether auto-calibration was requested.
    pub closed spec fn spec_auto_calibration(&self) -> bool {
        self.auto_calibration
    }

    /// A new MSI selection. The frequency must be one of the
    /// hardware-defined range frequencies.
    pub fn new(freq: u32, auto_calibration: bool) -> (r: MediumSpeedInternalRC)
        requires
            msi_freq_ok(freq),
        ensures
            r.spec_freq() == freq,
            r.spec_auto_calibration() == auto_calibration,
    {
        MediumSpeedInternalRC { freq, auto_calibration }
    }

    /// The nominal frequency.
    pub fn freq(&self) -> (r: u32)
        ensures
            r == self.spec_freq(),
    {
        self.freq
    }

    /// Whether auto-calibration was requested.
    pub fn auto_calibration(&self) -> (r: bool)
        ensures
            r == self.spec_auto_calibration(),
    {
        self.auto_calibration
    }

    /// The hardware range code matching the nominal frequency.
    pub fn range_code(&self) -> (r: u8)
        requires
            msi_freq_ok(self.spec_freq()),
        ensures
            r == spec_msi_range_code(self.spec_freq()),
    {
        if self.freq == 100_000 {
            0
        } else if self.freq == 200_000 {
            1
        } else if self.freq == 400_000 {
            2
        } else if self.freq == 800_000 {
            3
        } else if self.freq == 1_000_000 {
            4
        } else if self.freq == 2_000_000 {
            5
        } else if self.freq == 4_000_000 {
            6
        } else if self.freq == 8_000_000 {
            7
        } else if self.freq == 16_000_000 {
            8
        } else if self.freq == 24_000_000 {
            9
        } else if self.freq == 32_000_000 {
            10
        } else {
            11
        }
    }
}

/// High-speed internal RC oscillator (HSI16): a fixed 16 MHz.
#[derive(Clone, Copy, Debug, PartialEq, Eq, Structural)]
pub struct HighSpeedInternal16RC;

/// The fixed frequency of the high-speed internal oscillator.
pub const HSI16_FREQ: u32 = 16_000_000;

/// High-speed external oscillator (HSE): the caller states the resonator's
/// frequency, which software cannot verify, and whether the oscillator is
/// bypassed by an external clock signal.
#[derive(Clone, Copy, Debug, PartialEq, Eq, Structural)]
pub struct HighSpeedExternalClock {
    freq: u32,
    bypass: bool,
}

impl HighSpeedExternalClock {
    /// The stated resonator frequency.
    pub closed spec fn spec_freq(&self) -> u32 {
        self.freq
    }

    /// Whether the oscillator is bypassed.
    pub closed spec fn spec_bypass(&self) -> bool {
        self.bypass
    }

    /// A new HSE selection.
    pub fn new(freq: u32, bypass: bool) -> (r: HighSpeedExternalClock)
        ensures
            r.spec_freq() == freq,
            r.spec_bypass() == bypass,
    {
        HighSpeedExternalClock { freq, bypass }
    }

    /// The stated resonator frequency.
    pub fn freq(&self) -> (r: u32)
        ensures
            r == self.spec_freq(),
    {
        self.freq
    }

    /// Whether the oscillator is bypassed.
    pub fn bypass(&self) -> (r: bool)
        ensures
            r == self.spec_bypass(),
    {
        self.bypass
    }
}

/// Upstream clock source of the PLL.
#[derive(Clone, Copy, Debug, PartialEq, Eq, Structural)]
pub enum PLLClkSource {
    /// No source: the PLL is unclocked and cannot drive anything.
    NoClock,
    /// Medium-speed internal oscillator.
    MSI(MediumSpeedInternalRC),
    /// High-speed internal oscillator, 16 MHz.
    HSI16,
    /// High-speed external oscillator.
    HSE(HighSpeedExternalClock),
}

/// The frequency an upstream PLL source delivers.
pub open spec fn spec_pll_src_freq(src: PLLClkSource) -> int
    recommends
        src !is NoClock,
{
    match src {
        PLLClkSource::NoClock => 0,
        PLLClkSource::MSI(rc) => rc.spec_freq() as int,
        PLLClkSource::HSI16 => HSI16_FREQ as int,
        PLLClkSource::HSE(clk) => clk.spec_freq() as int,
    }
}

/// The PLL output divider, by output tap: the tap taken to the system
/// clock accepts {2, 4, 6, 8}, the auxiliary tap accepts {7, 17}.
#[derive(Clone, Copy, Debug, PartialEq, Eq, Structural)]
pub enum PLLOutputDiv {
    /// Auxiliary output tap, legal divider values 7 and 17.
    P(u8),
    /// System-clock output tap, legal divider values 2, 4, 6 and 8.
    R(u8),
}

impl PLLOutputDiv {
    /// The divider value, regardless of tap.
    pub open spec fn spec_value(&self) -> u8 {
        match *self {
            PLLOutputDiv::P(d) => d,
            PLLOutputDiv::R(d) => d,
        }
    }

    /// Whether the divider value is legal for its tap.
    pub open spec fn spec_legal(&self) -> bool {
        match *self {
            PLLOutputDiv::P(d) => d == 7 || d == 17,
            PLLOutputDiv::R(d) => d == 2 || d == 4 || d == 6 || d == 8,
        }
    }

    /// The divider value, regardless of tap.
    pub fn value(&self) -> (r: u8)
        ensures
            r == self.spec_value(),
    {
        match *self {
            PLLOutputDiv::P(d) => d,
            PLLOutputDiv::R(d) => d,
        }
    }

    /// Checks that the divider value is legal for its tap.
    pub fn is_legal(&self) -> (r: bool)
        ensures
            r == self.spec_legal(),
    {
        match *self {
            PLLOutputDiv::P(d) => d == 7 || d == 17,
            PLLOutputDiv::R(d) => d == 2 || d == 4 || d == 6 || d == 8,
        }
    }
}

/// Phase-locked loop: multiplies a divided upstream frequency into the VCO
/// and divides the VCO down to the output tap.
#[derive(Clone, Copy, Debug, PartialEq, Eq, Structural)]
pub struct PLL {
    /// Upstream clock source.
    pub src: PLLClkSource,
    /// Input divider M, legal range 1 to 8.
    pub m: u8,
    /// VCO multiplier N, legal range 8 to 86.
    pub n: u8,
    /// Output divider.
    pub div: PLLOutputDiv,
}

/// Whether a PLL selection is legal: it has an upstream source and every
/// divider field lies in its hardware range.
pub open spec fn pll_valid(p: PLL) -> bool {
    &&& p.src !is NoClock
    &&& 1 <= p.m <= 8
    &&& 8 <= p.n <= 86
    &&& p.div.spec_legal()
}

/// The VCO frequency of a PLL: the upstream frequency divided by M, times N.
pub open spec fn spec_pll_vco(p: PLL) -> int
    recommends
        pll_valid(p),
{
    (spec_pll_src_freq(p.src) / p.m as int) * p.n as int
}

/// The output frequency of a PLL: the VCO frequency divided by the output
/// divider.
pub open spec fn spec_pll_freq(p: PLL) -> int
    recommends
        pll_valid(p),
{
    spec_pll_vco(p) / p.div.spec_value() as int
}

impl PLL {
    /// A new PLL selection.
    pub fn new(src: PLLClkSource, m: u8, n: u8, div: PLLOutputDiv) -> (r: PLL)
        ensures
            r == (PLL { src, m, n, div }),
    {
        PLL { src, m, n, div }
    }

    /// Checks that the selection has an upstream source and that every
    /// divider field lies in its hardware range.
    pub fn is_valid(&self) -> (r: bool)
        ensures
            r == pll_valid(*self),
    {
        let src_ok = match self.src {
            PLLClkSource::NoClock => false,
            _ => true,
        };
        src_ok && 1 <= self.m && self.m <= 8 && 8 <= self.n && self.n <= 86
            && self.div.is_legal()
    }
}

/// System-clock source selection.
#[derive(Clone, Copy, Debug, PartialEq, Eq, Structural)]
pub enum SysClkSource {
    /// Medium-speed internal RC oscillator.
    MSI(MediumSpeedInternalRC),
    /// High-speed internal RC oscillator, fixed 16 MHz.
    HSI16(HighSpeedInternal16RC),
    /// High-speed external oscillator.
    HSE(HighSpeedExternalClock),
    /// Phase-locked loop.
    PLL(PLL),
}

/// Whether a system-clock selection is accepted by the builder: a PLL must
/// be clocked and legal; the direct sources carry no further constraint.
pub open spec fn source_valid(src: SysClkSource) -> bool {
    match src {
        SysClkSource::PLL(p) => pll_valid(p),
        _ => true,
    }
}

/// The frequency a source achieves once configured.
pub open spec fn spec_source_freq(src: SysClkSource) -> int
    recommends
        source_valid(src),
{
    match src {
        SysClkSource::MSI(rc) => rc.spec_freq() as int,
        SysClkSource::HSI16(_) => HSI16_FREQ as int,
        SysClkSource::HSE(clk) => clk.spec_freq() as int,
        SysClkSource::PLL(p) => spec_pll_freq(p),
    }
}

/// The two-bit system-clock select code of a source.
pub open spec fn spec_source_code(src: SysClkSource) -> u8 {
    match src {
        SysClkSource::MSI(_) => 0b00,
        SysClkSource::HSI16(_) => 0b01,
        SysClkSource::HSE(_) => 0b10,
        SysClkSource::PLL(_) => 0b11,
    }
}

/// Whether the frequency arithmetic of a source stays within the register
/// width: only a PLL computes, and only its VCO product can exceed it.
pub open spec fn source_freq_fits(src: SysClkSource) -> bool {
    match src {
        SysClkSource::PLL(p) => spec_pll_vco(p) <= u32::MAX,
        _ => true,
    }
}

impl SysClkSource {
    /// Derives the frequency this source achieves and its select code.
    ///
    /// The register programming and ready-flag waits of a real
    /// configuration are the unverified owner's part; re-enabling an
    /// already-ready oscillator is a hardware no-op, so the derivation
    /// holds however often it is applied.
    pub fn configure(&self) -> (r: (u32, u8))
        requires
            source_valid(*self),
            source_freq_fits(*self),
        ensures
            r.0 == spec_source_freq(*self),
            r.1 == spec_source_code(*self),
    {
        match *self {
            SysClkSource::MSI(rc) => (rc.freq(), 0b00),
            SysClkSource::HSI16(_) => (HSI16_FREQ, 0b01),
            SysClkSource::HSE(clk) => (clk.freq(), 0b10),
            SysClkSource::PLL(p) => {
                let src_freq: u32 = match p.src {
                    PLLClkSource::NoClock => 0,
                    PLLClkSource::MSI(rc) => rc.freq(),
                    PLLClkSource::HSI16 => HSI16_FREQ,
                    PLLClkSource::HSE(clk) => clk.freq(),
                };
                let vco: u32 = (src_freq / p.m as u32) * p.n as u32;
                (vco / p.div.value() as u32, 0b11)
            },
        }
    }
}

/// Clock source driving the real-time clock.
#[derive(Clone, Copy, Debug, PartialEq, Eq, Structural)]
pub enum RtcClkSource {
    /// No clock.
    NoClock,
    /// Low-speed external oscillator.
    LSE,
    /// Low-speed internal oscillator.
    LSI,
    /// High-speed external oscillator divided by 32.
    HSEDiv32,
}

/// The two-bit select code of an RTC clock source.
pub open spec fn spec_rtc_sel_bits(src: RtcClkSource) -> u8 {
    match src {
        RtcClkSource::NoClock => 0b00,
        RtcClkSource::LSE => 0b01,
        RtcClkSource::LSI => 0b10,
        RtcClkSource::HSEDiv32 => 0b11,
    }
}

/// The RTC clock source a two-bit select code names.
pub open spec fn spec_rtc_sel_decode(bits: u8) -> RtcClkSource
    recommends
        bits < 4,
{
    if bits == 0 {
        RtcClkSource::NoClock
    } else if bits == 1 {
        RtcClkSource::LSE
    } else if bits == 2 {
        RtcClkSource::LSI
    } else {
        RtcClkSource::HSEDiv32
    }
}

impl RtcClkSource {
    /// The two-bit select code of this source.
    pub fn bits(&self) -> (r: u8)
        ensures
            r == spec_rtc_sel_bits(*self),
            r < 4,
    {
        match *self {
            RtcClkSource::NoClock => 0b00,
            RtcClkSource::LSE => 0b01,
            RtcClkSource::LSI => 0b10,
            RtcClkSource::HSEDiv32 => 0b11,
        }
    }
}

/// Decoding a select code inverts encoding: the round trip over the two-bit
/// field returns the source it started from.
pub proof fn lemma_rtc_sel_round_trip(src: RtcClkSource)
    ensures
        spec_rtc_sel_decode(spec_rtc_sel_bits(src)) == src,
{
}

} // verus!
