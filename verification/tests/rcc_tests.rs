use stm32l4x6_hal::clocking::{PLLClkSource, PLLOutputDiv, RtcClkSource, SysClkSource, PLL};
use stm32l4x6_hal::flash::{flash_latency, Parts};
use stm32l4x6_hal::rcc::{Rcc, BDCR, CFGR, CSR, SYS_CLOCK_MAX};
use stm32l4x6_hal::time::Hertz;

fn fresh_rcc() -> Rcc {
    Rcc::new(BDCR::new(0, false, false, false), CSR::new(false, false))
}

#[test]
pub fn calculate_apb() {
    let ahb = SYS_CLOCK_MAX;

    let pclk = None;
    let (ppre_bits, ppre) = CFGR::calc_apb(ahb, pclk);
    assert_eq!(ppre_bits, 0b011);
    assert_eq!(ppre, 1);

    let pclk = Some(ahb / 2);
    let (ppre_bits, ppre) = CFGR::calc_apb(ahb, pclk);
    assert_eq!(ppre_bits, 0b100);
    assert_eq!(ppre, 2);

    let pclk = Some(ahb / 4);
    let (ppre_bits, ppre) = CFGR::calc_apb(ahb, pclk);
    assert_eq!(ppre_bits, 0b101);
    assert_eq!(ppre, 4);

    let pclk = Some(ahb / 9);
    let (ppre_bits, ppre) = CFGR::calc_apb(ahb, pclk);
    assert_eq!(ppre_bits, 0b111);
    assert_eq!(ppre, 16);

    let pclk = Some(ahb / 20);
    let (ppre_bits, ppre) = CFGR::calc_apb(ahb, pclk);
    assert_eq!(ppre_bits, 0b111);
    assert_eq!(ppre, 16);
}

#[test]
pub fn calculate_ahb() {
    let sys_clock = SYS_CLOCK_MAX;
    let hclk = None;

    let (hpre_bits, ahb) = CFGR::calc_ahb(sys_clock, hclk);
    assert_eq!(hpre_bits, 0b0111);
    assert_eq!(ahb, sys_clock);

    let hclk = Some(sys_clock / 2);
    let (hpre_bits, ahb) = CFGR::calc_ahb(sys_clock, hclk);
    assert_eq!(hpre_bits, 0b1000);
    assert_eq!(ahb, sys_clock / 2);

    let hclk = Some(sys_clock / 5);
    let (hpre_bits, ahb) = CFGR::calc_ahb(sys_clock, hclk);
    assert_eq!(hpre_bits, 0b1010);
    assert_eq!(ahb, sys_clock / 8);

    let hclk = Some(sys_clock / 6);
    let (hpre_bits, ahb) = CFGR::calc_ahb(sys_clock, hclk);
    assert_eq!(hpre_bits, 0b1010);
    assert_eq!(ahb, sys_clock / 8);

    let hclk = Some(sys_clock / 18);
    let (hpre_bits, ahb) = CFGR::calc_ahb(sys_clock, hclk);
    assert_eq!(hpre_bits, 0b1100);
    assert_eq!(ahb, sys_clock / 64);

    let hclk = Some(sys_clock / 40);
    let (hpre_bits, ahb) = CFGR::calc_ahb(sys_clock, hclk);
    assert_eq!(hpre_bits, 0b1100);
    assert_eq!(ahb, sys_clock / 64);

    let hclk = Some(sys_clock / 100);
    let (hpre_bits, ahb) = CFGR::calc_ahb(sys_clock, hclk);
    assert_eq!(hpre_bits, 0b1101);
    assert_eq!(ahb, sys_clock / 128);

    let hclk = Some(sys_clock / 300);
    let (hpre_bits, ahb) = CFGR::calc_ahb(sys_clock, hclk);
    assert_eq!(hpre_bits, 0b1111);
    assert_eq!(ahb, sys_clock / 512);

    let hclk = Some(sys_clock / 400);
    let (hpre_bits, ahb) = CFGR::calc_ahb(sys_clock, hclk);
    assert_eq!(hpre_bits, 0b1111);
    assert_eq!(ahb, sys_clock / 512);
}

#[test]
fn calc_ahb_target_above_input_picks_divider_one() {
    let (hpre_bits, ahb) = CFGR::calc_ahb(4_000_000, Some(8_000_000));
    assert_eq!(hpre_bits, 0b0111);
    assert_eq!(ahb, 4_000_000);
}

#[test]
fn calc_apb_target_above_input_picks_divider_one() {
    let (ppre_bits, ppre) = CFGR::calc_apb(4_000_000, Some(5_000_000));
    assert_eq!(ppre_bits, 0b011);
    assert_eq!(ppre, 1);
}

#[test]
fn calc_picks_smallest_divider_meeting_target() {
    // 80 MHz / 4 = 20 MHz would still exceed a 16 MHz target; 8 meets it.
    let (hpre_bits, ahb) = CFGR::calc_ahb(80_000_000, Some(16_000_000));
    assert_eq!(hpre_bits, 0b1010);
    assert_eq!(ahb, 10_000_000);

    // 80 MHz / 8 = 10 MHz would still exceed the target; 16 meets it.
    let (ppre_bits, ppre) = CFGR::calc_apb(80_000_000, Some(8_888_888));
    assert_eq!(ppre_bits, 0b111);
    assert_eq!(ppre, 16);
}

#[test]
fn calc_caps_at_largest_divider_when_none_meets_target() {
    let (hpre_bits, ahb) = CFGR::calc_ahb(u32::MAX, Some(1));
    assert_eq!(hpre_bits, 0b1111);
    assert_eq!(ahb, u32::MAX / 512);

    let (ppre_bits, ppre) = CFGR::calc_apb(80_000_000, Some(1));
    assert_eq!(ppre_bits, 0b111);
    assert_eq!(ppre, 16);
}

#[test]
fn freeze_meets_target_even_when_no_divider_is_exact() {
    // MSI at 4 MHz with an 800 kHz AHB target: divider 4 would leave the
    // bus at 1 MHz, above the target; the smallest divider meeting it is 8.
    let rcc = fresh_rcc();
    let cfgr = rcc.cfgr.hclk(Hertz(800_000));
    let mut flash = Parts::new();
    let clocks = cfgr.freeze(&mut flash.acr);
    assert_eq!(clocks.sysclk().0, 4_000_000);
    assert_eq!(clocks.hclk().0, 500_000);
    assert_eq!(clocks.pclk1().0, 500_000);
    assert_eq!(clocks.ppre1(), 1);
}

#[test]
fn default_freeze_runs_msi_at_four_megahertz() {
    let rcc = fresh_rcc();
    let mut flash = Parts::new();
    let clocks = rcc.cfgr.freeze(&mut flash.acr);
    assert_eq!(clocks.sysclk().0, 4_000_000);
    assert_eq!(clocks.hclk().0, 4_000_000);
    assert_eq!(clocks.pclk1().0, 4_000_000);
    assert_eq!(clocks.pclk2().0, 4_000_000);
    assert_eq!(clocks.ppre1(), 1);
    assert_eq!(clocks.ppre2(), 1);
    assert_eq!(clocks.pll_src, None);
    assert_eq!(clocks.pll_psc, None);
    assert_eq!(flash.acr.latency(), 0);
}

#[test]
fn pll_freeze_scenario_eighty_megahertz() {
    let pll = PLL::new(PLLClkSource::HSI16, 1, 20, PLLOutputDiv::R(4));
    let rcc = fresh_rcc();
    let cfgr = rcc.cfgr.sysclk(SysClkSource::PLL(pll)).pclk1(Hertz(20_000_000));
    assert_eq!(cfgr.source(), SysClkSource::PLL(pll));
    let mut flash = Parts::new();
    let plan = cfgr.freeze_plan();
    let clocks = cfgr.freeze(&mut flash.acr);
    assert_eq!(clocks.sysclk().0, 80_000_000);
    assert_eq!(clocks.hclk().0, 80_000_000);
    assert_eq!(clocks.pclk1().0, 20_000_000);
    assert_eq!(clocks.ppre1(), 4);
    assert_eq!(clocks.pclk2().0, 80_000_000);
    assert_eq!(clocks.ppre2(), 1);
    assert_eq!(clocks.pll_src, Some(PLLClkSource::HSI16));
    assert_eq!(clocks.pll_psc, Some(1));
    assert_eq!(flash.acr.latency(), 4);
    assert_eq!(plan.latency, 4);
    assert_eq!(plan.hpre_bits, 0b0111);
    assert_eq!(plan.ppre1_bits, 0b101);
    assert_eq!(plan.ppre2_bits, 0b011);
    assert_eq!(plan.sw_bits, 0b11);
}

#[test]
fn hse_freeze_reports_stated_frequency() {
    let hse = stm32l4x6_hal::clocking::HighSpeedExternalClock::new(8_000_000, false);
    let rcc = fresh_rcc();
    let cfgr = rcc.cfgr.sysclk(SysClkSource::HSE(hse)).pclk2(Hertz(2_000_000));
    let mut flash = Parts::new();
    let plan = cfgr.freeze_plan();
    let clocks = cfgr.freeze(&mut flash.acr);
    assert_eq!(clocks.sysclk().0, 8_000_000);
    assert_eq!(clocks.hclk().0, 8_000_000);
    assert_eq!(clocks.pclk2().0, 2_000_000);
    assert_eq!(clocks.ppre2(), 4);
    assert_eq!(plan.sw_bits, 0b10);
    assert_eq!(flash.acr.latency(), 0);
}

#[test]
fn invalid_pll_selection_keeps_previous_source() {
    let unclocked = PLL::new(PLLClkSource::NoClock, 1, 20, PLLOutputDiv::R(4));
    let rcc = fresh_rcc();
    let cfgr = rcc.cfgr.sysclk(SysClkSource::PLL(unclocked));
    let mut flash = Parts::new();
    let clocks = cfgr.freeze(&mut flash.acr);
    assert_eq!(clocks.sysclk().0, 4_000_000);
    assert_eq!(clocks.pll_src, None);
}

#[test]
fn out_of_range_pll_fields_keep_previous_source() {
    let bad_m = PLL::new(PLLClkSource::HSI16, 0, 20, PLLOutputDiv::R(4));
    let bad_n = PLL::new(PLLClkSource::HSI16, 1, 87, PLLOutputDiv::R(4));
    let bad_div = PLL::new(PLLClkSource::HSI16, 1, 20, PLLOutputDiv::R(3));
    let bad_p_div = PLL::new(PLLClkSource::HSI16, 1, 20, PLLOutputDiv::P(8));
    for bad in [bad_m, bad_n, bad_div, bad_p_div] {
        let rcc = fresh_rcc();
        let cfgr = rcc.cfgr.sysclk(SysClkSource::PLL(bad));
        let mut flash = Parts::new();
        let clocks = cfgr.freeze(&mut flash.acr);
        assert_eq!(clocks.sysclk().0, 4_000_000);
        assert_eq!(clocks.pll_src, None);
    }
}

#[test]
fn pll_auxiliary_tap_divider_seventeen() {
    let pll = PLL::new(PLLClkSource::HSI16, 2, 17, PLLOutputDiv::P(17));
    let rcc = fresh_rcc();
    let cfgr = rcc.cfgr.sysclk(SysClkSource::PLL(pll));
    let mut flash = Parts::new();
    let clocks = cfgr.freeze(&mut flash.acr);
    // (16 MHz / 2) * 17 / 17 = 8 MHz
    assert_eq!(clocks.sysclk().0, 8_000_000);
    assert_eq!(clocks.pll_psc, Some(2));
}

#[test]
fn freeze_ok_accepts_default_and_refuses_overflowing_vco() {
    let rcc = fresh_rcc();
    assert!(rcc.cfgr.freeze_ok());

    let huge = stm32l4x6_hal::clocking::HighSpeedExternalClock::new(u32::MAX, true);
    let pll = PLL::new(PLLClkSource::HSE(huge), 1, 86, PLLOutputDiv::R(2));
    let rcc = fresh_rcc();
    let cfgr = rcc.cfgr.sysclk(SysClkSource::PLL(pll));
    assert!(!cfgr.freeze_ok());
}

#[test]
fn freeze_ok_refuses_zero_target() {
    let rcc = fresh_rcc();
    let cfgr = rcc.cfgr.pclk1(Hertz(0));
    assert!(!cfgr.freeze_ok());
}

#[test]
fn flash_latency_matches_breakpoints() {
    assert_eq!(flash_latency(0), 0);
    assert_eq!(flash_latency(15_999_999), 0);
    assert_eq!(flash_latency(16_000_000), 0);
    assert_eq!(flash_latency(16_000_001), 1);
    assert_eq!(flash_latency(31_999_999), 1);
    assert_eq!(flash_latency(32_000_000), 1);
    assert_eq!(flash_latency(32_000_001), 2);
    assert_eq!(flash_latency(48_000_000), 2);
    assert_eq!(flash_latency(48_000_001), 3);
    assert_eq!(flash_latency(64_000_000), 3);
    assert_eq!(flash_latency(64_000_001), 4);
    assert_eq!(flash_latency(80_000_000), 4);
    assert_eq!(flash_latency(u32::MAX), 4);
}

#[test]
fn lse_enable_skips_wait_when_state_unchanged() {
    let mut bdcr = BDCR::new(0, false, false, false);
    bdcr.lse_enable(true);
    assert!(bdcr.lse_is_on());
    assert!(bdcr.lse_is_ready());

    // An oscillator reported on but not yet ready: a repeated request for
    // the same state returns at once, so the ready flag is left alone.
    let mut stuck = BDCR::new(0, false, true, false);
    stuck.lse_enable(true);
    assert!(stuck.lse_is_on());
    assert!(!stuck.lse_is_ready());

    bdcr.lse_enable(false);
    assert!(!bdcr.lse_is_on());
    assert!(!bdcr.lse_is_ready());
}

#[test]
fn lsi_enable_skips_wait_when_state_unchanged() {
    let mut csr = CSR::new(false, false);
    csr.lsi_enable(true);
    assert!(csr.lsi_is_on());
    assert!(csr.lsi_is_ready());

    let mut stuck = CSR::new(true, false);
    stuck.lsi_enable(true);
    assert!(stuck.lsi_is_on());
    assert!(!stuck.lsi_is_ready());

    csr.lsi_enable(false);
    assert!(!csr.lsi_is_on());
    assert!(!csr.lsi_is_ready());
}

#[test]
fn rtc_clock_selection_latches_until_domain_reset() {
    let mut bdcr = BDCR::new(0, false, false, false);
    assert_eq!(bdcr.rtc_clock(), RtcClkSource::NoClock);

    bdcr.set_rtc_clock(RtcClkSource::LSE);
    assert_eq!(bdcr.rtc_clock(), RtcClkSource::LSE);

    // A second selection is silently ignored until the domain is reset.
    bdcr.set_rtc_clock(RtcClkSource::LSI);
    assert_eq!(bdcr.rtc_clock(), RtcClkSource::LSE);

    bdcr.reset();
    assert_eq!(bdcr.rtc_clock(), RtcClkSource::NoClock);
    bdcr.set_rtc_clock(RtcClkSource::LSI);
    assert_eq!(bdcr.rtc_clock(), RtcClkSource::LSI);
}

#[test]
fn backup_domain_reset_clears_everything() {
    let mut bdcr = BDCR::new(3, true, true, true);
    bdcr.reset();
    assert_eq!(bdcr.rtc_clock(), RtcClkSource::NoClock);
    assert!(!bdcr.rtc_is_enabled());
    assert!(!bdcr.lse_is_on());
    assert!(!bdcr.lse_is_ready());
}

#[test]
fn rtc_enable_toggles() {
    let mut bdcr = BDCR::new(0, false, false, false);
    bdcr.rtc_enable(true);
    assert!(bdcr.rtc_is_enabled());
    bdcr.rtc_enable(false);
    assert!(!bdcr.rtc_is_enabled());
}
