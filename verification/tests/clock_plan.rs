use embassy_stm32::rcc::l0::{
    ahb_freq, apb_freqs, flash_wait_states, AHBPrescaler, APBPrescaler, ClockSrc, Config,
    MSIRange, PLLDiv, PLLMul, PLLSource, VoltageScale, HSI_FREQ, LSI_FREQ, hsi_freq, lsi_freq,
};
use embassy_stm32::rcc::vals::{Lsedrv, Msirange, Plldiv, Pllmul, Pllsrc, Rtcsel, Sw};
use embassy_stm32::rcc::{LseDrive, RtcClockSource};
use embassy_stm32::time::Hertz;

#[test]
fn msi_range_frequencies() {
    let expected = [
        (MSIRange::Range0, 65_536),
        (MSIRange::Range1, 131_072),
        (MSIRange::Range2, 262_144),
        (MSIRange::Range3, 524_288),
        (MSIRange::Range4, 1_048_576),
        (MSIRange::Range5, 2_097_152),
        (MSIRange::Range6, 4_194_304),
    ];
    for (range, hz) in expected {
        assert_eq!(range.freq(), hz);
    }
}

#[test]
fn msi_frequency_doubles_per_range() {
    let ranges = [
        MSIRange::Range0,
        MSIRange::Range1,
        MSIRange::Range2,
        MSIRange::Range3,
        MSIRange::Range4,
        MSIRange::Range5,
        MSIRange::Range6,
    ];
    for w in ranges.windows(2) {
        assert_eq!(w[1].freq(), 2 * w[0].freq());
    }
}

#[test]
fn msi_default_is_range5() {
    assert_eq!(MSIRange::default(), MSIRange::Range5);
}

#[test]
fn oscillator_constants() {
    assert_eq!(HSI_FREQ, 16_000_000);
    assert_eq!(LSI_FREQ, 32_000);
    assert_eq!(hsi_freq(), Hertz(16_000_000));
    assert_eq!(lsi_freq(), Hertz(32_000));
}

#[test]
fn default_config_runs_msi_at_2_mhz() {
    let config = Config::default();
    assert!(config.check());
    assert_eq!(config.mux, ClockSrc::MSI(MSIRange::Range5));
    assert_eq!(config.voltage_scale, VoltageScale::RANGE1);
    assert!(config.rtc.is_none() && config.lse.is_none() && !config.lsi && !config.enable_hsi48);
    let clocks = config.clocks();
    for f in [clocks.sys, clocks.ahb1, clocks.apb1, clocks.apb2, clocks.apb1_tim, clocks.apb2_tim] {
        assert_eq!(f, Hertz(2_097_152));
    }
}

#[test]
fn sys_clk_of_each_source() {
    assert_eq!(ClockSrc::HSI16.sys_clk(), (16_000_000, Sw::HSI16));
    assert_eq!(ClockSrc::HSE(Hertz(8_000_000)).sys_clk(), (8_000_000, Sw::HSE));
    assert_eq!(ClockSrc::MSI(MSIRange::Range6).sys_clk(), (4_194_304, Sw::MSI));
    assert_eq!(
        ClockSrc::PLL(PLLSource::HSI16, PLLMul::Mul4, PLLDiv::Div2).sys_clk(),
        (32_000_000, Sw::PLL)
    );
    assert_eq!(
        ClockSrc::PLL(PLLSource::HSE(Hertz(8_000_000)), PLLMul::Mul12, PLLDiv::Div3).sys_clk(),
        (32_000_000, Sw::PLL)
    );
    // 16 MHz * 3 / 2 = 24 MHz
    assert_eq!(
        ClockSrc::PLL(PLLSource::HSI16, PLLMul::Mul3, PLLDiv::Div2).sys_clk(),
        (24_000_000, Sw::PLL)
    );
    // division rounds down: 1 Hz * 4 / 3 = 1 Hz
    assert_eq!(
        ClockSrc::PLL(PLLSource::HSE(Hertz(1)), PLLMul::Mul4, PLLDiv::Div3).sys_clk(),
        (1, Sw::PLL)
    );
}

#[test]
fn pll_above_32_mhz_is_refused() {
    let mut config = Config::default();
    config.mux = ClockSrc::PLL(PLLSource::HSI16, PLLMul::Mul6, PLLDiv::Div2);
    assert!(!config.check());
    config.mux = ClockSrc::PLL(PLLSource::HSI16, PLLMul::Mul4, PLLDiv::Div2);
    assert!(config.check());
    // the input times the multiplier must fit in 32 bits
    config.mux = ClockSrc::PLL(PLLSource::HSE(Hertz(u32::MAX / 2)), PLLMul::Mul3, PLLDiv::Div4);
    assert!(!config.check());
}

#[test]
fn rtc_source_needs_its_oscillator() {
    let mut config = Config::default();
    config.rtc = Some(RtcClockSource::LSI);
    assert!(!config.check());
    config.lsi = true;
    assert!(config.check());
    config.rtc = Some(RtcClockSource::LSE);
    assert!(!config.check());
    config.lse = Some(Hertz(32_768));
    assert!(config.check());
    config.rtc = Some(RtcClockSource::HSE);
    config.lsi = false;
    config.lse = None;
    assert!(config.check());
}

#[test]
fn ahb_prescaler_division() {
    assert_eq!(ahb_freq(32_000_000, AHBPrescaler::DIV1), 32_000_000);
    assert_eq!(ahb_freq(32_000_000, AHBPrescaler::DIV2), 16_000_000);
    assert_eq!(ahb_freq(32_000_000, AHBPrescaler::DIV4), 8_000_000);
    assert_eq!(ahb_freq(32_000_000, AHBPrescaler::DIV8), 4_000_000);
    assert_eq!(ahb_freq(32_000_000, AHBPrescaler::DIV16), 2_000_000);
    // from DIV64 up the clock plan divides by half the nominal value
    assert_eq!(ahb_freq(32_000_000, AHBPrescaler::DIV64), 1_000_000);
    assert_eq!(ahb_freq(32_000_000, AHBPrescaler::DIV128), 500_000);
    assert_eq!(ahb_freq(32_000_000, AHBPrescaler::DIV256), 250_000);
    assert_eq!(ahb_freq(32_000_000, AHBPrescaler::DIV512), 125_000);
    assert_eq!(ahb_freq(7, AHBPrescaler::DIV2), 3);
}

#[test]
fn apb_prescaler_and_timer_clock() {
    assert_eq!(apb_freqs(16_000_000, APBPrescaler::DIV1), (16_000_000, 16_000_000));
    assert_eq!(apb_freqs(16_000_000, APBPrescaler::DIV2), (8_000_000, 16_000_000));
    assert_eq!(apb_freqs(16_000_000, APBPrescaler::DIV4), (4_000_000, 8_000_000));
    assert_eq!(apb_freqs(16_000_000, APBPrescaler::DIV8), (2_000_000, 4_000_000));
    assert_eq!(apb_freqs(16_000_000, APBPrescaler::DIV16), (1_000_000, 2_000_000));
    assert_eq!(apb_freqs(u32::MAX, APBPrescaler::DIV2), (u32::MAX / 2, u32::MAX - 1));
}

#[test]
fn clock_tree_of_a_pll_config() {
    let mut config = Config::default();
    config.mux = ClockSrc::PLL(PLLSource::HSI16, PLLMul::Mul4, PLLDiv::Div2);
    config.ahb_pre = AHBPrescaler::DIV2;
    config.apb1_pre = APBPrescaler::DIV4;
    config.apb2_pre = APBPrescaler::DIV1;
    let c = config.clocks();
    assert_eq!(c.sys, Hertz(32_000_000));
    assert_eq!(c.ahb1, Hertz(16_000_000));
    assert_eq!(c.apb1, Hertz(4_000_000));
    assert_eq!(c.apb1_tim, Hertz(8_000_000));
    assert_eq!(c.apb2, Hertz(16_000_000));
    assert_eq!(c.apb2_tim, Hertz(16_000_000));
    assert!(c.apb1.0 <= c.ahb1.0 && c.ahb1.0 <= c.sys.0 && c.apb1_tim.0 <= c.ahb1.0);
}

#[test]
fn flash_wait_states_per_range() {
    assert_eq!(flash_wait_states(VoltageScale::RANGE1, 16_000_000), 0);
    assert_eq!(flash_wait_states(VoltageScale::RANGE1, 16_000_001), 1);
    assert_eq!(flash_wait_states(VoltageScale::RANGE2, 8_000_000), 0);
    assert_eq!(flash_wait_states(VoltageScale::RANGE2, 8_000_001), 1);
    assert_eq!(flash_wait_states(VoltageScale::RANGE3, 32_000_000), 0);
}

#[test]
fn field_encodings() {
    assert_eq!(Pllmul::from(PLLMul::Mul3).to_bits(), 0);
    assert_eq!(Pllmul::from(PLLMul::Mul48).to_bits(), 8);
    assert_eq!(Pllmul::from(PLLMul::Mul24), Pllmul::MUL24);
    assert_eq!(Plldiv::from(PLLDiv::Div2).to_bits(), 1);
    assert_eq!(Plldiv::from(PLLDiv::Div4).to_bits(), 3);
    assert_eq!(Pllsrc::from(PLLSource::HSI16).to_bits(), 0);
    assert_eq!(Pllsrc::from(PLLSource::HSE(Hertz(8_000_000))).to_bits(), 1);
    assert_eq!(Msirange::from(MSIRange::Range0).to_bits(), 0);
    assert_eq!(Msirange::from(MSIRange::Range6).to_bits(), 6);
    assert_eq!(Lsedrv::from(LseDrive::MediumLow).to_bits(), 1);
    assert_eq!(Lsedrv::from(LseDrive::MediumHigh).to_bits(), 2);
    assert_eq!(AHBPrescaler::DIV64.to_bits(), 0xc);
    assert_eq!(APBPrescaler::DIV16.to_bits(), 7);
    assert_eq!(VoltageScale::RANGE2.to_bits(), 2);
    assert_eq!(Sw::PLL.to_bits(), 3);
}

#[test]
fn field_decoding_roundtrip() {
    for s in [Rtcsel::NOCLOCK, Rtcsel::LSE, Rtcsel::LSI, Rtcsel::HSE] {
        assert_eq!(Rtcsel::from_bits(s.to_bits()), s);
    }
    for d in [Lsedrv::LOW, Lsedrv::MEDIUMLOW, Lsedrv::MEDIUMHIGH, Lsedrv::HIGH] {
        assert_eq!(Lsedrv::from_bits(d.to_bits()), d);
    }
    assert_eq!(Rtcsel::from_bits(0b110), Rtcsel::LSI);
    assert_eq!(Lsedrv::from_bits(0xff), Lsedrv::HIGH);
}

#[test]
fn lse_drive_default() {
    assert_eq!(LseDrive::default(), LseDrive::MediumHigh);
    assert_eq!(LseDrive::MediumLow.to_bits(), 0x01);
    assert_eq!(LseDrive::MediumHigh.to_bits(), 0x02);
}
