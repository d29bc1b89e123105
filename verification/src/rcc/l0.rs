//! Clock tree of the STM32L0: its configuration, the frequencies that a
//! configuration yields, and the register operations that apply it.
use vstd::arithmetic::power2::{lemma2_to64, pow2};
use vstd::bits::{lemma_u32_shl_is_mul, lemma_u8_shl_is_mul};
use vstd::prelude::*;
use vstd::std_specs::convert::FromSpec;

pub use super::vals::Vos as VoltageScale;
pub use super::vals::{Hpre as AHBPrescaler, Ppre as APBPrescaler};

use super::bd::{
    configure_ls_epilogue, configure_ls_prologue, ls_request_valid, BackupDomain, LseDrive,
};
use super::ops::{Bdcr, Oscillator, RegOp};
use super::vals::{Msirange, Plldiv, Pllmul, Pllsrc, Sw};
use super::RtcClockSource;
use crate::time::Hertz;

verus! {

/// HSI speed, in Hz
pub const HSI_FREQ: u32 = 16_000_000;

/// LSI speed, in Hz
pub const LSI_FREQ: u32 = 32_000;

/// HSI speed
pub fn hsi_freq() -> (f: Hertz)
    ensures
        f.hz() == HSI_FREQ,
{
    Hertz(HSI_FREQ)
}

/// LSI speed
pub fn lsi_freq() -> (f: Hertz)
    ensures
        f.hz() == LSI_FREQ,
{
    Hertz(LSI_FREQ)
}

/// System clock mux source
#[derive(Clone, Copy, Debug, PartialEq, Eq)]
pub enum ClockSrc {
    MSI(MSIRange),
    PLL(PLLSource, PLLMul, PLLDiv),
    HSE(Hertz),
    HSI16,
}

/// MSI Clock Range
///
/// These ranges control the frequency of the MSI. Internally, these ranges map
/// to the `MSIRANGE` bits in the `RCC_ICSCR` register.
#[derive(Clone, Copy, Debug, PartialEq, Eq)]
pub enum MSIRange {
    /// Around 65.536 kHz
    Range0,
    /// Around 131.072 kHz
    Range1,
    /// Around 262.144 kHz
    Range2,
    /// Around 524.288 kHz
    Range3,
    /// Around 1.048 MHz
    Range4,
    /// Around 2.097 MHz (reset value)
    Range5,
    /// Around 4.194 MHz
    Range6,
}

impl MSIRange {
    /// Position of the range, from 0 for `Range0` to 6 for `Range6`.
    pub open spec fn index(self) -> nat {
        match self {
            MSIRange::Range0 => 0,
            MSIRange::Range1 => 1,
            MSIRange::Range2 => 2,
            MSIRange::Range3 => 3,
            MSIRange::Range4 => 4,
            MSIRange::Range5 => 5,
            MSIRange::Range6 => 6,
        }
    }

    /// The MSI frequency, in Hz, that the clock plan uses for the range.
    pub open spec fn spec_freq(self) -> nat {
        match self {
            MSIRange::Range0 => 65_536,
            MSIRange::Range1 => 131_072,
            MSIRange::Range2 => 262_144,
            MSIRange::Range3 => 524_288,
            MSIRange::Range4 => 1_048_576,
            MSIRange::Range5 => 2_097_152,
            MSIRange::Range6 => 4_194_304,
        }
    }

    /// The MSI frequency in Hz: 32768 Hz times two to the power of the range's position plus one.
    pub fn freq(self) -> (f: u32)
        ensures
            f == self.spec_freq(),
    {
        let idx: u32 = match self {
            MSIRange::Range0 => 0,
            MSIRange::Range1 => 1,
            MSIRange::Range2 => 2,
            MSIRange::Range3 => 3,
            MSIRange::Range4 => 4,
            MSIRange::Range5 => 5,
            MSIRange::Range6 => 6,
        };
        let shift: u32 = idx + 1;
        proof {
            lemma2_to64();
            lemma_u32_shl_is_mul(1u32, shift);
        }
        let p: u32 = 1u32 << shift;
        32_768 * p
    }
}

impl Default for MSIRange {
    fn default() -> (r: MSIRange)
        ensures
            r == MSIRange::Range5,
    {
        MSIRange::Range5
    }
}

/// PLL divider
#[derive(Clone, Copy, Debug, PartialEq, Eq)]
pub enum PLLDiv {
    Div2,
    Div3,
    Div4,
}

impl PLLDiv {
    /// The divisor.
    pub open spec fn divisor(self) -> nat {
        match self {
            PLLDiv::Div2 => 2,
            PLLDiv::Div3 => 3,
            PLLDiv::Div4 => 4,
        }
    }
}

/// PLL multiplier
#[derive(Clone, Copy, Debug, PartialEq, Eq)]
pub enum PLLMul {
    Mul3,
    Mul4,
    Mul6,
    Mul8,
    Mul12,
    Mul16,
    Mul24,
    Mul32,
    Mul48,
}

impl PLLMul {
    /// The multiplication factor.
    pub open spec fn factor(self) -> nat {
        match self {
            PLLMul::Mul3 => 3,
            PLLMul::Mul4 => 4,
            PLLMul::Mul6 => 6,
            PLLMul::Mul8 => 8,
            PLLMul::Mul12 => 12,
            PLLMul::Mul16 => 16,
            PLLMul::Mul24 => 24,
            PLLMul::Mul32 => 32,
            PLLMul::Mul48 => 48,
        }
    }
}

/// PLL clock input source
#[derive(Clone, Copy, Debug, PartialEq, Eq)]
pub enum PLLSource {
    HSI16,
    HSE(Hertz),
}

impl PLLSource {
    /// Frequency of the PLL's input, in Hz.
    pub open spec fn spec_freq(self) -> nat {
        match self {
            PLLSource::HSI16 => HSI_FREQ as nat,
            PLLSource::HSE(f) => f.hz(),
        }
    }
}

impl From<PLLMul> for Pllmul {
    fn from(val: PLLMul) -> (r: Pllmul) {
        match val {
            PLLMul::Mul3 => Pllmul::MUL3,
            PLLMul::Mul4 => Pllmul::MUL4,
            PLLMul::Mul6 => Pllmul::MUL6,
            PLLMul::Mul8 => Pllmul::MUL8,
            PLLMul::Mul12 => Pllmul::MUL12,
            PLLMul::Mul16 => Pllmul::MUL16,
            PLLMul::Mul24 => Pllmul::MUL24,
            PLLMul::Mul32 => Pllmul::MUL32,
            PLLMul::Mul48 => Pllmul::MUL48,
        }
    }
}

impl vstd::std_specs::convert::FromSpecImpl<PLLMul> for Pllmul {
    open spec fn obeys_from_spec() -> bool {
        true
    }

    open spec fn from_spec(val: PLLMul) -> Pllmul {
        match val {
            PLLMul::Mul3 => Pllmul::MUL3,
            PLLMul::Mul4 => Pllmul::MUL4,
            PLLMul::Mul6 => Pllmul::MUL6,
            PLLMul::Mul8 => Pllmul::MUL8,
            PLLMul::Mul12 => Pllmul::MUL12,
            PLLMul::Mul16 => Pllmul::MUL16,
            PLLMul::Mul24 => Pllmul::MUL24,
            PLLMul::Mul32 => Pllmul::MUL32,
            PLLMul::Mul48 => Pllmul::MUL48,
        }
    }
}

impl From<PLLDiv> for Plldiv {
    fn from(val: PLLDiv) -> (r: Plldiv) {
        match val {
            PLLDiv::Div2 => Plldiv::DIV2,
            PLLDiv::Div3 => Plldiv::DIV3,
            PLLDiv::Div4 => Plldiv::DIV4,
        }
    }
}

impl vstd::std_specs::convert::FromSpecImpl<PLLDiv> for Plldiv {
    open spec fn obeys_from_spec() -> bool {
        true
    }

    open spec fn from_spec(val: PLLDiv) -> Plldiv {
        match val {
            PLLDiv::Div2 => Plldiv::DIV2,
            PLLDiv::Div3 => Plldiv::DIV3,
            PLLDiv::Div4 => Plldiv::DIV4,
        }
    }
}

impl From<PLLSource> for Pllsrc {
    fn from(val: PLLSource) -> (r: Pllsrc) {
        match val {
            PLLSource::HSI16 => Pllsrc::HSI16,
            PLLSource::HSE(_) => Pllsrc::HSE,
        }
    }
}

impl vstd::std_specs::convert::FromSpecImpl<PLLSource> for Pllsrc {
    open spec fn obeys_from_spec() -> bool {
        true
    }

    open spec fn from_spec(val: PLLSource) -> Pllsrc {
        match val {
            PLLSource::HSI16 => Pllsrc::HSI16,
            PLLSource::HSE(_) => Pllsrc::HSE,
        }
    }
}

impl From<MSIRange> for Msirange {
    fn from(val: MSIRange) -> (r: Msirange) {
        match val {
            MSIRange::Range0 => Msirange::RANGE0,
            MSIRange::Range1 => Msirange::RANGE1,
            MSIRange::Range2 => Msirange::RANGE2,
            MSIRange::Range3 => Msirange::RANGE3,
            MSIRange::Range4 => Msirange::RANGE4,
            MSIRange::Range5 => Msirange::RANGE5,
            MSIRange::Range6 => Msirange::RANGE6,
        }
    }
}

impl vstd::std_specs::convert::FromSpecImpl<MSIRange> for Msirange {
    open spec fn obeys_from_spec() -> bool {
        true
    }

    open spec fn from_spec(val: MSIRange) -> Msirange {
        match val {
            MSIRange::Range0 => Msirange::RANGE0,
            MSIRange::Range1 => Msirange::RANGE1,
            MSIRange::Range2 => Msirange::RANGE2,
            MSIRange::Range3 => Msirange::RANGE3,
            MSIRange::Range4 => Msirange::RANGE4,
            MSIRange::Range5 => Msirange::RANGE5,
            MSIRange::Range6 => Msirange::RANGE6,
        }
    }
}

/// Highest PLL output frequency that the clock plan accepts, in Hz.
pub const PLL_MAX_FREQ: u32 = 32_000_000;

/// PLL output frequency in Hz: the input frequency times the multiplier,
/// divided (rounding down) by the divider.
pub open spec fn pll_freq(src: PLLSource, mul: PLLMul, div: PLLDiv) -> nat {
    (src.spec_freq() * mul.factor()) / div.divisor()
}

impl ClockSrc {
    /// The selection can be used: a PLL's input times its multiplier fits in
    /// 32 bits and the PLL output is at most 32 MHz.
    pub open spec fn is_valid(self) -> bool {
        match self {
            ClockSrc::PLL(src, mul, div) => {
                &&& src.spec_freq() * mul.factor() <= u32::MAX
                &&& pll_freq(src, mul, div) <= PLL_MAX_FREQ
            },
            _ => true,
        }
    }

    /// System clock frequency in Hz.
    pub open spec fn spec_sys_clk(self) -> nat {
        match self {
            ClockSrc::MSI(range) => range.spec_freq(),
            ClockSrc::HSI16 => HSI_FREQ as nat,
            ClockSrc::HSE(f) => f.hz(),
            ClockSrc::PLL(src, mul, div) => pll_freq(src, mul, div),
        }
    }

    /// The system clock switch setting that selects this source.
    pub open spec fn spec_sw(self) -> Sw {
        match self {
            ClockSrc::MSI(_) => Sw::MSI,
            ClockSrc::HSI16 => Sw::HSI16,
            ClockSrc::HSE(_) => Sw::HSE,
            ClockSrc::PLL(..) => Sw::PLL,
        }
    }

    /// System clock frequency and system clock switch setting.
    pub fn sys_clk(&self) -> (r: (u32, Sw))
        requires
            self.is_valid(),
        ensures
            r.0 == self.spec_sys_clk(),
            r.1 == self.spec_sw(),
    {
        match *self {
            ClockSrc::MSI(range) => (range.freq(), Sw::MSI),
            ClockSrc::HSI16 => (HSI_FREQ, Sw::HSI16),
            ClockSrc::HSE(freq) => (freq.0, Sw::HSE),
            ClockSrc::PLL(src, mul, div) => {
                let freq = match src {
                    PLLSource::HSE(freq) => freq.0,
                    PLLSource::HSI16 => HSI_FREQ,
                };
                let freq = match mul {
                    PLLMul::Mul3 => freq * 3,
                    PLLMul::Mul4 => freq * 4,
                    PLLMul::Mul6 => freq * 6,
                    PLLMul::Mul8 => freq * 8,
                    PLLMul::Mul12 => freq * 12,
                    PLLMul::Mul16 => freq * 16,
                    PLLMul::Mul24 => freq * 24,
                    PLLMul::Mul32 => freq * 32,
                    PLLMul::Mul48 => freq * 48,
                };
                let freq = match div {
                    PLLDiv::Div2 => freq / 2,
                    PLLDiv::Div3 => freq / 3,
                    PLLDiv::Div4 => freq / 4,
                };
                (freq, Sw::PLL)
            },
        }
    }
}

/// Flash wait states that the voltage range needs at the system clock
/// frequency: one above 16 MHz in range 1, one above 8 MHz in range 2, none
/// in range 3.
pub open spec fn spec_flash_wait_states(voltage_scale: VoltageScale, sys_clk: nat) -> nat {
    match voltage_scale {
        VoltageScale::RANGE1 => if sys_clk <= 16_000_000 { 0 } else { 1 },
        VoltageScale::RANGE2 => if sys_clk <= 8_000_000 { 0 } else { 1 },
        VoltageScale::RANGE3 => 0,
    }
}

pub fn flash_wait_states(voltage_scale: VoltageScale, sys_clk: u32) -> (ws: u32)
    ensures
        ws == spec_flash_wait_states(voltage_scale, sys_clk as nat),
{
    match voltage_scale {
        VoltageScale::RANGE1 => if sys_clk <= 16_000_000 { 0 } else { 1 },
        VoltageScale::RANGE2 => if sys_clk <= 8_000_000 { 0 } else { 1 },
        VoltageScale::RANGE3 => 0,
    }
}

/// What the AHB clock is divided by: 1 when not divided, otherwise two to
/// the power of the HPRE encoding minus 7.
pub open spec fn ahb_divisor(pre: AHBPrescaler) -> nat {
    if pre == AHBPrescaler::DIV1 {
        1
    } else {
        pow2((pre.bits() - 7) as nat)
    }
}

/// AHB clock frequency in Hz for the system clock frequency and the prescaler.
pub fn ahb_freq(sys_clk: u32, pre: AHBPrescaler) -> (f: u32)
    ensures
        f == sys_clk as nat / ahb_divisor(pre),
{
    match pre {
        AHBPrescaler::DIV1 => sys_clk,
        pre => {
            let shift: u32 = pre.to_bits() as u32 - 7;
            proof {
                lemma2_to64();
                lemma_u32_shl_is_mul(1u32, shift);
            }
            let pre: u32 = 1u32 << shift;
            sys_clk / pre
        },
    }
}

/// What an APB clock is divided by: 1 when not divided, otherwise two to
/// the power of the PPRE encoding minus 3.
pub open spec fn apb_divisor(pre: APBPrescaler) -> nat {
    if pre == APBPrescaler::DIV1 {
        1
    } else {
        pow2((pre.bits() - 3) as nat)
    }
}

/// APB clock frequency in Hz for the AHB frequency and the prescaler.
pub open spec fn spec_apb_freq(ahb: nat, pre: APBPrescaler) -> nat {
    ahb / apb_divisor(pre)
}

/// Frequency of the timers on an APB bus in Hz: the bus frequency when the
/// bus is not divided, twice the bus frequency when it is.
pub open spec fn spec_apb_tim_freq(ahb: nat, pre: APBPrescaler) -> nat {
    if pre == APBPrescaler::DIV1 {
        ahb
    } else {
        2 * spec_apb_freq(ahb, pre)
    }
}

/// APB frequency and APB timer frequency in Hz for the AHB frequency and the prescaler.
pub fn apb_freqs(ahb_freq: u32, pre: APBPrescaler) -> (r: (u32, u32))
    ensures
        r.0 == spec_apb_freq(ahb_freq as nat, pre),
        r.1 == spec_apb_tim_freq(ahb_freq as nat, pre),
{
    match pre {
        APBPrescaler::DIV1 => (ahb_freq, ahb_freq),
        pre => {
            let shift: u8 = pre.to_bits() - 3;
            proof {
                lemma2_to64();
                lemma_u8_shl_is_mul(1u8, shift);
            }
            let pre: u8 = 1 << shift;
            let freq = ahb_freq / pre as u32;
            assert(freq * 2 <= ahb_freq) by (nonlinear_arith)
                requires
                    freq == ahb_freq / (pre as u32),
                    pre >= 2,
            ;
            (freq, freq * 2)
        },
    }
}

/// Frequencies of the clock tree.
#[derive(Clone, Copy, Debug, PartialEq, Eq, Structural)]
pub struct Clocks {
    pub sys: Hertz,
    pub ahb1: Hertz,
    pub apb1: Hertz,
    pub apb2: Hertz,
    pub apb1_tim: Hertz,
    pub apb2_tim: Hertz,
}

/// Clocks configutation
pub struct Config {
    pub mux: ClockSrc,
    pub ahb_pre: AHBPrescaler,
    pub apb1_pre: APBPrescaler,
    pub apb2_pre: APBPrescaler,
    pub enable_hsi48: bool,
    pub rtc: Option<RtcClockSource>,
    pub lse: Option<Hertz>,
    pub lsi: bool,
    pub voltage_scale: VoltageScale,
}

impl Default for Config {
    #[inline]
    fn default() -> (c: Config)
        ensures
            c.mux == ClockSrc::MSI(MSIRange::Range5),
            c.ahb_pre == AHBPrescaler::DIV1,
            c.apb1_pre == APBPrescaler::DIV1,
            c.apb2_pre == APBPrescaler::DIV1,
            !c.enable_hsi48,
            c.rtc is None,
            c.lse is None,
            !c.lsi,
            c.voltage_scale == VoltageScale::RANGE1,
    {
        Config {
            mux: ClockSrc::MSI(MSIRange::default()),
            ahb_pre: AHBPrescaler::DIV1,
            apb1_pre: APBPrescaler::DIV1,
            apb2_pre: APBPrescaler::DIV1,
            enable_hsi48: false,
            rtc: None,
            lse: None,
            lsi: false,
            voltage_scale: VoltageScale::RANGE1,
        }
    }
}

impl Config {
    /// The RTC clock source that the configuration asks for.
    pub open spec fn rtc_source(&self) -> RtcClockSource {
        match self.rtc {
            Some(s) => s,
            None => RtcClockSource::NOCLOCK,
        }
    }

    /// The LSE request: the default drive when an LSE frequency is given.
    pub open spec fn lse_drive(&self) -> Option<LseDrive> {
        match self.lse {
            Some(_) => Some(LseDrive::MediumHigh),
            None => None,
        }
    }

    /// The configuration can be applied: its system clock source is valid and
    /// the oscillator that the RTC is to run from is requested.
    pub open spec fn is_valid(&self) -> bool {
        &&& self.mux.is_valid()
        &&& ls_request_valid(self.rtc_source(), self.lsi, self.lse_drive())
    }

    /// Whether the configuration can be applied.
    pub fn check(&self) -> (ok: bool)
        ensures
            ok == self.is_valid(),
    {
        let mux_ok = match self.mux {
            ClockSrc::PLL(src, mul, div) => {
                let f: u64 = match src {
                    PLLSource::HSE(freq) => freq.0 as u64,
                    PLLSource::HSI16 => HSI_FREQ as u64,
                };
                let m: u64 = match mul {
                    PLLMul::Mul3 => 3,
                    PLLMul::Mul4 => 4,
                    PLLMul::Mul6 => 6,
                    PLLMul::Mul8 => 8,
                    PLLMul::Mul12 => 12,
                    PLLMul::Mul16 => 16,
                    PLLMul::Mul24 => 24,
                    PLLMul::Mul32 => 32,
                    PLLMul::Mul48 => 48,
                };
                let d: u64 = match div {
                    PLLDiv::Div2 => 2,
                    PLLDiv::Div3 => 3,
                    PLLDiv::Div4 => 4,
                };
                assert(f * m <= u32::MAX * 48) by (nonlinear_arith)
                    requires
                        f <= u32::MAX,
                        m <= 48,
                ;
                let prod = f * m;
                prod <= u32::MAX as u64 && prod / d <= PLL_MAX_FREQ as u64
            },
            _ => true,
        };
        let rtc = match self.rtc {
            Some(s) => s,
            None => RtcClockSource::NOCLOCK,
        };
        let lse = match self.lse {
            Some(_) => Some(LseDrive::default()),
            None => None,
        };
        mux_ok && BackupDomain::ls_request_ok(rtc, self.lsi, lse)
    }

    /// Frequencies of the clock tree under the configuration.
    pub open spec fn spec_clocks(&self) -> Clocks {
        let sys = self.mux.spec_sys_clk();
        let ahb = sys / ahb_divisor(self.ahb_pre);
        Clocks {
            sys: Hertz(sys as u32),
            ahb1: Hertz(ahb as u32),
            apb1: Hertz(spec_apb_freq(ahb, self.apb1_pre) as u32),
            apb2: Hertz(spec_apb_freq(ahb, self.apb2_pre) as u32),
            apb1_tim: Hertz(spec_apb_tim_freq(ahb, self.apb1_pre) as u32),
            apb2_tim: Hertz(spec_apb_tim_freq(ahb, self.apb2_pre) as u32),
        }
    }

    /// Frequencies of the clock tree under the configuration.
    pub fn clocks(&self) -> (c: Clocks)
        requires
            self.mux.is_valid(),
        ensures
            c == self.spec_clocks(),
            c.sys.hz() == self.mux.spec_sys_clk(),
            c.ahb1.hz() == self.mux.spec_sys_clk() / ahb_divisor(self.ahb_pre),
            c.apb1.hz() == spec_apb_freq(c.ahb1.hz(), self.apb1_pre),
            c.apb2.hz() == spec_apb_freq(c.ahb1.hz(), self.apb2_pre),
            c.apb1_tim.hz() == spec_apb_tim_freq(c.ahb1.hz(), self.apb1_pre),
            c.apb2_tim.hz() == spec_apb_tim_freq(c.ahb1.hz(), self.apb2_pre),
    {
        let (sys_clk, _sw) = self.mux.sys_clk();
        let ahb_freq: u32 = ahb_freq(sys_clk, self.ahb_pre);
        let (apb1_freq, apb1_tim_freq) = apb_freqs(ahb_freq, self.apb1_pre);
        let (apb2_freq, apb2_tim_freq) = apb_freqs(ahb_freq, self.apb2_pre);
        Clocks {
            sys: Hertz(sys_clk),
            ahb1: Hertz(ahb_freq),
            apb1: Hertz(apb1_freq),
            apb2: Hertz(apb2_freq),
            apb1_tim: Hertz(apb1_tim_freq),
            apb2_tim: Hertz(apb2_tim_freq),
        }
    }
}

/// The oscillator that drives the PLL from the source.
pub open spec fn pll_oscillator(src: PLLSource) -> Oscillator {
    match src {
        PLLSource::HSI16 => Oscillator::HSI16,
        PLLSource::HSE(_) => Oscillator::HSE,
    }
}

/// Operations that set the voltage range: wait until no scaling is in
/// progress, write the range, wait again.
pub open spec fn voltage_ops(vos: VoltageScale) -> Seq<RegOp> {
    seq![RegOp::WaitVoltageScalingDone, RegOp::WriteVoltageScale(vos), RegOp::WaitVoltageScalingDone]
}

/// Operations that start the system clock source and wait until it is ready.
/// For the PLL: start its input oscillator and wait for it, stop the PLL and
/// wait until it is unlocked, write its multiplier, divider and source, then
/// start it and wait until it is locked.
pub open spec fn sys_source_ops(mux: ClockSrc) -> Seq<RegOp> {
    match mux {
        ClockSrc::MSI(range) => seq![
            RegOp::WriteMsiRange(Msirange::from_spec(range)),
            RegOp::WriteOscillatorOn(Oscillator::MSI),
            RegOp::WaitOscillatorReady(Oscillator::MSI),
        ],
        ClockSrc::HSI16 => seq![
            RegOp::WriteOscillatorOn(Oscillator::HSI16),
            RegOp::WaitOscillatorReady(Oscillator::HSI16),
        ],
        ClockSrc::HSE(_) => seq![
            RegOp::WriteOscillatorOn(Oscillator::HSE),
            RegOp::WaitOscillatorReady(Oscillator::HSE),
        ],
        ClockSrc::PLL(src, mul, div) => seq![
            RegOp::WriteOscillatorOn(pll_oscillator(src)),
            RegOp::WaitOscillatorReady(pll_oscillator(src)),
            RegOp::SetPllOn(false),
            RegOp::WaitPllReady(false),
            RegOp::WritePllConfig(Pllmul::from_spec(mul), Plldiv::from_spec(div), Pllsrc::from_spec(src)),
            RegOp::SetPllOn(true),
            RegOp::WaitPllReady(true),
        ],
    }
}

/// Operations that start the HSI48 oscillator for USB, trimmed by the clock
/// recovery system from the LSE.
pub open spec fn hsi48_ops() -> Seq<RegOp> {
    seq![
        RegOp::SetCrsReset(true),
        RegOp::SetCrsReset(false),
        RegOp::EnableCrsClock,
        RegOp::SelectCrsSyncLse,
        RegOp::EnableCrsAutotrim,
        RegOp::EnableHsi48Reference,
        RegOp::SelectHsi48UsbClock,
        RegOp::EnableHsi48,
        RegOp::WaitHsi48Ready,
    ]
}

/// Operations that apply a configuration, up to and including the read of RCC_CSR.
pub open spec fn init_ops(config: Config) -> Seq<RegOp> {
    voltage_ops(config.voltage_scale) + sys_source_ops(config.mux) + configure_ls_prologue(
        config.lsi,
    )
}

/// Operations that finish applying a configuration once RCC_CSR has read
/// `reg`: finish the low-speed clocks, set the flash latency for the new
/// system clock frequency, switch the system clock and set the bus
/// prescalers, then start the HSI48 when it is asked for.
pub open spec fn init_after_read_ops(config: Config, reg: Bdcr) -> Seq<RegOp> {
    let ws = spec_flash_wait_states(config.voltage_scale, config.mux.spec_sys_clk());
    configure_ls_epilogue(config.rtc_source(), config.lse_drive(), reg) + seq![
        RegOp::SetFlashLatency(ws != 0),
        RegOp::SetSysClock(config.mux.spec_sw(), config.ahb_pre, config.apb1_pre, config.apb2_pre),
    ] + if config.enable_hsi48 {
        hsi48_ops()
    } else {
        Seq::empty()
    }
}

/// Operations that begin applying the configuration; the last one reads
/// RCC_CSR, whose value goes to [`init_after_csr_read`].
pub fn init(config: &Config) -> (ops: Vec<RegOp>)
    requires
        config.is_valid(),
    ensures
        ops@ == init_ops(*config),
{
    let mut ops: Vec<RegOp> = Vec::new();
    // Set voltage scale
    ops.push(RegOp::WaitVoltageScalingDone);
    ops.push(RegOp::WriteVoltageScale(config.voltage_scale));
    ops.push(RegOp::WaitVoltageScalingDone);
    match config.mux {
        ClockSrc::MSI(range) => {
            // Set MSI range
            ops.push(RegOp::WriteMsiRange(range.into()));
            // Enable MSI
            ops.push(RegOp::WriteOscillatorOn(Oscillator::MSI));
            ops.push(RegOp::WaitOscillatorReady(Oscillator::MSI));
        },
        ClockSrc::HSI16 => {
            // Enable HSI16
            ops.push(RegOp::WriteOscillatorOn(Oscillator::HSI16));
            ops.push(RegOp::WaitOscillatorReady(Oscillator::HSI16));
        },
        ClockSrc::HSE(_) => {
            // Enable HSE
            ops.push(RegOp::WriteOscillatorOn(Oscillator::HSE));
            ops.push(RegOp::WaitOscillatorReady(Oscillator::HSE));
        },
        ClockSrc::PLL(src, mul, div) => {
            let osc = match src {
                PLLSource::HSE(_) => Oscillator::HSE,
                PLLSource::HSI16 => Oscillator::HSI16,
            };
            // Enable the PLL's input oscillator
            ops.push(RegOp::WriteOscillatorOn(osc));
            ops.push(RegOp::WaitOscillatorReady(osc));
            // Disable PLL
            ops.push(RegOp::SetPllOn(false));
            ops.push(RegOp::WaitPllReady(false));
            ops.push(RegOp::WritePllConfig(mul.into(), div.into(), src.into()));
            // Enable PLL
            ops.push(RegOp::SetPllOn(true));
            ops.push(RegOp::WaitPllReady(true));
        },
    }
    let rtc = match config.rtc {
        Some(s) => s,
        None => RtcClockSource::NOCLOCK,
    };
    let lse = match config.lse {
        Some(_) => Some(LseDrive::default()),
        None => None,
    };
    let mut ls_ops = BackupDomain::configure_ls(rtc, config.lsi, lse);
    ops.append(&mut ls_ops);
    assert(ops@ =~= init_ops(*config));
    ops
}

/// Operations that finish applying the configuration once RCC_CSR has read `reg`.
#[verifier::rlimit(40)]
pub fn init_after_csr_read(config: &Config, reg: Bdcr) -> (ops: Vec<RegOp>)
    requires
        config.is_valid(),
    ensures
        ops@ == init_after_read_ops(*config, reg),
{
    let rtc = match config.rtc {
        Some(s) => s,
        None => RtcClockSource::NOCLOCK,
    };
    let lse = match config.lse {
        Some(_) => Some(LseDrive::default()),
        None => None,
    };
    let mut ops = BackupDomain::configure_ls_after_read(rtc, lse, reg);
    let (sys_clk, sw) = config.mux.sys_clk();
    let wait_states = flash_wait_states(config.voltage_scale, sys_clk);
    ops.push(RegOp::SetFlashLatency(wait_states != 0));
    ops.push(RegOp::SetSysClock(sw, config.ahb_pre, config.apb1_pre, config.apb2_pre));
    if config.enable_hsi48 {
        // Reset CRS peripheral
        ops.push(RegOp::SetCrsReset(true));
        ops.push(RegOp::SetCrsReset(false));
        // Enable CRS peripheral
        ops.push(RegOp::EnableCrsClock);
        // Select LSE as synchronization source
        ops.push(RegOp::SelectCrsSyncLse);
        ops.push(RegOp::EnableCrsAutotrim);
        // Enable VREFINT reference for HSI48 oscillator
        ops.push(RegOp::EnableHsi48Reference);
        // Select HSI48 as USB clock
        ops.push(RegOp::SelectHsi48UsbClock);
        // Enable dedicated USB clock
        ops.push(RegOp::EnableHsi48);
        ops.push(RegOp::WaitHsi48Ready);
    }
    assert(ops@ =~= init_after_read_ops(*config, reg));
    ops
}

/// Each MSI range runs at twice the frequency of the one below it, from
/// 65 536 Hz for `Range0`.
pub proof fn lemma_msi_freq_doubles(lower: MSIRange, upper: MSIRange)
    ensures
        MSIRange::Range0.spec_freq() == 65_536,
        upper.index() == lower.index() + 1 ==> upper.spec_freq() == 2 * lower.spec_freq(),
{
}

/// What the prescalers divide by: each APB prescaler and the AHB prescaler
/// up to DIV16 divide by the number in their name; from DIV64 up, the AHB
/// clock computed here is divided by half that number, because the HPRE
/// encoding skips a value between DIV16 and DIV64.
pub proof fn lemma_prescaler_divisors()
    ensures
        ahb_divisor(AHBPrescaler::DIV1) == 1,
        ahb_divisor(AHBPrescaler::DIV2) == 2,
        ahb_divisor(AHBPrescaler::DIV4) == 4,
        ahb_divisor(AHBPrescaler::DIV8) == 8,
        ahb_divisor(AHBPrescaler::DIV16) == 16,
        ahb_divisor(AHBPrescaler::DIV64) == 32,
        ahb_divisor(AHBPrescaler::DIV128) == 64,
        ahb_divisor(AHBPrescaler::DIV256) == 128,
        ahb_divisor(AHBPrescaler::DIV512) == 256,
        apb_divisor(APBPrescaler::DIV1) == 1,
        apb_divisor(APBPrescaler::DIV2) == 2,
        apb_divisor(APBPrescaler::DIV4) == 4,
        apb_divisor(APBPrescaler::DIV8) == 8,
        apb_divisor(APBPrescaler::DIV16) == 16,
{
    lemma2_to64();
}

/// The clock tree only divides on the way down: the AHB clock is at most the
/// system clock, each APB clock at most the AHB clock, and each APB timer
/// clock equals the AHB clock when its bus is not divided and twice the bus
/// clock (still at most the AHB clock) when it is. A PLL-driven system clock
/// is at most 32 MHz.
pub proof fn lemma_clock_tree_bounds(config: Config)
    requires
        config.mux.is_valid(),
    ensures
        ({
            let sys = config.mux.spec_sys_clk();
            let ahb = sys / ahb_divisor(config.ahb_pre);
            &&& sys <= u32::MAX
            &&& config.mux is PLL ==> sys <= PLL_MAX_FREQ
            &&& ahb <= sys
            &&& spec_apb_freq(ahb, config.apb1_pre) <= ahb
            &&& spec_apb_freq(ahb, config.apb2_pre) <= ahb
            &&& spec_apb_tim_freq(ahb, config.apb1_pre) <= ahb
            &&& spec_apb_tim_freq(ahb, config.apb2_pre) <= ahb
            &&& config.apb1_pre != APBPrescaler::DIV1 ==> spec_apb_tim_freq(ahb, config.apb1_pre)
                == 2 * spec_apb_freq(ahb, config.apb1_pre)
            &&& config.apb2_pre != APBPrescaler::DIV1 ==> spec_apb_tim_freq(ahb, config.apb2_pre)
                == 2 * spec_apb_freq(ahb, config.apb2_pre)
        }),
{
    lemma_prescaler_divisors();
    let sys = config.mux.spec_sys_clk();
    let ahb = sys / ahb_divisor(config.ahb_pre);
    assert(ahb <= sys) by (nonlinear_arith)
        requires
            ahb == sys / ahb_divisor(config.ahb_pre),
            ahb_divisor(config.ahb_pre) >= 1,
    ;
    lemma_apb_bounds(ahb, config.apb1_pre);
    lemma_apb_bounds(ahb, config.apb2_pre);
}

proof fn lemma_apb_bounds(ahb: nat, pre: APBPrescaler)
    ensures
        spec_apb_freq(ahb, pre) <= ahb,
        spec_apb_tim_freq(ahb, pre) <= ahb,
{
    lemma_prescaler_divisors();
    let d = apb_divisor(pre);
    let f = ahb / d;
    assert(f <= ahb && (d >= 2 ==> 2 * f <= ahb)) by (nonlinear_arith)
        requires
            f == ahb / d,
            d >= 1,
    ;
}

/// The operation that reports the system clock source ready: the PLL locked
/// for the PLL, the oscillator's ready flag otherwise.
pub open spec fn source_ready_op(mux: ClockSrc) -> RegOp {
    match mux {
        ClockSrc::MSI(_) => RegOp::WaitOscillatorReady(Oscillator::MSI),
        ClockSrc::HSI16 => RegOp::WaitOscillatorReady(Oscillator::HSI16),
        ClockSrc::HSE(_) => RegOp::WaitOscillatorReady(Oscillator::HSE),
        ClockSrc::PLL(..) => RegOp::WaitPllReady(true),
    }
}

/// Applying a configuration switches the system clock only after its source
/// is ready: the wait for the source comes in the first part, which ends with
/// the read of RCC_CSR and holds no switch; in the second part the switch
/// comes right after the flash latency is set for the new frequency. The
/// PLL, when used, is configured only between being stopped and unlocked and
/// being started again.
pub proof fn lemma_init_switches_after_source_ready(config: Config, reg: Bdcr)
    requires
        config.is_valid(),
    ensures
        ({
            let a = init_ops(config);
            let b = init_after_read_ops(config, reg);
            let ws = spec_flash_wait_states(config.voltage_scale, config.mux.spec_sys_clk());
            &&& exists|i: int| 0 <= i < a.len() && a[i] == source_ready_op(config.mux)
            &&& a.last() == RegOp::ReadCsr
            &&& forall|i: int| 0 <= i < a.len() ==> !(a[i] is SetSysClock)
            &&& exists|j: int|
                0 < j < b.len() && b[j - 1] == RegOp::SetFlashLatency(ws != 0) && #[trigger] b[j]
                    == RegOp::SetSysClock(
                    config.mux.spec_sw(),
                    config.ahb_pre,
                    config.apb1_pre,
                    config.apb2_pre,
                )
            &&& config.mux matches ClockSrc::PLL(src, mul, div) ==> exists|k: int|
                0 < k && k + 1 < a.len() && a[k - 1] == RegOp::WaitPllReady(false) && #[trigger] a[k]
                    == RegOp::WritePllConfig(
                    Pllmul::from_spec(mul),
                    Plldiv::from_spec(div),
                    Pllsrc::from_spec(src),
                ) && a[k + 1] == RegOp::SetPllOn(true)
        }),
{
    let a = init_ops(config);
    let b = init_after_read_ops(config, reg);
    let v = voltage_ops(config.voltage_scale);
    let s = sys_source_ops(config.mux);
    let p = configure_ls_prologue(config.lsi);
    assert(a == v + s + p);
    let i: int = (3 + s.len() - 1) as int;
    assert(a[i] == source_ready_op(config.mux));
    assert(a.last() == RegOp::ReadCsr);
    assert forall|i: int| 0 <= i < a.len() implies !(a[i] is SetSysClock) by {
        if i < 3 {
            assert(a[i] == v[i]);
        } else if i < 3 + s.len() {
            assert(a[i] == s[i - 3]);
        } else {
            assert(a[i] == p[i - 3 - s.len()]);
        }
    }
    let e = configure_ls_epilogue(config.rtc_source(), config.lse_drive(), reg);
    let j: int = (e.len() + 1) as int;
    assert(b[j] == RegOp::SetSysClock(
        config.mux.spec_sw(),
        config.ahb_pre,
        config.apb1_pre,
        config.apb2_pre,
    ));
    if config.mux is PLL {
        let k: int = 7;
        assert(a[k] == s[4]);
    }
}

/// Applying a configuration starts exactly one oscillator, the one the
/// system clock runs from: MSI, HSI16 or HSE for those sources, and for the
/// PLL its input, HSI16 for `PLLSource::HSI16` and HSE for `PLLSource::HSE`.
/// The operations wait for that oscillator after starting it, and for the
/// PLL both come before the PLL is configured.
pub proof fn lemma_init_starts_source_oscillator(config: Config)
    requires
        config.is_valid(),
    ensures
        ({
            let a = init_ops(config);
            let osc = match config.mux {
                ClockSrc::MSI(_) => Oscillator::MSI,
                ClockSrc::HSI16 => Oscillator::HSI16,
                ClockSrc::HSE(_) => Oscillator::HSE,
                ClockSrc::PLL(PLLSource::HSI16, _, _) => Oscillator::HSI16,
                ClockSrc::PLL(PLLSource::HSE(_), _, _) => Oscillator::HSE,
            };
            &&& forall|i: int|
                0 <= i < a.len() && #[trigger] a[i] is WriteOscillatorOn ==> a[i]
                    == RegOp::WriteOscillatorOn(osc)
            &&& exists|i: int, j: int|
                0 <= i < j < a.len() && #[trigger] a[i] == RegOp::WriteOscillatorOn(osc)
                    && #[trigger] a[j] == RegOp::WaitOscillatorReady(osc)
                    && (config.mux is PLL ==> forall|k: int|
                    0 <= k < a.len() && #[trigger] a[k] is WritePllConfig ==> j < k)
        }),
{
    let a = init_ops(config);
    let v = voltage_ops(config.voltage_scale);
    let s = sys_source_ops(config.mux);
    let p = configure_ls_prologue(config.lsi);
    assert(a == v + s + p);
    let osc = match config.mux {
        ClockSrc::MSI(_) => Oscillator::MSI,
        ClockSrc::HSI16 => Oscillator::HSI16,
        ClockSrc::HSE(_) => Oscillator::HSE,
        ClockSrc::PLL(PLLSource::HSI16, _, _) => Oscillator::HSI16,
        ClockSrc::PLL(PLLSource::HSE(_), _, _) => Oscillator::HSE,
    };
    assert forall|i: int| 0 <= i < a.len() && #[trigger] a[i] is WriteOscillatorOn implies a[i]
        == RegOp::WriteOscillatorOn(osc) by {
        if i < 3 {
            assert(a[i] == v[i]);
        } else if i < 3 + s.len() {
            assert(a[i] == s[i - 3]);
        } else {
            assert(a[i] == p[i - 3 - s.len()]);
        }
    }
    let i: int = if config.mux is MSI { 4 } else { 3 };
    let j: int = i + 1;
    assert(a[i] == RegOp::WriteOscillatorOn(osc));
    assert(a[j] == RegOp::WaitOscillatorReady(osc));
    if config.mux is PLL {
        assert forall|k: int| 0 <= k < a.len() && #[trigger] a[k] is WritePllConfig implies j < k by {
            if k < 3 {
                assert(a[k] == v[k]);
            } else if k < 3 + s.len() {
                assert(a[k] == s[k - 3]);
            } else {
                assert(a[k] == p[k - 3 - s.len()]);
            }
        }
    }
}

/// When the HSI48 is enabled, the clock recovery system is put into reset
/// and then released before it is configured, and is not put back into
/// reset afterwards.
pub proof fn lemma_init_releases_crs_before_configuring(config: Config, reg: Bdcr)
    requires
        config.is_valid(),
        config.enable_hsi48,
    ensures
        ({
            let b = init_after_read_ops(config, reg);
            exists|q: int, r: int, k: int|
                0 <= q < r < k < b.len() && #[trigger] b[q] == RegOp::SetCrsReset(true)
                    && #[trigger] b[r] == RegOp::SetCrsReset(false) && #[trigger] b[k]
                    == RegOp::SelectCrsSyncLse && forall|i: int|
                    r < i < b.len() ==> !(#[trigger] b[i] is SetCrsReset)
        }),
{
    let b = init_after_read_ops(config, reg);
    let e = configure_ls_epilogue(config.rtc_source(), config.lse_drive(), reg);
    let h = hsi48_ops();
    let ws = spec_flash_wait_states(config.voltage_scale, config.mux.spec_sys_clk());
    let m = seq![
        RegOp::SetFlashLatency(ws != 0),
        RegOp::SetSysClock(config.mux.spec_sw(), config.ahb_pre, config.apb1_pre, config.apb2_pre),
    ];
    assert(b == e + m + h);
    let q: int = (e.len() + 2) as int;
    assert(b[q] == h[0]);
    assert(b[q + 1] == h[1]);
    assert(b[q + 3] == h[3]);
    assert forall|i: int| q + 1 < i < b.len() implies !(#[trigger] b[i] is SetCrsReset) by {
        assert(b[i] == h[i - q]);
    }
}

/// The PLL output is its input times the multiplier named by `PLLMul`,
/// divided (rounding down) by the divider named by `PLLDiv`. The multiplier
/// is 3 or 4 times a power of two fixed by the PLLMUL encoding, and the
/// divider is the PLLDIV encoding plus one.
pub proof fn lemma_pll_output(src: PLLSource, mul: PLLMul, div: PLLDiv)
    ensures
        ({
            let out = ClockSrc::PLL(src, mul, div).spec_sys_clk();
            let input = match src {
                PLLSource::HSI16 => 16_000_000,
                PLLSource::HSE(f) => f.0 as nat,
            };
            let n: nat = match mul {
                PLLMul::Mul3 => 3,
                PLLMul::Mul4 => 4,
                PLLMul::Mul6 => 6,
                PLLMul::Mul8 => 8,
                PLLMul::Mul12 => 12,
                PLLMul::Mul16 => 16,
                PLLMul::Mul24 => 24,
                PLLMul::Mul32 => 32,
                PLLMul::Mul48 => 48,
            };
            let d: nat = match div {
                PLLDiv::Div2 => 2,
                PLLDiv::Div3 => 3,
                PLLDiv::Div4 => 4,
            };
            let bits = Pllmul::from_spec(mul).bits();
            &&& out == input * n / d
            &&& n == (if bits % 2 == 0 { 3nat } else { 4nat }) * pow2((bits / 2) as nat)
            &&& d == Plldiv::from_spec(div).bits() + 1
            &&& out * d <= input * n < (out + 1) * d
        }),
{
    lemma2_to64();
    let out = ClockSrc::PLL(src, mul, div).spec_sys_clk();
    let input: nat = match src {
        PLLSource::HSI16 => 16_000_000,
        PLLSource::HSE(f) => f.0 as nat,
    };
    let x = input * mul.factor();
    let d = div.divisor();
    assert(out == x / d);
    assert(out * d <= x < (out + 1) * d) by (nonlinear_arith)
        requires
            out == x / d,
            d > 0,
    ;
}

/// Flash wait states by system clock frequency: in voltage range 1 every
/// frequency above 16 MHz needs one and every frequency up to it none; in
/// range 2 the same with 8 MHz; range 3 needs none. A faster clock never
/// needs fewer wait states.
pub proof fn lemma_flash_wait_states(vos: VoltageScale, f: nat, g: nat)
    ensures
        vos == VoltageScale::RANGE1 ==> (spec_flash_wait_states(vos, f) == 1 <==> f
            > 16_000_000),
        vos == VoltageScale::RANGE2 ==> (spec_flash_wait_states(vos, f) == 1 <==> f
            > 8_000_000),
        vos == VoltageScale::RANGE3 ==> spec_flash_wait_states(vos, f) == 0,
        spec_flash_wait_states(vos, f) <= 1,
        f <= g ==> spec_flash_wait_states(vos, f) <= spec_flash_wait_states(vos, g),
{
}

/// The system clock switch selects the configured source, and the system
/// clock frequency is that source's: the MSI at 32768 Hz times two to the
/// power of its MSIRANGE encoding plus one, 16 MHz for the HSI16, the given
/// frequency for the HSE. The PLL source encoding is 1 exactly for the HSE.
pub proof fn lemma_sys_clock_source(mux: ClockSrc)
    ensures
        mux matches ClockSrc::MSI(r) ==> mux.spec_sw() == Sw::MSI && mux.spec_sys_clk() == 32_768
            * pow2((Msirange::from_spec(r).bits() + 1) as nat),
        mux is HSI16 ==> mux.spec_sw() == Sw::HSI16 && mux.spec_sys_clk() == 16_000_000,
        mux matches ClockSrc::HSE(f) ==> mux.spec_sw() == Sw::HSE && mux.spec_sys_clk() == f.0,
        mux matches ClockSrc::PLL(src, _, _) ==> mux.spec_sw() == Sw::PLL && Pllsrc::from_spec(
            src,
        ).bits() == (if src is HSE {
            1u8
        } else {
            0u8
        }),
{
    lemma2_to64();
}

} // verus!
