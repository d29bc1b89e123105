//! Register operations: the vocabulary in which the library tells a driver
//! what to do to the hardware, and a model of what the backup-domain
//! operations do to RCC_CSR.
use vstd::prelude::*;

use super::vals::{Hpre, Lsedrv, Msirange, Plldiv, Pllmul, Pllsrc, Ppre, Rtcsel, Sw, Vos};

verus! {

/// An oscillator that can drive the system clock or the PLL.
#[derive(Clone, Copy, Debug, PartialEq, Eq, Structural)]
pub enum Oscillator {
    /// Multi-speed internal oscillator.
    MSI,
    /// 16 MHz internal oscillator.
    HSI16,
    /// External high-speed oscillator.
    HSE,
}

/// The backup-domain control bits of RCC_CSR that the clock logic reads.
#[derive(Clone, Copy, Debug, PartialEq, Eq, Structural)]
pub struct Bdcr {
    pub lsion: bool,
    pub lsirdy: bool,
    pub lseon: bool,
    pub lserdy: bool,
    pub lsedrv: Lsedrv,
    pub rtcen: bool,
    pub rtcsel: Rtcsel,
}

/// Field writes of one read-modify-write of RCC_CSR; `None` leaves a field as it is.
#[derive(Clone, Copy, Debug, PartialEq, Eq, Structural)]
pub struct BdcrUpdate {
    pub lsion: Option<bool>,
    pub lseon: Option<bool>,
    pub lsedrv: Option<Lsedrv>,
    pub rtcen: Option<bool>,
    pub rtcsel: Option<Rtcsel>,
}

pub open spec fn update_field<T>(old: T, new: Option<T>) -> T {
    match new {
        Some(v) => v,
        None => old,
    }
}

impl BdcrUpdate {
    /// An update that writes no field.
    pub fn none() -> (u: BdcrUpdate)
        ensures
            u.is_empty(),
    {
        BdcrUpdate { lsion: None, lseon: None, lsedrv: None, rtcen: None, rtcsel: None }
    }

    /// The update writes no field.
    pub open spec fn is_empty(self) -> bool {
        &&& self.lsion is None
        &&& self.lseon is None
        &&& self.lsedrv is None
        &&& self.rtcen is None
        &&& self.rtcsel is None
    }

    /// The register after the update.
    pub open spec fn apply(self, reg: Bdcr) -> Bdcr {
        Bdcr {
            lsion: update_field(reg.lsion, self.lsion),
            lsirdy: reg.lsirdy,
            lseon: update_field(reg.lseon, self.lseon),
            lserdy: reg.lserdy,
            lsedrv: update_field(reg.lsedrv, self.lsedrv),
            rtcen: update_field(reg.rtcen, self.rtcen),
            rtcsel: update_field(reg.rtcsel, self.rtcsel),
        }
    }
}

/// One operation on the clock hardware, to be performed in order.
#[derive(Clone, Copy, Debug, PartialEq, Eq)]
pub enum RegOp {
    /// Wait while PWR_CSR.VOSF is set (voltage scaling in progress).
    WaitVoltageScalingDone,
    /// Write PWR_CR with VOS set to the range, other fields at reset.
    WriteVoltageScale(Vos),
    /// Set PWR_CR.DBP (allow writes to the backup domain).
    EnableBackupWrites,
    /// Wait until PWR_CR.DBP reads set.
    WaitBackupWritesEnabled,
    /// Write RCC_ICSCR with MSIRANGE set, other fields at reset.
    WriteMsiRange(Msirange),
    /// Write RCC_CR with the oscillator's ON bit set, other fields at reset.
    WriteOscillatorOn(Oscillator),
    /// Wait until the oscillator's ready flag in RCC_CR is set.
    WaitOscillatorReady(Oscillator),
    /// Set RCC_CR.PLLON to the value, other fields unchanged.
    SetPllOn(bool),
    /// Wait until RCC_CR.PLLRDY reads the value.
    WaitPllReady(bool),
    /// Write RCC_CFGR with the PLL multiplier, divider and source, other fields at reset.
    WritePllConfig(Pllmul, Plldiv, Pllsrc),
    /// Set FLASH_ACR.LATENCY (one wait state when true), other fields unchanged.
    SetFlashLatency(bool),
    /// Set RCC_CFGR.SW, HPRE, PPRE1 and PPRE2, other fields unchanged.
    SetSysClock(Sw, Hpre, Ppre, Ppre),
    /// Read-modify-write of RCC_CSR with the field writes.
    ModifyCsr(BdcrUpdate),
    /// Wait until RCC_CSR.LSIRDY is set.
    WaitLsiReady,
    /// Wait until RCC_CSR.LSERDY is set.
    WaitLseReady,
    /// Read RCC_CSR and hand its backup-domain bits back.
    ReadCsr,
    /// A sequentially consistent compiler fence.
    CompilerFence,
    /// Set RCC_APB1RSTR.CRSRST to the value.
    SetCrsReset(bool),
    /// Set RCC_APB1ENR.CRSEN.
    EnableCrsClock,
    /// Write CRS_CFGR with LSE as synchronization source, other fields at reset.
    SelectCrsSyncLse,
    /// Set CRS_CR.AUTOTRIMEN and CRS_CR.CEN.
    EnableCrsAutotrim,
    /// Set SYSCFG_CFGR3.ENREF_HSI48 and EN_VREFINT.
    EnableHsi48Reference,
    /// Select HSI48 as the 48 MHz (USB) clock in RCC_CCIPR.
    SelectHsi48UsbClock,
    /// Set RCC_CRRCR.HSI48ON.
    EnableHsi48,
    /// Wait until RCC_CRRCR.HSI48RDY is set.
    WaitHsi48Ready,
}

/// RCC_CSR after one operation: field writes take effect, a wait for a ready
/// flag returns once the flag is set, and every other operation leaves the
/// register alone.
pub open spec fn csr_after(reg: Bdcr, op: RegOp) -> Bdcr {
    match op {
        RegOp::ModifyCsr(u) => u.apply(reg),
        RegOp::WaitLsiReady => Bdcr { lsirdy: true, ..reg },
        RegOp::WaitLseReady => Bdcr { lserdy: true, ..reg },
        _ => reg,
    }
}

/// RCC_CSR after the operations, performed in order.
pub open spec fn csr_after_all(reg: Bdcr, ops: Seq<RegOp>) -> Bdcr
    decreases ops.len(),
{
    if ops.len() == 0 {
        reg
    } else {
        csr_after_all(csr_after(reg, ops[0]), ops.drop_first())
    }
}

/// Performing two lists of operations one after the other is performing their concatenation.
pub proof fn lemma_csr_after_concat(reg: Bdcr, a: Seq<RegOp>, b: Seq<RegOp>)
    ensures
        csr_after_all(reg, a + b) == csr_after_all(csr_after_all(reg, a), b),
    decreases a.len(),
{
    if a.len() == 0 {
        assert(a + b =~= b);
    } else {
        assert((a + b).drop_first() =~= a.drop_first() + b);
        lemma_csr_after_concat(csr_after(reg, a[0]), a.drop_first(), b);
    }
}

} // verus!
