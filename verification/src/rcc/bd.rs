//! The backup domain: the low-speed oscillators (LSI, LSE) and the RTC
//! clock selection in RCC_CSR, which survive a reset.
use vstd::prelude::*;

pub use super::vals::Rtcsel as RtcClockSource;

use super::ops::{csr_after, csr_after_all, lemma_csr_after_concat, Bdcr, BdcrUpdate, RegOp};
use super::vals::Lsedrv;

verus! {

/// Drive capability of the LSE oscillator.
#[derive(Clone, Copy, Debug, PartialEq, Eq, Structural)]
pub enum LseDrive {
    MediumLow,
    MediumHigh,
}

impl LseDrive {
    /// The drive's numeric value: 0x01 for medium-low, 0x02 for medium-high,
    /// the same as its LSEDRV encoding.
    pub open spec fn value(self) -> u8 {
        match self {
            LseDrive::MediumLow => 0x01,
            LseDrive::MediumHigh => 0x02,
        }
    }

    /// The drive's numeric value.
    pub fn to_bits(self) -> (b: u8)
        ensures
            b == self.value(),
            b == lsedrv_of(self).bits(),
    {
        match self {
            LseDrive::MediumLow => 0x01,
            LseDrive::MediumHigh => 0x02,
        }
    }
}

impl Default for LseDrive {
    fn default() -> (d: LseDrive)
        ensures
            d == LseDrive::MediumHigh,
    {
        LseDrive::MediumHigh
    }
}

impl From<LseDrive> for Lsedrv {
    fn from(value: LseDrive) -> (r: Lsedrv) {
        match value {
            LseDrive::MediumLow => Lsedrv::MEDIUMLOW,
            LseDrive::MediumHigh => Lsedrv::MEDIUMHIGH,
        }
    }
}

impl vstd::std_specs::convert::FromSpecImpl<LseDrive> for Lsedrv {
    open spec fn obeys_from_spec() -> bool {
        true
    }

    open spec fn from_spec(value: LseDrive) -> Lsedrv {
        match value {
            LseDrive::MediumLow => Lsedrv::MEDIUMLOW,
            LseDrive::MediumHigh => Lsedrv::MEDIUMHIGH,
        }
    }
}

/// The LSEDRV encoding of a drive capability.
pub open spec fn lsedrv_of(d: LseDrive) -> Lsedrv {
    match d {
        LseDrive::MediumLow => Lsedrv::MEDIUMLOW,
        LseDrive::MediumHigh => Lsedrv::MEDIUMHIGH,
    }
}

/// The field writes that start the LSI.
pub open spec fn lsi_on_update() -> BdcrUpdate {
    BdcrUpdate { lsion: Some(true), lseon: None, lsedrv: None, rtcen: None, rtcsel: None }
}

/// The field writes that start the LSE with the drive capability.
pub open spec fn lse_on_update(d: LseDrive) -> BdcrUpdate {
    BdcrUpdate {
        lsion: None,
        lseon: Some(true),
        lsedrv: Some(lsedrv_of(d)),
        rtcen: None,
        rtcsel: None,
    }
}

/// The field writes that enable the RTC clock from the source.
pub open spec fn rtc_on_update(clock_source: RtcClockSource) -> BdcrUpdate {
    BdcrUpdate {
        lsion: None,
        lseon: None,
        lsedrv: None,
        rtcen: Some(true),
        rtcsel: Some(clock_source),
    }
}

/// A read-modify-write of RCC_CSR, preceded by allowing writes to the backup domain.
pub open spec fn modify_ops(update: BdcrUpdate) -> Seq<RegOp> {
    seq![RegOp::EnableBackupWrites, RegOp::WaitBackupWritesEnabled, RegOp::ModifyCsr(update)]
}

/// The request can be honoured: the LSI is requested when the RTC is to run
/// from it, and the LSE when the RTC is to run from it.
pub open spec fn ls_request_valid(
    clock_source: RtcClockSource,
    lsi: bool,
    lse: Option<LseDrive>,
) -> bool {
    &&& clock_source == RtcClockSource::LSI ==> lsi
    &&& clock_source == RtcClockSource::LSE ==> lse is Some
}

/// The RTC may run from the LSI only when the LSI is requested, whatever is
/// asked of the LSE, and from the LSE only when the LSE is requested,
/// whatever is asked of the LSI; with no clock or the HSE every request of
/// the oscillators is accepted.
pub proof fn lemma_rtc_source_needs_its_oscillator(lsi: bool, lse: Option<LseDrive>)
    ensures
        ls_request_valid(RtcClockSource::LSI, lsi, lse) <==> lsi,
        ls_request_valid(RtcClockSource::LSE, lsi, lse) <==> lse is Some,
        ls_request_valid(RtcClockSource::NOCLOCK, lsi, lse),
        ls_request_valid(RtcClockSource::HSE, lsi, lse),
{
}

/// RCC_CSR already holds the request: the RTC clock source, the RTC enabled
/// exactly when it has a source, the LSE on exactly when requested, and with
/// the requested drive.
pub open spec fn bdcr_matches(reg: Bdcr, clock_source: RtcClockSource, lse: Option<LseDrive>) -> bool {
    &&& reg.rtcsel == clock_source
    &&& reg.rtcen == (clock_source != RtcClockSource::NOCLOCK)
    &&& reg.lseon == (lse is Some)
    &&& (lse matches Some(d) ==> reg.lsedrv == lsedrv_of(d))
}

/// Operations up to and including the read of RCC_CSR: the LSI is started
/// and awaited first when it is requested.
pub open spec fn configure_ls_prologue(lsi: bool) -> Seq<RegOp> {
    if lsi {
        modify_ops(BdcrUpdate::spec_none()) + seq![
            RegOp::ModifyCsr(lsi_on_update()),
            RegOp::WaitLsiReady,
            RegOp::ReadCsr,
        ]
    } else {
        seq![RegOp::ReadCsr]
    }
}

/// Operations after RCC_CSR reads `reg`. When it already holds the request,
/// only backup-domain writes are allowed again; otherwise the LSE is started
/// with its drive and awaited when requested, the RTC clock is enabled from
/// its source when it has one, and a compiler fence ends the sequence.
pub open spec fn configure_ls_epilogue(
    clock_source: RtcClockSource,
    lse: Option<LseDrive>,
    reg: Bdcr,
) -> Seq<RegOp> {
    if bdcr_matches(reg, clock_source, lse) {
        modify_ops(BdcrUpdate::spec_none())
    } else {
        let lse_ops = match lse {
            Some(d) => modify_ops(lse_on_update(d)).push(RegOp::WaitLseReady),
            None => Seq::empty(),
        };
        let rtc_ops = if clock_source != RtcClockSource::NOCLOCK {
            modify_ops(rtc_on_update(clock_source))
        } else {
            Seq::empty()
        };
        lse_ops + rtc_ops + seq![RegOp::CompilerFence]
    }
}

impl BdcrUpdate {
    /// An update that writes no field.
    pub open spec fn spec_none() -> BdcrUpdate {
        BdcrUpdate { lsion: None, lseon: None, lsedrv: None, rtcen: None, rtcsel: None }
    }
}

/// The request can be reached from `reg` without a backup-domain reset,
/// which the STM32L0 sequence never performs: an LSE that is not requested is
/// off, and when the RTC is to have no clock it is disabled with no source
/// selected.
pub open spec fn ls_reachable_without_reset(
    reg: Bdcr,
    clock_source: RtcClockSource,
    lse: Option<LseDrive>,
) -> bool {
    &&& lse is None ==> !reg.lseon
    &&& clock_source == RtcClockSource::NOCLOCK ==> !reg.rtcen && reg.rtcsel
        == RtcClockSource::NOCLOCK
}

/// A read-modify-write of RCC_CSR leaves it as the field writes say.
pub proof fn lemma_modify_ops_effect(reg: Bdcr, update: BdcrUpdate)
    ensures
        csr_after_all(reg, modify_ops(update)) == update.apply(reg),
{
    reveal_with_fuel(csr_after_all, 4);
    let s = modify_ops(update);
    assert(s.drop_first() =~= seq![RegOp::WaitBackupWritesEnabled, RegOp::ModifyCsr(update)]);
    assert(s.drop_first().drop_first() =~= seq![RegOp::ModifyCsr(update)]);
    assert(s.drop_first().drop_first().drop_first() =~= Seq::<RegOp>::empty());
}

/// RCC_CSR after a single operation, as a one-element list.
proof fn lemma_single_op(reg: Bdcr, op: RegOp)
    ensures
        csr_after_all(reg, seq![op]) == csr_after(reg, op),
{
    reveal_with_fuel(csr_after_all, 2);
    assert(seq![op].drop_first() =~= Seq::<RegOp>::empty());
}

/// What the prologue does to RCC_CSR: it starts and awaits the LSI when
/// requested and touches no other field.
pub proof fn lemma_configure_ls_prologue_effect(reg: Bdcr, lsi: bool)
    ensures
        ({
            let r = csr_after_all(reg, configure_ls_prologue(lsi));
            &&& r == (if lsi {
                Bdcr { lsion: true, lsirdy: true, ..reg }
            } else {
                reg
            })
        }),
{
    if lsi {
        let a = modify_ops(BdcrUpdate::spec_none());
        let b = seq![RegOp::ModifyCsr(lsi_on_update()), RegOp::WaitLsiReady, RegOp::ReadCsr];
        lemma_csr_after_concat(reg, a, b);
        lemma_modify_ops_effect(reg, BdcrUpdate::spec_none());
        let r1 = BdcrUpdate::spec_none().apply(reg);
        assert(r1 == reg);
        lemma_csr_after_concat(reg, seq![RegOp::ModifyCsr(lsi_on_update())], seq![RegOp::WaitLsiReady, RegOp::ReadCsr]);
        assert(seq![RegOp::ModifyCsr(lsi_on_update())] + seq![RegOp::WaitLsiReady, RegOp::ReadCsr] =~= b);
        lemma_single_op(reg, RegOp::ModifyCsr(lsi_on_update()));
        let r2 = lsi_on_update().apply(reg);
        lemma_csr_after_concat(r2, seq![RegOp::WaitLsiReady], seq![RegOp::ReadCsr]);
        assert(seq![RegOp::WaitLsiReady] + seq![RegOp::ReadCsr] =~= seq![RegOp::WaitLsiReady, RegOp::ReadCsr]);
        lemma_single_op(r2, RegOp::WaitLsiReady);
        let r3 = csr_after(r2, RegOp::WaitLsiReady);
        lemma_single_op(r3, RegOp::ReadCsr);
    } else {
        lemma_single_op(reg, RegOp::ReadCsr);
    }
}

/// What the epilogue does to RCC_CSR when it does not already hold the
/// request: the LSE is on with its drive and ready when requested, and the
/// RTC is enabled from its source when it has one.
proof fn lemma_configure_ls_epilogue_effect(
    reg: Bdcr,
    clock_source: RtcClockSource,
    lse: Option<LseDrive>,
)
    requires
        !bdcr_matches(reg, clock_source, lse),
    ensures
        ({
            let r = csr_after_all(reg, configure_ls_epilogue(clock_source, lse, reg));
            let r_lse = match lse {
                Some(d) => Bdcr { lseon: true, lsedrv: lsedrv_of(d), lserdy: true, ..reg },
                None => reg,
            };
            r == (if clock_source != RtcClockSource::NOCLOCK {
                Bdcr { rtcen: true, rtcsel: clock_source, ..r_lse }
            } else {
                r_lse
            })
        }),
{
    let lse_ops = match lse {
        Some(d) => modify_ops(lse_on_update(d)).push(RegOp::WaitLseReady),
        None => Seq::<RegOp>::empty(),
    };
    let rtc_ops = if clock_source != RtcClockSource::NOCLOCK {
        modify_ops(rtc_on_update(clock_source))
    } else {
        Seq::<RegOp>::empty()
    };
    let fence = seq![RegOp::CompilerFence];
    lemma_csr_after_concat(reg, lse_ops + rtc_ops, fence);
    lemma_csr_after_concat(reg, lse_ops, rtc_ops);
    let r_lse = match lse {
        Some(d) => Bdcr { lseon: true, lsedrv: lsedrv_of(d), lserdy: true, ..reg },
        None => reg,
    };
    match lse {
        Some(d) => {
            let m = modify_ops(lse_on_update(d));
            assert(lse_ops =~= m + seq![RegOp::WaitLseReady]);
            lemma_csr_after_concat(reg, m, seq![RegOp::WaitLseReady]);
            lemma_modify_ops_effect(reg, lse_on_update(d));
            lemma_single_op(lse_on_update(d).apply(reg), RegOp::WaitLseReady);
        },
        None => {
            reveal_with_fuel(csr_after_all, 1);
        },
    }
    assert(csr_after_all(reg, lse_ops) == r_lse);
    if clock_source != RtcClockSource::NOCLOCK {
        lemma_modify_ops_effect(r_lse, rtc_on_update(clock_source));
    } else {
        reveal_with_fuel(csr_after_all, 1);
    }
    let r_rtc = csr_after_all(r_lse, rtc_ops);
    lemma_single_op(r_rtc, RegOp::CompilerFence);
}

/// Bringing the low-speed clocks into a request (the prologue, the read of
/// RCC_CSR, then the epilogue on what was read) leaves RCC_CSR holding the
/// request, with the LSI running when it was requested, from any register
/// contents from which the request is reachable without a backup-domain reset.
pub proof fn lemma_configure_ls_establishes_request(
    reg: Bdcr,
    clock_source: RtcClockSource,
    lsi: bool,
    lse: Option<LseDrive>,
)
    requires
        ls_request_valid(clock_source, lsi, lse),
        ls_reachable_without_reset(reg, clock_source, lse),
    ensures
        ({
            let read = csr_after_all(reg, configure_ls_prologue(lsi));
            let fin = csr_after_all(read, configure_ls_epilogue(clock_source, lse, read));
            &&& bdcr_matches(fin, clock_source, lse)
            &&& lsi ==> fin.lsion && fin.lsirdy
        }),
{
    lemma_configure_ls_prologue_effect(reg, lsi);
    let read = csr_after_all(reg, configure_ls_prologue(lsi));
    if bdcr_matches(read, clock_source, lse) {
        lemma_configure_ls_already_held(read, clock_source, lse);
    } else {
        lemma_configure_ls_epilogue_effect(read, clock_source, lse);
    }
}

/// When RCC_CSR already holds the request, the epilogue only allows
/// backup-domain writes again and leaves the register as it is.
pub proof fn lemma_configure_ls_already_held(
    reg: Bdcr,
    clock_source: RtcClockSource,
    lse: Option<LseDrive>,
)
    requires
        bdcr_matches(reg, clock_source, lse),
    ensures
        configure_ls_epilogue(clock_source, lse, reg) == modify_ops(BdcrUpdate::spec_none()),
        csr_after_all(reg, configure_ls_epilogue(clock_source, lse, reg)) == reg,
{
    lemma_modify_ops_effect(reg, BdcrUpdate::spec_none());
}

/// Configuring the low-speed clocks a second time with the same request
/// changes nothing: the register stays as the first configuration left it,
/// and when the request was reachable without a backup-domain reset the
/// second epilogue writes no field at all.
pub proof fn lemma_configure_ls_idempotent(
    reg: Bdcr,
    clock_source: RtcClockSource,
    lsi: bool,
    lse: Option<LseDrive>,
)
    requires
        ls_request_valid(clock_source, lsi, lse),
    ensures
        ({
            let read = csr_after_all(reg, configure_ls_prologue(lsi));
            let fin = csr_after_all(read, configure_ls_epilogue(clock_source, lse, read));
            let read2 = csr_after_all(fin, configure_ls_prologue(lsi));
            &&& read2 == fin
            &&& csr_after_all(read2, configure_ls_epilogue(clock_source, lse, read2)) == fin
            &&& ls_reachable_without_reset(reg, clock_source, lse) ==> configure_ls_epilogue(
                clock_source,
                lse,
                read2,
            ) == modify_ops(BdcrUpdate::spec_none())
        }),
{
    lemma_configure_ls_prologue_effect(reg, lsi);
    let read = csr_after_all(reg, configure_ls_prologue(lsi));
    if bdcr_matches(read, clock_source, lse) {
        lemma_configure_ls_already_held(read, clock_source, lse);
    } else {
        lemma_configure_ls_epilogue_effect(read, clock_source, lse);
    }
    let fin = csr_after_all(read, configure_ls_epilogue(clock_source, lse, read));
    lemma_configure_ls_prologue_effect(fin, lsi);
    let read2 = csr_after_all(fin, configure_ls_prologue(lsi));
    assert(read2 == fin);
    if bdcr_matches(read2, clock_source, lse) {
        lemma_configure_ls_already_held(read2, clock_source, lse);
    } else {
        lemma_configure_ls_epilogue_effect(read2, clock_source, lse);
    }
    if ls_reachable_without_reset(reg, clock_source, lse) {
        lemma_configure_ls_establishes_request(reg, clock_source, lsi, lse);
        lemma_configure_ls_already_held(read2, clock_source, lse);
    }
}

#[allow(dead_code)]
pub struct BackupDomain {}

impl BackupDomain {
    /// Whether the request can be honoured: the oscillator that the RTC is to
    /// run from is requested.
    pub fn ls_request_ok(clock_source: RtcClockSource, lsi: bool, lse: Option<LseDrive>) -> (ok:
        bool)
        ensures
            ok == ls_request_valid(clock_source, lsi, lse),
    {
        (clock_source != RtcClockSource::LSI || lsi) && (clock_source != RtcClockSource::LSE
            || lse.is_some())
    }

    /// Operations that modify RCC_CSR with the field writes: allow writes to
    /// the backup domain, wait until they are allowed, then read-modify-write.
    pub fn modify(update: BdcrUpdate) -> (ops: Vec<RegOp>)
        ensures
            ops@ == modify_ops(update),
    {
        let mut ops: Vec<RegOp> = Vec::new();
        ops.push(RegOp::EnableBackupWrites);
        ops.push(RegOp::WaitBackupWritesEnabled);
        ops.push(RegOp::ModifyCsr(update));
        assert(ops@ =~= modify_ops(update));
        ops
    }

    /// The operation that reads RCC_CSR.
    pub fn read() -> (op: RegOp)
        ensures
            op == RegOp::ReadCsr,
    {
        RegOp::ReadCsr
    }

    /// Operations that begin bringing the low-speed clocks into the request,
    /// ending with a read of RCC_CSR whose value goes to
    /// [`BackupDomain::configure_ls_after_read`].
    pub fn configure_ls(
        clock_source: RtcClockSource,
        lsi: bool,
        lse: Option<LseDrive>,
    ) -> (ops: Vec<RegOp>)
        requires
            ls_request_valid(clock_source, lsi, lse),
        ensures
            ops@ == configure_ls_prologue(lsi),
    {
        let mut ops: Vec<RegOp> = Vec::new();
        if lsi {
            // Disable backup domain write protection
            let mut unlock = Self::modify(BdcrUpdate::none());
            ops.append(&mut unlock);
            ops.push(
                RegOp::ModifyCsr(
                    BdcrUpdate { lsion: Some(true), lseon: None, lsedrv: None, rtcen: None, rtcsel: None },
                ),
            );
            ops.push(RegOp::WaitLsiReady);
        }
        ops.push(Self::read());
        assert(ops@ =~= configure_ls_prologue(lsi));
        ops
    }

    /// Operations that finish bringing the low-speed clocks into the request,
    /// once RCC_CSR has read `reg`.
    ///
    /// The backup-domain configuration is kept across resets and changing it
    /// needs a backup-domain reset, so nothing is written when it already
    /// holds the request.
    pub fn configure_ls_after_read(
        clock_source: RtcClockSource,
        lse: Option<LseDrive>,
        reg: Bdcr,
    ) -> (ops: Vec<RegOp>)
        requires
            clock_source == RtcClockSource::LSE ==> lse is Some,
        ensures
            ops@ == configure_ls_epilogue(clock_source, lse, reg),
    {
        // check if it's already enabled and in the source we want.
        let mut ok = true;
        ok = ok && reg.rtcsel == clock_source;
        ok = ok && reg.rtcen == (clock_source != RtcClockSource::NOCLOCK);
        ok = ok && reg.lseon == lse.is_some();
        if let Some(lse_drive) = lse {
            let drv: Lsedrv = Lsedrv::from(lse_drive);
            ok = ok && reg.lsedrv == drv;
        }
        // if configuration is OK, we're done.

        if ok {
            // RTC code assumes backup domain is unlocked
            let ops = Self::modify(BdcrUpdate::none());
            return ops;
        }
        let mut ops: Vec<RegOp> = Vec::new();
        if let Some(lse_drive) = lse {
            let mut lse_ops = Self::modify(
                BdcrUpdate {
                    lsion: None,
                    lseon: Some(true),
                    lsedrv: Some(Lsedrv::from(lse_drive)),
                    rtcen: None,
                    rtcsel: None,
                },
            );
            ops.append(&mut lse_ops);
            ops.push(RegOp::WaitLseReady);
        }
        if clock_source != RtcClockSource::NOCLOCK {
            let mut rtc_ops = Self::modify(
                BdcrUpdate {
                    lsion: None,
                    lseon: None,
                    lsedrv: None,
                    rtcen: Some(true),
                    rtcsel: Some(clock_source),
                },
            );
            ops.append(&mut rtc_ops);
        }
        ops.push(RegOp::CompilerFence);
        assert(ops@ =~= configure_ls_epilogue(clock_source, lse, reg));
        ops
    }
}

} // verus!
