use embassy_stm32::rcc::l0::{
    init, init_after_csr_read, AHBPrescaler, APBPrescaler, ClockSrc, Config, MSIRange, PLLDiv,
    PLLMul, PLLSource, VoltageScale,
};
use embassy_stm32::rcc::ops::{Bdcr, BdcrUpdate, Oscillator, RegOp};
use embassy_stm32::rcc::vals::{Lsedrv, Msirange, Plldiv, Pllmul, Pllsrc, Rtcsel, Sw};
use embassy_stm32::rcc::{BackupDomain, LseDrive, RtcClockSource};
use embassy_stm32::time::Hertz;

/// What the operations do to RCC_CSR, as a register would.
fn run(mut reg: Bdcr, ops: &[RegOp]) -> Bdcr {
    for op in ops {
        match op {
            RegOp::ModifyCsr(u) => {
                if let Some(v) = u.lsion {
                    reg.lsion = v;
                }
                if let Some(v) = u.lseon {
                    reg.lseon = v;
                }
                if let Some(v) = u.lsedrv {
                    reg.lsedrv = v;
                }
                if let Some(v) = u.rtcen {
                    reg.rtcen = v;
                }
                if let Some(v) = u.rtcsel {
                    reg.rtcsel = v;
                }
            }
            RegOp::WaitLsiReady => reg.lsirdy = true,
            RegOp::WaitLseReady => reg.lserdy = true,
            _ => {}
        }
    }
    reg
}

fn reset_csr() -> Bdcr {
    Bdcr {
        lsion: false,
        lsirdy: false,
        lseon: false,
        lserdy: false,
        lsedrv: Lsedrv::LOW,
        rtcen: false,
        rtcsel: Rtcsel::NOCLOCK,
    }
}

fn unlock_ops() -> Vec<RegOp> {
    vec![
        RegOp::EnableBackupWrites,
        RegOp::WaitBackupWritesEnabled,
        RegOp::ModifyCsr(BdcrUpdate::none()),
    ]
}

#[test]
fn modify_unlocks_backup_domain_first() {
    let u = BdcrUpdate { lsion: None, lseon: Some(true), lsedrv: None, rtcen: None, rtcsel: None };
    assert_eq!(
        BackupDomain::modify(u),
        vec![RegOp::EnableBackupWrites, RegOp::WaitBackupWritesEnabled, RegOp::ModifyCsr(u)]
    );
    assert_eq!(BackupDomain::read(), RegOp::ReadCsr);
}

#[test]
fn configure_ls_prologue_starts_lsi() {
    assert_eq!(BackupDomain::configure_ls(RtcClockSource::NOCLOCK, false, None), vec![RegOp::ReadCsr]);
    let mut expected = unlock_ops();
    expected.push(RegOp::ModifyCsr(BdcrUpdate {
        lsion: Some(true),
        lseon: None,
        lsedrv: None,
        rtcen: None,
        rtcsel: None,
    }));
    expected.push(RegOp::WaitLsiReady);
    expected.push(RegOp::ReadCsr);
    let ops = BackupDomain::configure_ls(RtcClockSource::LSI, true, None);
    assert_eq!(ops, expected);
    let reg = run(reset_csr(), &ops);
    assert!(reg.lsion && reg.lsirdy);
}

#[test]
fn configure_ls_request_check() {
    assert!(!BackupDomain::ls_request_ok(RtcClockSource::LSI, false, None));
    assert!(!BackupDomain::ls_request_ok(RtcClockSource::LSE, true, None));
    assert!(BackupDomain::ls_request_ok(RtcClockSource::LSE, false, Some(LseDrive::MediumLow)));
    assert!(BackupDomain::ls_request_ok(RtcClockSource::NOCLOCK, false, None));
    assert!(BackupDomain::ls_request_ok(RtcClockSource::HSE, false, None));
}

#[test]
fn configure_ls_enables_lse_and_rtc() {
    let lse = Some(LseDrive::MediumLow);
    let ops = BackupDomain::configure_ls_after_read(RtcClockSource::LSE, lse, reset_csr());
    let mut expected = vec![
        RegOp::EnableBackupWrites,
        RegOp::WaitBackupWritesEnabled,
        RegOp::ModifyCsr(BdcrUpdate {
            lsion: None,
            lseon: Some(true),
            lsedrv: Some(Lsedrv::MEDIUMLOW),
            rtcen: None,
            rtcsel: None,
        }),
        RegOp::WaitLseReady,
        RegOp::EnableBackupWrites,
        RegOp::WaitBackupWritesEnabled,
        RegOp::ModifyCsr(BdcrUpdate {
            lsion: None,
            lseon: None,
            lsedrv: None,
            rtcen: Some(true),
            rtcsel: Some(Rtcsel::LSE),
        }),
    ];
    expected.push(RegOp::CompilerFence);
    assert_eq!(ops, expected);
    let reg = run(reset_csr(), &ops);
    assert!(reg.lseon && reg.lserdy && reg.rtcen);
    assert_eq!(reg.lsedrv, Lsedrv::MEDIUMLOW);
    assert_eq!(reg.rtcsel, Rtcsel::LSE);
}

#[test]
fn configure_ls_rtc_from_lsi_without_lse() {
    let ops = BackupDomain::configure_ls_after_read(RtcClockSource::LSI, None, reset_csr());
    assert_eq!(ops.len(), 4);
    assert_eq!(
        ops[2],
        RegOp::ModifyCsr(BdcrUpdate {
            lsion: None,
            lseon: None,
            lsedrv: None,
            rtcen: Some(true),
            rtcsel: Some(Rtcsel::LSI),
        })
    );
    assert_eq!(ops[3], RegOp::CompilerFence);
}

#[test]
fn configure_ls_leaves_matching_register_alone() {
    let reg = Bdcr {
        lseon: true,
        lserdy: true,
        lsedrv: Lsedrv::MEDIUMHIGH,
        rtcen: true,
        rtcsel: Rtcsel::LSE,
        ..reset_csr()
    };
    let ops = BackupDomain::configure_ls_after_read(
        RtcClockSource::LSE,
        Some(LseDrive::MediumHigh),
        reg,
    );
    assert_eq!(ops, unlock_ops());
    assert_eq!(run(reg, &ops), reg);
}

#[test]
fn configure_ls_rewrites_wrong_lse_drive() {
    let reg = Bdcr {
        lseon: true,
        lserdy: true,
        lsedrv: Lsedrv::MEDIUMLOW,
        rtcen: true,
        rtcsel: Rtcsel::LSE,
        ..reset_csr()
    };
    let ops = BackupDomain::configure_ls_after_read(
        RtcClockSource::LSE,
        Some(LseDrive::MediumHigh),
        reg,
    );
    assert_ne!(ops, unlock_ops());
    assert_eq!(run(reg, &ops).lsedrv, Lsedrv::MEDIUMHIGH);
}

#[test]
fn configure_ls_twice_is_configure_once() {
    let lse = Some(LseDrive::MediumHigh);
    let first = BackupDomain::configure_ls(RtcClockSource::LSE, true, lse);
    let read = run(reset_csr(), &first);
    let after = run(read, &BackupDomain::configure_ls_after_read(RtcClockSource::LSE, lse, read));
    let second = BackupDomain::configure_ls(RtcClockSource::LSE, true, lse);
    let read2 = run(after, &second);
    let ops2 = BackupDomain::configure_ls_after_read(RtcClockSource::LSE, lse, read2);
    assert_eq!(ops2, unlock_ops());
    assert_eq!(run(read2, &ops2), after);
}

#[test]
fn init_default_config() {
    let config = Config::default();
    let ops = init(&config);
    assert_eq!(
        ops,
        vec![
            RegOp::WaitVoltageScalingDone,
            RegOp::WriteVoltageScale(VoltageScale::RANGE1),
            RegOp::WaitVoltageScalingDone,
            RegOp::WriteMsiRange(Msirange::RANGE5),
            RegOp::WriteOscillatorOn(Oscillator::MSI),
            RegOp::WaitOscillatorReady(Oscillator::MSI),
            RegOp::ReadCsr,
        ]
    );
    let mut expected = unlock_ops();
    expected.push(RegOp::SetFlashLatency(false));
    expected.push(RegOp::SetSysClock(Sw::MSI, AHBPrescaler::DIV1, APBPrescaler::DIV1, APBPrescaler::DIV1));
    assert_eq!(init_after_csr_read(&config, reset_csr()), expected);
}

#[test]
fn init_pll_config_order() {
    let mut config = Config::default();
    config.mux = ClockSrc::PLL(PLLSource::HSE(Hertz(8_000_000)), PLLMul::Mul8, PLLDiv::Div2);
    config.apb1_pre = APBPrescaler::DIV2;
    let ops = init(&config);
    assert_eq!(
        &ops[3..],
        &[
            RegOp::WriteOscillatorOn(Oscillator::HSE),
            RegOp::WaitOscillatorReady(Oscillator::HSE),
            RegOp::SetPllOn(false),
            RegOp::WaitPllReady(false),
            RegOp::WritePllConfig(Pllmul::MUL8, Plldiv::DIV2, Pllsrc::HSE),
            RegOp::SetPllOn(true),
            RegOp::WaitPllReady(true),
            RegOp::ReadCsr,
        ]
    );
    let after = init_after_csr_read(&config, reset_csr());
    let n = after.len();
    assert_eq!(after[n - 2], RegOp::SetFlashLatency(true));
    assert_eq!(
        after[n - 1],
        RegOp::SetSysClock(Sw::PLL, AHBPrescaler::DIV1, APBPrescaler::DIV2, APBPrescaler::DIV1)
    );
}

#[test]
fn init_range2_latency_and_hsi48() {
    let mut config = Config::default();
    config.mux = ClockSrc::HSI16;
    config.voltage_scale = VoltageScale::RANGE2;
    config.enable_hsi48 = true;
    config.lse = Some(Hertz(32_768));
    config.rtc = Some(RtcClockSource::LSE);
    let ops = init(&config);
    assert_eq!(ops[1], RegOp::WriteVoltageScale(VoltageScale::RANGE2));
    assert_eq!(ops[3], RegOp::WriteOscillatorOn(Oscillator::HSI16));
    assert_eq!(ops[4], RegOp::WaitOscillatorReady(Oscillator::HSI16));
    let after = init_after_csr_read(&config, reset_csr());
    // LSE ops (4) + RTC ops (3) + fence, then latency and switch, then HSI48 (9)
    assert_eq!(after.len(), 8 + 2 + 9);
    assert_eq!(
        after[2],
        RegOp::ModifyCsr(BdcrUpdate {
            lsion: None,
            lseon: Some(true),
            lsedrv: Some(Lsedrv::MEDIUMHIGH),
            rtcen: None,
            rtcsel: None,
        })
    );
    assert_eq!(after[8], RegOp::SetFlashLatency(true));
    assert_eq!(after[9], RegOp::SetSysClock(Sw::HSI16, AHBPrescaler::DIV1, APBPrescaler::DIV1, APBPrescaler::DIV1));
    assert_eq!(after[10], RegOp::SetCrsReset(true));
    assert_eq!(after[18], RegOp::WaitHsi48Ready);
}
