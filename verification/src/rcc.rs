//! Reset and clock control.
pub mod bd;
pub mod l0;
pub mod ops;
pub mod vals;

pub use bd::{BackupDomain, LseDrive, RtcClockSource};
