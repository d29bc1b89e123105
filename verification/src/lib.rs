//! Clock configuration logic for the STM32L0 reset and clock control (RCC)
//! block: the frequency plan of the system and bus clocks, the register field
//! encodings, and the sequence of register operations that brings the clock
//! tree and the backup (RTC) domain into a requested configuration.
//!
//! The library never touches hardware itself. It hands out register
//! operations (`rcc::ops::RegOp`) which a driver performs in order; where a
//! decision depends on what the hardware reports, the driver hands the value
//! back and the library decides the rest.
pub mod rcc;
pub mod time;
