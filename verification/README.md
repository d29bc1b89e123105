# embassy_stm32 (RCC, STM32L0)

Clock configuration logic for the STM32L0 reset and clock control block,
verified with Verus.

- `src/rcc/vals.rs` — register field values and their bit encodings.
- `src/rcc/ops.rs` — `RegOp`, the register operations the library plans, and
  a model of what the backup-domain operations do to RCC_CSR.
- `src/rcc/bd.rs` — the backup domain: LSI/LSE and RTC clock selection
  (`BackupDomain::configure_ls` and `configure_ls_after_read`), with proofs
  that the planned operations establish the request whenever it is reachable
  without a backup-domain reset (which the L0 sequence never performs), and
  that configuring again with the same request leaves the register as it is.
- `src/rcc/l0.rs` — `Config`, the clock-tree frequencies (`Config::clocks`),
  and the operation plan that applies a configuration (`init`,
  `init_after_csr_read`), with proofs about frequencies and ordering.
- `app/` — performs the planned operations on the hardware through
  `stm32-metapac` and hands register reads back to the library.
