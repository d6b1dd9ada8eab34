//! Register-level protocol of the STM32F3 analog-to-digital converter, with
//! the quadrature encoder interface of its general-purpose timers.
//!
//! The driver decides; it does not touch memory-mapped registers itself. Each
//! request appends a register program (`regs::RegOp` steps: read-modify-write,
//! wait for a flag, delay, skip when a field already holds a value) whose exact
//! content the contracts state. The owner of the hardware runs the program in
//! order and reads the data register afterwards. The two registers of the clock
//! gate shared by a converter pair are handed in as values (`clock::SharedClock`),
//! because the decision to fail on a conflicting divider mode has to come before
//! anything is written.

pub mod adc;
pub mod clock;
pub mod qei;
pub mod regs;
