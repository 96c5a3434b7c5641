//! Driver core for a quad-wide serial flash-memory interface peripheral.
//!
//! A bus transaction is described phase by phase (instruction, address,
//! alternate bytes, dummy cycles, data), each phase with its own line width.
//! The compiler turns such a descriptor into the peripheral's
//! control-register field values, and the executor drives the register-write
//! ordering and the flag-polling protocol against a register-level model of
//! the peripheral that records every bus operation it is asked to perform.

pub mod argument;
pub mod descriptor;
pub mod registers;
pub mod compile;
pub mod pins;
pub mod qspi;
