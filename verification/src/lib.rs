//! A minimal virtual CPU: 64 bytes of memory, two 8-bit registers, a program
//! counter, and a fetch-decode-execute loop over four instructions.
//!
//! Every executable function carries a contract over a mathematical model of
//! the machine ([`MachineState`]); the contracts are proved by Verus.

pub mod command;
pub mod cpu;
pub mod machine;
pub mod theorems;

pub use command::{Command, Fault};
pub use cpu::{Execution, CPU};
pub use machine::{MachineState, RunOutcome, Stop, MEMORY_SIZE, REGISTER_COUNT};
