//! A 6502 CPU core for an NES emulator, with its instruction semantics
//! stated over an abstract machine state and proved.

pub mod state;
pub mod semantics;
pub mod cpu;
mod ops;
pub mod laws;
pub mod instruction_laws;

pub use cpu::{CPU, mapped};
pub use semantics::{Fault, RunExit, StepOutcome};
