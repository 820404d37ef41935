//! An interpreter for the classic 8-bit "chip" virtual machine: memory and
//! registers, the call stack, the two countdown timers, the monochrome
//! display, the instruction decoder and the fetch-decode-execute cycle.
//!
//! The machine has no clock of its own: its caller runs one cycle at a time,
//! handing over the real time elapsed since the last one and the key held
//! down, if any.
pub mod stack;
pub mod timer;
pub mod display;
pub mod decode;
pub mod machine;
pub mod rom;
pub mod config;
pub mod chip;
pub mod laws;

pub use chip::Chip8;
pub use config::Config;
pub use decode::{AluOp, Instruction, decode};
pub use machine::{CycleState, Fault, FaultKind};
pub use rom::{LoadError, Rom};
pub use stack::{StackError, StackPointer};
pub use timer::Timer;
