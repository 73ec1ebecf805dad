//! The core of a CHIP-8 virtual machine: instruction decoding, the
//! fetch-decode-execute cycle, timers, the blocking key wait and the
//! sprite-drawing framebuffer.
//!
//! Every executable function of [`cpu::Cpu`] is specified against
//! [`machine::Machine`], a purely mathematical description of the machine,
//! and proved to follow it. [`laws`] holds theorems about that description;
//! [`keypad::Keypad`] is how the machine learns which keys are held down.

pub mod cpu;
pub mod font;
pub mod keypad;
pub mod laws;
pub mod machine;
pub mod opcode;
mod random;
