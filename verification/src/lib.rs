//! A CHIP-8 virtual machine: sixteen 8-bit registers, 4 KiB of memory, a call
//! stack, two timers, a 64x32 monochrome display and a 16-key pad.
//!
//! [`vm::VM`] is the engine. Every operation on it is specified against
//! [`machine::Machine`], a mathematical picture of the machine, and the
//! instruction set is written down once, as functions on that picture, in
//! [`semantics`].
#![allow(non_snake_case)]

pub mod bits;
pub mod decode;
pub mod display;
mod entropy;
pub mod glyphs;
pub mod laws;
pub mod machine;
pub mod semantics;
pub mod vm;

pub use decode::Operands;
pub use machine::{Compatibility, Profile};
pub use semantics::VmError;
pub use vm::VM;
