//! A verified CHIP-8 virtual machine core.
//!
//! The machine fetches 16-bit instruction words from a byte-addressable
//! memory, decodes them into a fixed instruction set, and executes them
//! against CPU state: sixteen 8-bit registers, a program counter, an index
//! register, a call stack, two down-counting timers, a 16-key keypad and a
//! monochrome XOR-drawn framebuffer.
//!
//! Every state transition is specified against a mathematical model of the
//! machine ([`machine::MachineModel`]) and proved to follow it.

pub mod command;
pub mod display;
pub mod key;
pub mod machine;
pub mod memory;
pub mod reg;
pub mod stack;
pub mod timer;
