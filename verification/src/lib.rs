//! A 16-bit virtual machine with a 15-bit address space, eight registers,
//! an unbounded stack, and a 22-instruction opcode set, together with the
//! debugger operations built on it: breakpoints, single-stepping, running
//! to a stop, disassembly and state snapshots.

pub mod args;
pub mod cpu;
pub mod debug;
pub mod insn;
pub mod laws;
pub mod layout;
pub mod text;
