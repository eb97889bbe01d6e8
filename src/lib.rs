//! An instruction-level emulator for the Zilog Z80 CPU.
//!
//! A [`Cpu`] holds the registers, the flags and a flat memory buffer. Each instruction is a
//! method that reads its operands relative to PC and updates the state in place; [`Cpu::step`]
//! decodes the bytes at PC and runs the matching method. Every instruction returns an error,
//! and leaves the state as it was, when its opcode cannot be carried out or it addresses a byte
//! outside the memory buffer.

pub mod bytes;
pub mod cpu;
pub mod registers;
pub mod reg;
pub mod operand;
pub mod alu8;
pub mod alu16;
pub mod rotate;
pub mod load;
pub mod flow;
pub mod control;
pub mod exchange;
pub mod decode;
pub mod builder;
pub mod laws;

pub use builder::CpuBuilder;
pub use bytes::{compl2, high, low, lsb, msb, promote};
pub use cpu::{Cpu, CpuError, Register, Register16, C_MASK, H_MASK, N_MASK, PV_MASK, S_MASK, Z_MASK};
pub use decode::Op;
pub use reg::{RegisterDemote, RegisterOperations, RegisterPromote, WideReg};
