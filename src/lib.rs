//! An emulator for a 16-bit educational instruction-set architecture: memory,
//! register file, instruction decoding and execution, and system-call traps.

pub mod bits;
pub mod console;
pub mod instructions;
pub mod memory;
pub mod opcode;
pub mod registers;
pub mod trap;
pub mod vm;

pub use bits::sign_extend;
pub use console::{Console, Terminal};
pub use memory::Memory;
pub use opcode::Opcode;
pub use registers::{CondFlag, Registers};
pub use vm::Vm;
