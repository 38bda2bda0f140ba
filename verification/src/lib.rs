//! Instruction-execution core of an 8-bit (Game-Boy-class) CPU emulator:
//! a flags register with hardware-exact bit layout, a register file with
//! 16-bit pair views, a flat 64KB memory bus, a total opcode decoder over
//! the base and extended (0xCB-prefixed) opcode spaces, and the
//! fetch-decode-execute engine with bit-exact flag semantics.

pub mod flags;
pub mod registers;
pub mod bus;
pub mod instruction;
pub mod alu;
pub mod cpu;
