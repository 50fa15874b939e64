//! A small 32-bit x86 interpreter core: machine state, ModRM operand
//! decoding, per-opcode semantics and the one-byte opcode dispatch table.
pub mod emulator;
pub mod modrm;
pub mod instruction;
