//! A small 32-bit x86 instruction-set emulator, verified against a
//! mathematical model of the machine.
//!
//! A raw flat binary is loaded at linear address 0x7C00 and executed
//! instruction by instruction against a register file, a flat byte-addressed
//! memory, a four-bit flags word, and a pair of byte queues standing for the
//! COM1 serial port. The fetch/decode/execute cycle, ModR/M operand decoding,
//! the CF/ZF/SF/OF updates on subtraction, the stack discipline of
//! CALL/RET/LEAVE/PUSH/POP, the conditional-jump family, and the BIOS
//! teletype call are all specified in `semantics` and proved here.

pub mod bios;
pub mod emulator;
pub mod instructions;
pub mod io;
pub mod laws;
pub mod modrm;
pub mod register;
pub mod semantics;
