//! A functional emulator for the 32-bit base integer RISC-V instruction set:
//! a bit-exact instruction codec, a register file with a 32/64-bit width mode,
//! per-instruction execution semantics over a flat byte memory, and a
//! fetch-decode-execute driver.
pub mod bits;
pub mod fault;
pub mod registers;
pub mod instructions;
pub mod encoding;
pub mod text;
pub mod isa;
pub mod emulator;
