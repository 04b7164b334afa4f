//! An instruction-level model of the Zilog Z80 8-bit processor: a
//! register file with a packed flag byte, a flat byte-addressed memory,
//! port-mapped peripherals, and an executor for decoded instructions
//! whose effect on the machine state is specified and proved
//! instruction by instruction.

pub mod io;
pub mod laws;
pub mod mem;
pub mod ops;
pub mod regs;
pub mod sem;
pub mod z80;
