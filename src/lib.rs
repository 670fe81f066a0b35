//! A cycle-counting interpreter for the MOS 6502 instruction set, with the
//! memory bus of its host console and a Game of Life board.
pub mod addressing_modes;
pub mod instructions;
pub mod timing;
pub mod cpu_memory;
pub mod cpu;
pub mod semantics;
pub mod engine;
pub mod life;
pub mod laws;
