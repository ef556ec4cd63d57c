//! Instruction-execution core of a Sharp LR35902-class CPU: a flat 64 KiB
//! memory bus, a register file with paired 16-bit views and a flag register,
//! and a fetch-decode-execute step whose effect on the machine is stated by
//! a mathematical model of each instruction.

pub mod bus;
pub mod register;
pub mod cpu;
pub mod proofs;
pub mod fps_counter;
pub mod text;
