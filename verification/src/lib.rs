//! Z80 and eZ80 emulator library.
mod counting;
mod cpu;
mod decoder_ez80;
mod environment;
mod machine;
mod opcode;
mod opcode_alu;
mod opcode_arith;
mod opcode_bits;
mod opcode_io;
mod opcode_jumps;
mod opcode_ld;
mod operators;
mod registers;
mod stack;
mod semantics;
mod state;
mod step;
mod text;

pub mod diagnostic;
pub mod disassembler;
pub mod mos;
pub mod vdp;
pub mod z80_mem_tools;

pub use cpu::Cpu;
pub use environment::Environment;
pub use machine::{same_memory, Machine, PlainMachine, PortAccess, PortLog, PLAIN_MEMORY_SIZE};
pub use registers::{Flag, Reg16, Reg8, Registers};
pub use state::{SizePrefix, State};
