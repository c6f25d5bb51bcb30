//! A cycle-accurate interpreter core for the 6502 instruction set.
//!
//! The processor is an owned aggregate ([`cpu::Cpu`]) that is driven one decoded
//! [`cpu::Instruction`] at a time. Every executable function is specified against
//! a mathematical model of the processor ([`machine::Machine`]) and proved to
//! implement it.

pub mod addressing;
pub mod alu;
pub mod control;
pub mod cpu;
pub mod laws;
pub mod machine;
pub mod opcode;
pub mod parser;
pub mod stack;
pub mod status;
pub mod word;
