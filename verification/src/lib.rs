//! An interpreter core for the ARM7TDMI processor: bit primitives, the
//! register file and status registers, the instruction model with its
//! decoder and disassembler, the barrel shifter and addressing modes, the
//! executor, and the three-stage pipeline that drives them.

pub mod arith;
pub mod bit;
pub mod bus;
pub mod cpu;
pub mod decode;
pub mod disassemble;
pub mod execute;
pub mod instruction;
pub mod interrupt_controller;
pub mod irq_input;
pub mod memory;
pub mod memory_map;
pub mod rom;
