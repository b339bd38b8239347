//! An emulator core for a 32-bit ARM-style instruction set.
//!
//! Raw instruction words are decoded into
//! [`cpu_instructions::instruction_decoding::Instruction`] values and executed
//! against a register file, two status registers and a flat byte-addressable
//! memory. Only loads read the memory; stores, Thumb state and coprocessor
//! instructions are not implemented.
//!
//! Every executable function carries a contract, and every contract is
//! proved. The contracts speak of mathematical models: a memory is the
//! sequence of its bytes, a processor is a [`cpu::CpuModel`], and the effect of
//! each instruction is a function from model to model. The engine as a whole
//! is [`cpu::step_model`] and [`cpu::run_model`]. Beside the contracts stand
//! the laws that relate them, as proof functions: the decoder inverts the
//! instruction formats, the halt word stops a run where it stands, a fault
//! changes nothing, and so on.
//!
//! Nothing here panics. What a caller must guarantee (a register index below
//! sixteen, an address inside the memory) is a precondition of the function
//! that needs it; the engine checks these itself and reports a
//! [`cpu::EmulatorFault`] instead.

pub mod bits;
pub mod cpu;
pub mod cpu_instructions;
pub mod memory;
