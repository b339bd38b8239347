//! Instruction representation, decoding and the per-opcode handlers.

pub mod branch_ops;
pub mod data_proc_instructions;
pub mod instruction_decoding;
pub mod instruction_encoding;
pub mod load_store_instructions;
