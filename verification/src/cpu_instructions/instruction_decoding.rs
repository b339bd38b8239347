//! The instruction representation and the top-level decoder.

use crate::bits::{lemma_field_bounds, rotate_right, rotate_right_u32};
use crate::cpu_instructions::branch_ops::{decode_branch, spec_decode_branch, BranchType};
use crate::cpu_instructions::data_proc_instructions::{
    decode_data_processing, spec_decode_data_processing,
};
use crate::cpu_instructions::load_store_instructions::{
    decode_block_data_transfer, decode_single_data_transfer, spec_decode_block_data_transfer,
    spec_decode_single_data_transfer,
};
use vstd::prelude::*;

verus! {

/// The four barrel-shifter operations.
#[derive(Debug, PartialEq, Eq, Clone, Copy, Structural)]
pub enum ShiftType {
    /// Logical shift left.
    LSL,
    /// Logical shift right.
    LSR,
    /// Arithmetic shift right.
    ASR,
    /// Rotate right.
    ROR,
}

/// A decoded instruction: one variant per supported opcode family, each with
/// exactly the operand fields that the family uses.
///
/// `rd`, `rn`, `rm` and `rt` are register indices. `imm12` is the immediate
/// operand after its rotation has been applied. `shift` and `shift_amount`
/// describe how the register operand `rm` goes through the barrel shifter.
#[derive(Debug, PartialEq, Eq, Clone, Copy, Structural)]
pub enum Instruction {
    AddImmediate { rd: usize, rn: usize, imm12: u32, set_flags: bool },
    AddRegister { rd: usize, rn: usize, rm: usize, shift: ShiftType, shift_amount: u8, set_flags: bool },
    SubImmediate { rd: usize, rn: usize, imm12: u32, set_flags: bool },
    SubRegister { rd: usize, rn: usize, rm: usize, shift: ShiftType, shift_amount: u8, set_flags: bool },
    AndImmediate { rd: usize, rn: usize, imm12: u32, set_flags: bool },
    AndRegister { rd: usize, rn: usize, rm: usize, shift: ShiftType, shift_amount: u8, set_flags: bool },
    OrrImmediate { rd: usize, rn: usize, imm12: u32, set_flags: bool },
    OrrRegister { rd: usize, rn: usize, rm: usize, shift: ShiftType, shift_amount: u8, set_flags: bool },
    MovImmediate { rd: usize, imm12: u32, set_flags: bool },
    MovRegister { rd: usize, rm: usize, shift: ShiftType, shift_amount: u8, set_flags: bool },
    AdcImmediate { rd: usize, rn: usize, imm12: u32, set_flags: bool },
    AdcRegister { rd: usize, rn: usize, rm: usize, shift: ShiftType, shift_amount: u8, set_flags: bool },
    SbcImmediate { rd: usize, rn: usize, imm12: u32, set_flags: bool },
    SbcRegister { rd: usize, rn: usize, rm: usize, shift: ShiftType, shift_amount: u8, set_flags: bool },
    EorImmediate { rd: usize, rn: usize, imm12: u32, set_flags: bool },
    EorRegister { rd: usize, rn: usize, rm: usize, shift: ShiftType, shift_amount: u8, set_flags: bool },
    BicImmediate { rd: usize, rn: usize, imm12: u32, set_flags: bool },
    BicRegister { rd: usize, rn: usize, rm: usize, shift: ShiftType, shift_amount: u8, set_flags: bool },
    CmnImmediate { rn: usize, imm12: u32 },
    CmnRegister { rn: usize, rm: usize, shift: ShiftType, shift_amount: u8 },
    CmpImmediate { rn: usize, imm12: u32 },
    CmpRegister { rn: usize, rm: usize, shift: ShiftType, shift_amount: u8 },
    MvnImmediate { rd: usize, imm12: u32, set_flags: bool },
    MvnRegister { rd: usize, rm: usize, shift: ShiftType, shift_amount: u8, set_flags: bool },
    RsbImmediate { rd: usize, rn: usize, imm12: u32, set_flags: bool },
    RsbRegister { rd: usize, rn: usize, rm: usize, shift: ShiftType, shift_amount: u8, set_flags: bool },
    RscImmediate { rd: usize, rn: usize, imm12: u32, set_flags: bool },
    RscRegister { rd: usize, rn: usize, rm: usize, shift: ShiftType, shift_amount: u8, set_flags: bool },
    /// B or BL with its 24-bit word offset.
    Branch { branch_type: BranchType, imm24: u32 },
    /// BX: branch to the address held in `rm`.
    BranchExchange { rm: usize },
    /// BLX: as BX, after saving the return address in r14.
    BranchLinkExchange { rm: usize },
    /// LDR: load a word into `rt`.
    Ldr { rt: usize, rn: usize, offset: u32, pre_index: bool, add: bool, write_back: bool },
    /// LDRB: load a byte, zero-extended, into `rt`.
    Ldrb { rt: usize, rn: usize, offset: u32, pre_index: bool, add: bool, write_back: bool },
    /// LDRD: load two consecutive words into `rt` and `rt + 1`.
    Ldrd { rt: usize, rn: usize, offset: u32, pre_index: bool, add: bool, write_back: bool },
    /// LDM: load one word into each register selected by `register_list`.
    Ldm { rn: usize, register_list: u16, pre_index: bool, add: bool, write_back: bool },
    /// An encoding that this core does not implement, with the raw word.
    Unknown(u32),
    /// No operation.
    Nop,
}

impl Instruction {
    /// Every register index is a valid one, a shift amount is below 32, a
    /// load offset fits in 12 bits, a branch offset in 24, and the immediate
    /// data-processing forms always update the flags. The decoder produces
    /// only such instructions.
    pub open spec fn well_formed(self) -> bool {
        match self {
            Instruction::AddImmediate { rd, rn, set_flags, .. }
            | Instruction::SubImmediate { rd, rn, set_flags, .. }
            | Instruction::AndImmediate { rd, rn, set_flags, .. }
            | Instruction::OrrImmediate { rd, rn, set_flags, .. }
            | Instruction::AdcImmediate { rd, rn, set_flags, .. }
            | Instruction::SbcImmediate { rd, rn, set_flags, .. }
            | Instruction::EorImmediate { rd, rn, set_flags, .. }
            | Instruction::BicImmediate { rd, rn, set_flags, .. }
            | Instruction::RsbImmediate { rd, rn, set_flags, .. }
            | Instruction::RscImmediate { rd, rn, set_flags, .. } => rd < 16 && rn < 16 && set_flags,
            Instruction::AddRegister { rd, rn, rm, shift_amount, .. }
            | Instruction::SubRegister { rd, rn, rm, shift_amount, .. }
            | Instruction::AndRegister { rd, rn, rm, shift_amount, .. }
            | Instruction::OrrRegister { rd, rn, rm, shift_amount, .. }
            | Instruction::AdcRegister { rd, rn, rm, shift_amount, .. }
            | Instruction::SbcRegister { rd, rn, rm, shift_amount, .. }
            | Instruction::EorRegister { rd, rn, rm, shift_amount, .. }
            | Instruction::BicRegister { rd, rn, rm, shift_amount, .. }
            | Instruction::RsbRegister { rd, rn, rm, shift_amount, .. }
            | Instruction::RscRegister { rd, rn, rm, shift_amount, .. } => rd < 16 && rn < 16 && rm
                < 16 && shift_amount < 32,
            Instruction::MovImmediate { rd, set_flags, .. }
            | Instruction::MvnImmediate { rd, set_flags, .. } => rd < 16 && set_flags,
            Instruction::MovRegister { rd, rm, shift_amount, .. }
            | Instruction::MvnRegister { rd, rm, shift_amount, .. } => rd < 16 && rm < 16
                && shift_amount < 32,
            Instruction::CmnImmediate { rn, .. } | Instruction::CmpImmediate { rn, .. } => rn < 16,
            Instruction::CmnRegister { rn, rm, shift_amount, .. }
            | Instruction::CmpRegister { rn, rm, shift_amount, .. } => rn < 16 && rm < 16
                && shift_amount < 32,
            Instruction::Branch { imm24, .. } => imm24 < 0x100_0000,
            Instruction::BranchExchange { rm } | Instruction::BranchLinkExchange { rm } => rm < 16,
            Instruction::Ldr { rt, rn, offset, .. }
            | Instruction::Ldrb { rt, rn, offset, .. }
            | Instruction::Ldrd { rt, rn, offset, .. } => rt < 16 && rn < 16 && offset < 0x1000,
            Instruction::Ldm { rn, .. } => rn < 16,
            Instruction::Unknown(_) | Instruction::Nop => true,
        }
    }
}

/// The shift operation selected by the two-bit field of a register operand.
pub open spec fn shift_type_of(code: u32) -> ShiftType {
    match code {
        0 => ShiftType::LSL,
        1 => ShiftType::LSR,
        2 => ShiftType::ASR,
        _ => ShiftType::ROR,
    }
}

/// The immediate operand of a data-processing word: the 8-bit value in bits
/// 7..0 rotated right by twice the 4-bit count in bits 11..8.
pub open spec fn spec_decode_rotated_immediate(instruction: u32) -> u32 {
    rotate_right(instruction & 0xFF, (2 * ((instruction >> 8) & 0xF)) as u32)
}

/// Extracts the rotated immediate operand of a data-processing word.
#[verifier::when_used_as_spec(spec_decode_rotated_immediate)]
pub fn decode_rotated_immediate(instruction: u32) -> (imm: u32)
    ensures
        imm == spec_decode_rotated_immediate(instruction),
{
    proof {
        lemma_field_bounds(instruction);
    }
    let rotate: u32 = (instruction >> 8) & 0xF;
    let imm8: u32 = instruction & 0xFF;
    rotate_right_u32(imm8, rotate * 2)
}

/// What a 32-bit word decodes to.
///
/// The three fixed patterns are tried first, in this order: NOP, BX, BLX.
/// Every other word is dispatched on its group, bits 27..26: `00` is a
/// data-processing instruction, `01` a single data transfer, `10` a block
/// data transfer (bits 27..25 equal to `100`) or a branch (`101`), and `11`
/// is not implemented. Decoding is total: a word without a handler becomes
/// `Unknown` with the word in it.
pub open spec fn spec_decode_arm(instruction: u32) -> Instruction {
    if instruction & 0x0FFF_FFF0 == 0x0320_F000 {
        Instruction::Nop
    } else if instruction & 0x0FFF_FFF0 == 0x012F_FF10 {
        Instruction::BranchExchange { rm: (instruction & 0xF) as usize }
    } else if instruction & 0x0FFF_FFF0 == 0x012F_FF30 {
        Instruction::BranchLinkExchange { rm: (instruction & 0xF) as usize }
    } else if (instruction >> 26) & 0b11 == 0b00 {
        spec_decode_data_processing(instruction)
    } else if (instruction >> 26) & 0b11 == 0b01 {
        spec_decode_single_data_transfer(instruction)
    } else if (instruction >> 25) & 0b111 == 0b100 {
        spec_decode_block_data_transfer(instruction)
    } else if (instruction >> 25) & 0b111 == 0b101 {
        spec_decode_branch(instruction)
    } else {
        Instruction::Unknown(instruction)
    }
}

/// Whatever the word, the decoded instruction is well formed.
pub proof fn lemma_decode_well_formed(instruction: u32)
    ensures
        decode_arm(instruction).well_formed(),
{
    lemma_field_bounds(instruction);
}

/// Decodes a 32-bit instruction word.
#[verifier::when_used_as_spec(spec_decode_arm)]
pub fn decode_arm(instruction: u32) -> (decoded: Instruction)
    ensures
        decoded == spec_decode_arm(instruction),
        decoded.well_formed(),
{
    proof {
        lemma_field_bounds(instruction);
    }
    if instruction & 0x0FFF_FFF0 == 0x0320_F000 {
        return Instruction::Nop;
    }
    if (instruction & 0x0FFF_FFF0) == 0x012F_FF10 {
        return Instruction::BranchExchange { rm: (instruction & 0xF) as usize };
    }
    if (instruction & 0x0FFF_FFF0) == 0x012F_FF30 {
        return Instruction::BranchLinkExchange { rm: (instruction & 0xF) as usize };
    }
    let group: u32 = (instruction >> 26) & 0b11;
    if group == 0b00 {
        decode_data_processing(instruction)
    } else if group == 0b01 {
        decode_single_data_transfer(instruction)
    } else if ((instruction >> 25) & 0b111) == 0b100 {
        decode_block_data_transfer(instruction)
    } else if ((instruction >> 25) & 0b111) == 0b101 {
        decode_branch(instruction)
    } else {
        Instruction::Unknown(instruction)
    }
}

} // verus!
