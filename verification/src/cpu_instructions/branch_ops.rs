//! Branch instructions: B, BL, BX and BLX.

use crate::bits::{bit, lemma_field_bounds, lemma_low_bit, lemma_set_bit};
use crate::cpu::{Cpu, CpuModel, T_BIT};
use crate::cpu_instructions::instruction_decoding::Instruction;
use vstd::prelude::*;

verus! {

/// The two forms of the immediate branch.
#[derive(Debug, PartialEq, Eq, Clone, Copy, Structural)]
pub enum BranchType {
    /// Plain branch.
    B,
    /// Branch with link: the return address is saved in r14.
    BL,
}

/// The operand fields of an immediate branch.
#[derive(Debug, PartialEq, Eq, Clone, Copy, Structural)]
pub struct BranchInstruction {
    pub branch_type: BranchType,
    pub imm24: u32,
}

/// The byte offset of an immediate branch: `imm24` shifted left by two, with
/// bit 25 of that copied into the six bits above it.
pub open spec fn branch_offset(imm24: u32) -> u32 {
    let shifted = imm24 << 2;
    if bit(shifted, 25) {
        shifted | 0xFC00_0000
    } else {
        shifted
    }
}

/// The effect of B and BL: the program counter, which already points past
/// the branch, moves by the branch offset; BL first saves it in r14.
pub open spec fn branch_effect(s: CpuModel, branch_type: BranchType, imm24: u32) -> CpuModel {
    let linked = match branch_type {
        BranchType::BL => s.with_reg(14, s.pc()),
        BranchType::B => s,
    };
    linked.with_reg(15, s.pc().wrapping_add(branch_offset(imm24)))
}

/// The effect of BX: the program counter receives register `rm` with bit 0
/// cleared, and the Thumb-state flag receives that bit 0.
pub open spec fn branch_exchange_effect(s: CpuModel, rm: usize) -> CpuModel {
    let target = s.regs[rm as int];
    s.with_cpsr(s.cpsr.with_flag(T_BIT, bit(target, 0))).with_reg(15, target & 0xFFFF_FFFE)
}

/// The effect of BLX: the program counter is saved in r14, then the branch
/// is taken as for BX.
pub open spec fn branch_link_exchange_effect(s: CpuModel, rm: usize) -> CpuModel {
    branch_exchange_effect(s.with_reg(14, s.pc()), rm)
}

/// For a 24-bit field the branch offset is four times the field read as a
/// signed number, modulo 2^32: forward for fields below 2^23, backward from
/// there on.
pub proof fn lemma_branch_offset(imm24: u32)
    by (bit_vector)
    requires
        imm24 < 0x100_0000,
    ensures
        imm24 < 0x80_0000 ==> branch_offset(imm24) == 4 * imm24,
        imm24 >= 0x80_0000 ==> branch_offset(imm24) == 0x1_0000_0000 - 4 * (0x100_0000 - imm24),
{
}

/// BX and the processor mode: an odd target address sets the Thumb-state
/// flag and an even one clears it; either way the program counter receives
/// the target rounded down to an even address, and no other register and no
/// other flag changes.
pub proof fn lemma_branch_exchange(s: CpuModel, rm: usize)
    requires
        s.wf(),
        rm < 16,
    ensures
        ({
            let target = s.regs[rm as int];
            let after = branch_exchange_effect(s, rm);
            &&& after.cpsr.is_thumb_state() == (target % 2 == 1)
            &&& after.pc() == target - target % 2
            &&& after.pc() % 2 == 0
            &&& after.regs == s.regs.update(15, after.pc())
            &&& after.spsr == s.spsr
            &&& forall|m: u32| m < 32 && m != T_BIT ==> after.cpsr.flag(m) == s.cpsr.flag(m)
        }),
{
    let target = s.regs[rm as int];
    lemma_low_bit(target);
    assert forall|m: u32| m < 32 implies s.cpsr.with_flag(T_BIT, bit(target, 0)).flag(m) == (if m
        == T_BIT {
        bit(target, 0)
    } else {
        s.cpsr.flag(m)
    }) by {
        lemma_set_bit(s.cpsr.value, T_BIT, bit(target, 0), m);
    }
}

/// B and BL: the program counter moves by four times the offset field read
/// as a signed 24-bit number, modulo 2^32, from where it stands after the
/// fetch; BL leaves that earlier value in r14.
pub proof fn lemma_branch(s: CpuModel, branch_type: BranchType, imm24: u32)
    requires
        s.wf(),
        imm24 < 0x100_0000,
    ensures
        ({
            let after = branch_effect(s, branch_type, imm24);
            let distance = if imm24 < 0x80_0000 {
                4 * imm24
            } else {
                4 * (imm24 - 0x100_0000)
            };
            &&& after.pc() == (s.pc() + distance) % 0x1_0000_0000
            &&& branch_type == BranchType::BL ==> after.regs[14] == s.pc()
            &&& branch_type == BranchType::B ==> after.regs[14] == s.regs[14]
            &&& after.cpsr == s.cpsr && after.spsr == s.spsr
        }),
{
    lemma_branch_offset(imm24);
}

/// The effect of a branch instruction on the state. Any other instruction
/// leaves the state alone here.
pub open spec fn branch_instruction_effect(s: CpuModel, inst: Instruction) -> CpuModel {
    match inst {
        Instruction::Branch { branch_type, imm24 } => branch_effect(s, branch_type, imm24),
        Instruction::BranchExchange { rm } => branch_exchange_effect(s, rm),
        Instruction::BranchLinkExchange { rm } => branch_link_exchange_effect(s, rm),
        _ => s,
    }
}

/// The branch instructions, as operations on a processor.
pub trait BranchOps {
    /// The processor state that the operations act on.
    spec fn model(&self) -> CpuModel;

    /// Executes B or BL. `raw_instr` is the word the branch was decoded
    /// from; it has no influence on the result.
    fn execute_branch(&mut self, branch_type: BranchType, imm24: u32, raw_instr: u32)
        ensures
            final(self).model() == branch_effect(old(self).model(), branch_type, imm24),
    ;

    /// Executes BX on register `rm`.
    fn branch_exchange(&mut self, rm: usize)
        requires
            rm < 16,
        ensures
            final(self).model() == branch_exchange_effect(old(self).model(), rm),
    ;

    /// Executes BLX on register `rm`.
    fn branch_link_exchange(&mut self, rm: usize)
        requires
            rm < 16,
        ensures
            final(self).model() == branch_link_exchange_effect(old(self).model(), rm),
    ;
}

impl BranchOps for Cpu {
    open spec fn model(&self) -> CpuModel {
        self@
    }

    fn execute_branch(&mut self, branch_type: BranchType, imm24: u32, _raw_instr: u32) {
        let mut offset: u32 = imm24 << 2;
        if (offset >> 25) & 1 == 1 {
            offset = offset | 0xFC00_0000;
        }
        let current_pc = self.cpu_state.get_register(15);
        let target_pc = current_pc.wrapping_add(offset);
        match branch_type {
            BranchType::BL => {
                self.cpu_state.set_register(14, current_pc);
            },
            BranchType::B => {},
        }
        self.cpu_state.set_register(15, target_pc);
    }

    fn branch_exchange(&mut self, rm: usize)
        ensures
            final(self)@.cpsr.is_thumb_state() == bit(old(self)@.regs[rm as int], 0),
    {
        let target = self.cpu_state.get_register(rm);
        self.cpu_state.CPSR.set_thumb_state((target >> 0u32) & 1 == 1);
        self.cpu_state.set_register(15, target & 0xFFFF_FFFE);
    }

    fn branch_link_exchange(&mut self, rm: usize) {
        let return_address = self.cpu_state.get_register(15);
        self.cpu_state.set_register(14, return_address);
        self.branch_exchange(rm);
    }
}

impl Cpu {
    /// Executes a decoded branch instruction; `raw_instr` is the word it was
    /// decoded from. Any other instruction is left alone.
    pub fn execute_branch_instruction(&mut self, decoded: Instruction, raw_instr: u32)
        requires
            decoded.well_formed(),
        ensures
            final(self)@ == branch_instruction_effect(old(self)@, decoded),
    {
        match decoded {
            Instruction::Branch { branch_type, imm24 } => {
                self.execute_branch(branch_type, imm24, raw_instr);
            },
            Instruction::BranchExchange { rm } => {
                self.branch_exchange(rm);
            },
            Instruction::BranchLinkExchange { rm } => {
                self.branch_link_exchange(rm);
            },
            _ => {},
        }
    }
}

/// What a word decodes to when it is read as a branch.
///
/// Bits 27..25 equal to `101` select B or BL (BL when bit 24 is set) with the
/// offset in bits 23..0. Otherwise the fixed patterns of BX and BLX are
/// recognised, with `rm` in bits 3..0. Anything else is `Unknown`.
pub open spec fn spec_decode_branch(instruction: u32) -> Instruction {
    if (instruction >> 25) & 0b111 == 0b101 {
        Instruction::Branch {
            branch_type: if (instruction >> 24) & 1 == 1 {
                BranchType::BL
            } else {
                BranchType::B
            },
            imm24: instruction & 0x00FF_FFFF,
        }
    } else if instruction & 0x0FFF_FFF0 == 0x012F_FF10 {
        Instruction::BranchExchange { rm: (instruction & 0xF) as usize }
    } else if instruction & 0x0FFF_FFF0 == 0x012F_FF30 {
        Instruction::BranchLinkExchange { rm: (instruction & 0xF) as usize }
    } else {
        Instruction::Unknown(instruction)
    }
}

/// Decodes B, BL, BX and BLX.
#[verifier::when_used_as_spec(spec_decode_branch)]
pub fn decode_branch(instruction: u32) -> (decoded: Instruction)
    ensures
        decoded == spec_decode_branch(instruction),
        decoded.well_formed(),
{
    proof {
        lemma_field_bounds(instruction);
    }
    if ((instruction >> 25) & 0b111) == 0b101 {
        let branch_type = if ((instruction >> 24) & 1) == 1 {
            BranchType::BL
        } else {
            BranchType::B
        };
        let imm24: u32 = instruction & 0x00FF_FFFF;
        Instruction::Branch { branch_type, imm24 }
    } else if (instruction & 0x0FFF_FFF0) == 0x012F_FF10 {
        Instruction::BranchExchange { rm: (instruction & 0xF) as usize }
    } else if (instruction & 0x0FFF_FFF0) == 0x012F_FF30 {
        Instruction::BranchLinkExchange { rm: (instruction & 0xF) as usize }
    } else {
        Instruction::Unknown(instruction)
    }
}

} // verus!
