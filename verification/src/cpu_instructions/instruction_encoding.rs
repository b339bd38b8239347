//! The instruction formats, written as functions from fields to words, and
//! the proof that the decoder recovers the fields of every word built so.

use crate::bits::rotate_right;
use crate::cpu_instructions::branch_ops::BranchType;
use crate::cpu_instructions::data_proc_instructions::{
    data_processing_immediate, data_processing_register,
};
use crate::cpu_instructions::instruction_decoding::{decode_arm, shift_type_of, Instruction};
use vstd::prelude::*;

verus! {

/// A flag as the one-bit field that encodes it.
pub open spec fn flag_bit(flag: bool) -> u32 {
    if flag {
        1
    } else {
        0
    }
}

/// Whether `opcode` is one of the fourteen data-processing opcodes that have
/// a handler: every four-bit value but `1000` and `1001`.
pub open spec fn is_data_processing_opcode(opcode: u32) -> bool {
    opcode < 16 && opcode != 0b1000 && opcode != 0b1001
}

/// The word of a data-processing instruction with an immediate operand.
pub open spec fn encode_data_processing_immediate(
    cond: u32,
    opcode: u32,
    s: bool,
    rn: u32,
    rd: u32,
    rotate: u32,
    imm8: u32,
) -> u32 {
    (cond << 28) | (1u32 << 25) | (opcode << 21) | (flag_bit(s) << 20) | (rn << 16) | (rd << 12) | (
    rotate << 8) | imm8
}

/// The word of a data-processing instruction with a shifted register operand.
pub open spec fn encode_data_processing_register(
    cond: u32,
    opcode: u32,
    s: bool,
    rn: u32,
    rd: u32,
    shift_amount: u32,
    shift_code: u32,
    rm: u32,
) -> u32 {
    (cond << 28) | (opcode << 21) | (flag_bit(s) << 20) | (rn << 16) | (rd << 12) | (shift_amount
        << 7) | (shift_code << 5) | rm
}

/// The word of a single load: LDRB when `byte` is set, LDR otherwise.
pub open spec fn encode_single_load(
    cond: u32,
    pre_index: bool,
    add: bool,
    byte: bool,
    write_back: bool,
    rn: u32,
    rt: u32,
    offset: u32,
) -> u32 {
    (cond << 28) | (1u32 << 26) | (flag_bit(pre_index) << 24) | (flag_bit(add) << 23) | (flag_bit(
        byte,
    ) << 22) | (flag_bit(write_back) << 21) | (1u32 << 20) | (rn << 16) | (rt << 12) | offset
}

/// The word of LDM.
pub open spec fn encode_load_multiple(
    cond: u32,
    pre_index: bool,
    add: bool,
    write_back: bool,
    rn: u32,
    register_list: u16,
) -> u32 {
    (cond << 28) | (1u32 << 27) | (flag_bit(pre_index) << 24) | (flag_bit(add) << 23) | (flag_bit(
        write_back,
    ) << 21) | (1u32 << 20) | (rn << 16) | (register_list as u32)
}

/// The word of B, or of BL when `link` is set.
pub open spec fn encode_branch(cond: u32, link: bool, imm24: u32) -> u32 {
    (cond << 28) | (0b101u32 << 25) | (flag_bit(link) << 24) | imm24
}

/// The word of BX, or of BLX when `link` is set.
pub open spec fn encode_branch_exchange(cond: u32, link: bool, rm: u32) -> u32 {
    (cond << 28) | 0x012F_FF10 | (flag_bit(link) << 5) | rm
}

/// The word of NOP. Its low four bits are free.
pub open spec fn encode_nop(cond: u32, low: u32) -> u32 {
    (cond << 28) | 0x0320_F000 | low
}

proof fn lemma_fields_data_processing_immediate(
    cond: u32,
    opcode: u32,
    s: bool,
    rn: u32,
    rd: u32,
    rotate: u32,
    imm8: u32,
)
    by (bit_vector)
    requires
        cond < 16,
        is_data_processing_opcode(opcode),
        rn < 16,
        rd < 16,
        rotate < 16,
        imm8 < 0x100,
    ensures
        ({
            let w = encode_data_processing_immediate(cond, opcode, s, rn, rd, rotate, imm8);
            &&& w & 0x0FFF_FFF0 != 0x0320_F000
            &&& w & 0x0FFF_FFF0 != 0x012F_FF10
            &&& w & 0x0FFF_FFF0 != 0x012F_FF30
            &&& (w >> 28) & 0xF == cond
            &&& (w >> 26) & 0b11 == 0
            &&& (w >> 25) & 1 == 1
            &&& (w >> 21) & 0xF == opcode
            &&& (w >> 16) & 0xF == rn
            &&& (w >> 12) & 0xF == rd
            &&& (w >> 8) & 0xF == rotate
            &&& w & 0xFF == imm8
        }),
{
}

/// A data-processing word with an immediate operand decodes to the
/// instruction of its opcode with the fields it was built from and with the
/// immediate rotated; the flags are always updated, whatever the S bit.
pub proof fn lemma_decode_data_processing_immediate(
    cond: u32,
    opcode: u32,
    s: bool,
    rn: u32,
    rd: u32,
    rotate: u32,
    imm8: u32,
)
    requires
        cond < 16,
        is_data_processing_opcode(opcode),
        rn < 16,
        rd < 16,
        rotate < 16,
        imm8 < 0x100,
    ensures
        decode_arm(encode_data_processing_immediate(cond, opcode, s, rn, rd, rotate, imm8))
            == data_processing_immediate(
            opcode,
            rd as usize,
            rn as usize,
            rotate_right(imm8, (2 * rotate) as u32),
            encode_data_processing_immediate(cond, opcode, s, rn, rd, rotate, imm8),
        ),
        decode_arm(encode_data_processing_immediate(cond, opcode, s, rn, rd, rotate, imm8))
            !is Unknown,
{
    lemma_fields_data_processing_immediate(cond, opcode, s, rn, rd, rotate, imm8);
}

proof fn lemma_fields_data_processing_register(
    cond: u32,
    opcode: u32,
    s: bool,
    rn: u32,
    rd: u32,
    shift_amount: u32,
    shift_code: u32,
    rm: u32,
)
    by (bit_vector)
    requires
        cond < 16,
        is_data_processing_opcode(opcode),
        rn < 16,
        rd < 16,
        shift_amount < 32,
        shift_code < 4,
        rm < 16,
    ensures
        ({
            let w = encode_data_processing_register(
                cond,
                opcode,
                s,
                rn,
                rd,
                shift_amount,
                shift_code,
                rm,
            );
            &&& w & 0x0FFF_FFF0 != 0x0320_F000
            &&& w & 0x0FFF_FFF0 != 0x012F_FF10
            &&& w & 0x0FFF_FFF0 != 0x012F_FF30
            &&& (w >> 28) & 0xF == cond
            &&& (w >> 26) & 0b11 == 0
            &&& (w >> 25) & 1 == 0
            &&& (w >> 21) & 0xF == opcode
            &&& ((w >> 20) & 1 == 1) == s
            &&& (w >> 16) & 0xF == rn
            &&& (w >> 12) & 0xF == rd
            &&& (w >> 7) & 0x1F == shift_amount
            &&& (w >> 5) & 3 == shift_code
            &&& w & 0xF == rm
        }),
{
}

/// A data-processing word with a register operand decodes to the
/// instruction of its opcode with the fields it was built from; the flags
/// are updated exactly when the S bit is set.
pub proof fn lemma_decode_data_processing_register(
    cond: u32,
    opcode: u32,
    s: bool,
    rn: u32,
    rd: u32,
    shift_amount: u32,
    shift_code: u32,
    rm: u32,
)
    requires
        cond < 16,
        is_data_processing_opcode(opcode),
        rn < 16,
        rd < 16,
        shift_amount < 32,
        shift_code < 4,
        rm < 16,
    ensures
        decode_arm(
            encode_data_processing_register(cond, opcode, s, rn, rd, shift_amount, shift_code, rm),
        ) == data_processing_register(
            opcode,
            rd as usize,
            rn as usize,
            rm as usize,
            shift_type_of(shift_code),
            shift_amount as u8,
            s,
            encode_data_processing_register(cond, opcode, s, rn, rd, shift_amount, shift_code, rm),
        ),
        decode_arm(
            encode_data_processing_register(cond, opcode, s, rn, rd, shift_amount, shift_code, rm),
        ) !is Unknown,
{
    lemma_fields_data_processing_register(cond, opcode, s, rn, rd, shift_amount, shift_code, rm);
}

proof fn lemma_fields_single_load(
    cond: u32,
    pre_index: bool,
    add: bool,
    byte: bool,
    write_back: bool,
    rn: u32,
    rt: u32,
    offset: u32,
)
    by (bit_vector)
    requires
        cond < 16,
        rn < 16,
        rt < 16,
        offset < 0x1000,
    ensures
        ({
            let w = encode_single_load(cond, pre_index, add, byte, write_back, rn, rt, offset);
            &&& w & 0x0FFF_FFF0 != 0x0320_F000
            &&& w & 0x0FFF_FFF0 != 0x012F_FF10
            &&& w & 0x0FFF_FFF0 != 0x012F_FF30
            &&& (w >> 28) & 0xF == cond
            &&& (w >> 26) & 0b11 == 1
            &&& ((w >> 24) & 1 == 1) == pre_index
            &&& ((w >> 23) & 1 == 1) == add
            &&& ((w >> 22) & 1 == 1) == byte
            &&& ((w >> 21) & 1 == 1) == write_back
            &&& (w >> 20) & 1 == 1
            &&& (w >> 16) & 0xF == rn
            &&& (w >> 12) & 0xF == rt
            &&& (w >> 4) & 0xF == (offset >> 4) & 0xF
            &&& w & 0xFFF == offset
        }),
{
}

/// A single-load word decodes to a load with the fields it was built from.
/// Which load depends on the offset as well: bits 7..4 of the word belong to
/// the offset, and where they read `1010` the word is the doubleword load.
/// Otherwise it is LDRB when the byte bit is set and LDR when it is clear.
pub proof fn lemma_decode_single_load(
    cond: u32,
    pre_index: bool,
    add: bool,
    byte: bool,
    write_back: bool,
    rn: u32,
    rt: u32,
    offset: u32,
)
    requires
        cond < 16,
        rn < 16,
        rt < 16,
        offset < 0x1000,
    ensures
        decode_arm(encode_single_load(cond, pre_index, add, byte, write_back, rn, rt, offset)) == (
        if (offset >> 4) & 0xF == 0b1010 {
            Instruction::Ldrd {
                rt: rt as usize,
                rn: rn as usize,
                offset,
                pre_index,
                add,
                write_back,
            }
        } else if byte {
            Instruction::Ldrb {
                rt: rt as usize,
                rn: rn as usize,
                offset,
                pre_index,
                add,
                write_back,
            }
        } else {
            Instruction::Ldr {
                rt: rt as usize,
                rn: rn as usize,
                offset,
                pre_index,
                add,
                write_back,
            }
        }),
{
    lemma_fields_single_load(cond, pre_index, add, byte, write_back, rn, rt, offset);
}

proof fn lemma_fields_load_multiple(
    cond: u32,
    pre_index: bool,
    add: bool,
    write_back: bool,
    rn: u32,
    register_list: u16,
)
    by (bit_vector)
    requires
        cond < 16,
        rn < 16,
    ensures
        ({
            let w = encode_load_multiple(cond, pre_index, add, write_back, rn, register_list);
            &&& w & 0x0FFF_FFF0 != 0x0320_F000
            &&& w & 0x0FFF_FFF0 != 0x012F_FF10
            &&& w & 0x0FFF_FFF0 != 0x012F_FF30
            &&& (w >> 28) & 0xF == cond
            &&& (w >> 26) & 0b11 == 2
            &&& (w >> 25) & 0b111 == 0b100
            &&& ((w >> 24) & 1 == 1) == pre_index
            &&& ((w >> 23) & 1 == 1) == add
            &&& ((w >> 21) & 1 == 1) == write_back
            &&& (w >> 20) & 1 == 1
            &&& (w >> 16) & 0xF == rn
            &&& (w & 0xFFFF) as u16 == register_list
        }),
{
}

/// An LDM word decodes to LDM with the fields it was built from.
pub proof fn lemma_decode_load_multiple(
    cond: u32,
    pre_index: bool,
    add: bool,
    write_back: bool,
    rn: u32,
    register_list: u16,
)
    requires
        cond < 16,
        rn < 16,
    ensures
        decode_arm(encode_load_multiple(cond, pre_index, add, write_back, rn, register_list)) == (
        Instruction::Ldm { rn: rn as usize, register_list, pre_index, add, write_back }),
{
    lemma_fields_load_multiple(cond, pre_index, add, write_back, rn, register_list);
}

proof fn lemma_fields_branch(cond: u32, link: bool, imm24: u32)
    by (bit_vector)
    requires
        cond < 16,
        imm24 < 0x100_0000,
    ensures
        ({
            let w = encode_branch(cond, link, imm24);
            &&& w & 0x0FFF_FFF0 != 0x0320_F000
            &&& w & 0x0FFF_FFF0 != 0x012F_FF10
            &&& w & 0x0FFF_FFF0 != 0x012F_FF30
            &&& (w >> 28) & 0xF == cond
            &&& (w >> 26) & 0b11 == 2
            &&& (w >> 25) & 0b111 == 0b101
            &&& ((w >> 24) & 1 == 1) == link
            &&& w & 0x00FF_FFFF == imm24
        }),
{
}

/// A branch word decodes to B, or to BL when the link bit is set, with the
/// offset field it was built from.
pub proof fn lemma_decode_branch(cond: u32, link: bool, imm24: u32)
    requires
        cond < 16,
        imm24 < 0x100_0000,
    ensures
        decode_arm(encode_branch(cond, link, imm24)) == (Instruction::Branch {
            branch_type: if link {
                BranchType::BL
            } else {
                BranchType::B
            },
            imm24,
        }),
{
    lemma_fields_branch(cond, link, imm24);
}

proof fn lemma_fields_branch_exchange(cond: u32, link: bool, rm: u32)
    by (bit_vector)
    requires
        cond < 16,
        rm < 16,
    ensures
        ({
            let w = encode_branch_exchange(cond, link, rm);
            &&& w & 0x0FFF_FFF0 != 0x0320_F000
            &&& (w & 0x0FFF_FFF0 == 0x012F_FF10) == !link
            &&& (w & 0x0FFF_FFF0 == 0x012F_FF30) == link
            &&& (w >> 28) & 0xF == cond
            &&& w & 0xF == rm
        }),
{
}

/// A branch-exchange word decodes to BX, or to BLX when the link bit is set,
/// on the register it was built from.
pub proof fn lemma_decode_branch_exchange(cond: u32, link: bool, rm: u32)
    requires
        cond < 16,
        rm < 16,
    ensures
        decode_arm(encode_branch_exchange(cond, link, rm)) == (if link {
            Instruction::BranchLinkExchange { rm: rm as usize }
        } else {
            Instruction::BranchExchange { rm: rm as usize }
        }),
{
    lemma_fields_branch_exchange(cond, link, rm);
}

/// A NOP word decodes to NOP, under every condition.
pub proof fn lemma_decode_nop(cond: u32, low: u32)
    requires
        cond < 16,
        low < 16,
    ensures
        decode_arm(encode_nop(cond, low)) == Instruction::Nop,
{
    assert(((cond << 28) | 0x0320_F000 | low) & 0x0FFF_FFF0 == 0x0320_F000) by (bit_vector)
        requires
            cond < 16,
            low < 16,
    ;
}

/// The words that have no handler decode to `Unknown` with the word in it:
/// the whole group `11`, and the stores, which are the words of the two
/// transfer groups with bit 20 clear. (The three fixed patterns all lie in
/// group `00`.)
pub proof fn lemma_decode_unimplemented(word: u32)
    requires
        (word >> 26) & 0b11 == 0b11 || ((word >> 20) & 1 == 0 && ((word >> 26) & 0b11 == 0b01 || (
        word >> 25) & 0b111 == 0b100)),
    ensures
        decode_arm(word) == Instruction::Unknown(word),
{
    assert(((word >> 26) & 0b11 != 0 || (word >> 25) & 0b111 == 0b100) ==> {
        &&& word & 0x0FFF_FFF0 != 0x0320_F000
        &&& word & 0x0FFF_FFF0 != 0x012F_FF10
        &&& word & 0x0FFF_FFF0 != 0x012F_FF30
        &&& ((word >> 26) & 0b11 == 0b11 ==> (word >> 25) & 0b111 != 0b100 && (word >> 25) & 0b111
            != 0b101)
        &&& ((word >> 25) & 0b111 == 0b100 ==> (word >> 26) & 0b11 == 0b10)
    }) by (bit_vector);
}

} // verus!
