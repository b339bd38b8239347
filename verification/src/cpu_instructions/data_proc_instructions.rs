//! Data-processing instructions: their decoder and their handlers.

use crate::bits::{lemma_field_bounds, sign, signed, wrap};
use crate::cpu::{barrel_shift, Cpu, CpuModel};
use crate::cpu_instructions::instruction_decoding::{
    decode_rotated_immediate, shift_type_of, spec_decode_rotated_immediate, Instruction, ShiftType,
};
use vstd::prelude::*;

verus! {

/// What an arithmetic operation yields: the 32-bit result, the carry flag and
/// the overflow flag.
#[derive(Debug, PartialEq, Eq, Clone, Copy, Structural)]
pub struct AluOutput {
    pub result: u32,
    pub carry: bool,
    pub overflow: bool,
}

/// Addition with a carry-in: the sum modulo 2^32; carry when the true sum
/// does not fit in 32 bits; overflow when both operands have the same sign
/// and the result has the other one.
pub open spec fn spec_add_with_carry(a: u32, b: u32, carry_in: bool) -> AluOutput {
    let sum = a + b + if carry_in { 1int } else { 0int };
    AluOutput {
        result: wrap(sum),
        carry: sum > 0xFFFF_FFFF,
        overflow: sign(a) == sign(b) && sign(wrap(sum)) != sign(a),
    }
}

/// Subtraction `a - b`: the difference modulo 2^32; carry when no borrow
/// occurs, that is when `a >= b`; overflow when the operands have different
/// signs and the sign of the result differs from that of `a`.
pub open spec fn spec_subtract(a: u32, b: u32) -> AluOutput {
    AluOutput {
        result: wrap(a - b),
        carry: a >= b,
        overflow: sign(a) != sign(b) && sign(wrap(a - b)) != sign(a),
    }
}

/// Subtraction with a carry-in, `a - b - borrow` where the borrow is 1 when
/// `carry_in` is clear, done as two subtractions: the difference modulo
/// 2^32; carry when neither subtraction borrows, that is when the true
/// difference is not negative; overflow as for the first subtraction,
/// `a - b`, alone.
pub open spec fn spec_subtract_with_carry(a: u32, b: u32, carry_in: bool) -> AluOutput {
    let difference = a - b - if carry_in { 0int } else { 1int };
    AluOutput {
        result: wrap(difference),
        carry: difference >= 0,
        overflow: sign(a) != sign(b) && sign(wrap(a - b)) != sign(a),
    }
}

/// What the flags of an addition mean. The carry tells that the sum wrapped
/// round, which without a carry-in shows in a result below the first
/// operand. The overflow tells that the sum of the operands, read as signed
/// numbers, does not fit in 32 bits.
pub proof fn lemma_add_with_carry_flags(a: u32, b: u32, carry_in: bool)
    ensures
        add_with_carry(a, b, false).carry == (add_with_carry(a, b, false).result < a),
        add_with_carry(a, b, carry_in).carry ==> add_with_carry(a, b, carry_in).result == a + b
            + (if carry_in {
            1int
        } else {
            0int
        }) - 0x1_0000_0000,
        !add_with_carry(a, b, carry_in).carry ==> add_with_carry(a, b, carry_in).result == a + b
            + (if carry_in {
            1int
        } else {
            0int
        }),
        add_with_carry(a, b, carry_in).overflow == !(-0x8000_0000 <= signed(a) + signed(b) + (
        if carry_in {
            1int
        } else {
            0int
        }) < 0x8000_0000),
{
}

/// What the flags of a subtraction mean. The carry is clear exactly when the
/// subtraction borrows, that is when the first operand is the smaller one.
/// The overflow tells that the difference of the operands, read as signed
/// numbers, does not fit in 32 bits.
pub proof fn lemma_subtract_flags(a: u32, b: u32)
    ensures
        a < b ==> !subtract(a, b).carry && subtract(a, b).result == a - b + 0x1_0000_0000,
        a >= b ==> subtract(a, b).carry && subtract(a, b).result == a - b,
        subtract(a, b).overflow == !(-0x8000_0000 <= signed(a) - signed(b) < 0x8000_0000),
{
}

/// Subtraction with carry beside plain subtraction. With the carry set there
/// is no borrow and the two agree. With the carry clear the result is one
/// less, modulo 2^32, and the carry tells that the first operand is strictly
/// the larger. The overflow is that of the plain subtraction either way.
pub proof fn lemma_subtract_with_carry_flags(a: u32, b: u32, carry_in: bool)
    ensures
        subtract_with_carry(a, b, true) == subtract(a, b),
        subtract_with_carry(a, b, false).result == subtract(a, b).result.wrapping_sub(1),
        subtract_with_carry(a, b, false).carry == (a > b),
        subtract_with_carry(a, b, carry_in).overflow == subtract(a, b).overflow,
{
}

/// Computes `a + b + carry_in` with its flags.
#[verifier::when_used_as_spec(spec_add_with_carry)]
pub fn add_with_carry(a: u32, b: u32, carry_in: bool) -> (out: AluOutput)
    ensures
        out == spec_add_with_carry(a, b, carry_in),
{
    let partial = a.wrapping_add(b);
    let result = partial.wrapping_add(if carry_in { 1 } else { 0 });
    let carry = partial < a || result < partial;
    let overflow = (a >= 0x8000_0000) == (b >= 0x8000_0000) && (result >= 0x8000_0000) != (a
        >= 0x8000_0000);
    AluOutput { result, carry, overflow }
}

/// Computes `a - b` with its flags.
#[verifier::when_used_as_spec(spec_subtract)]
pub fn subtract(a: u32, b: u32) -> (out: AluOutput)
    ensures
        out == spec_subtract(a, b),
{
    let result = a.wrapping_sub(b);
    let overflow = (a >= 0x8000_0000) != (b >= 0x8000_0000) && (result >= 0x8000_0000) != (a
        >= 0x8000_0000);
    AluOutput { result, carry: a >= b, overflow }
}

/// Computes `a - b - (1 - carry_in)` with its flags.
#[verifier::when_used_as_spec(spec_subtract_with_carry)]
pub fn subtract_with_carry(a: u32, b: u32, carry_in: bool) -> (out: AluOutput)
    ensures
        out == spec_subtract_with_carry(a, b, carry_in),
{
    let borrow: u32 = if carry_in { 0 } else { 1 };
    let partial = a.wrapping_sub(b);
    let result = partial.wrapping_sub(borrow);
    let carry = !(a < b || partial < borrow);
    let overflow = (a >= 0x8000_0000) != (b >= 0x8000_0000) && (partial >= 0x8000_0000) != (a
        >= 0x8000_0000);
    AluOutput { result, carry, overflow }
}

/// The second operand of a data-processing instruction.
pub enum Operand2 {
    /// A 32-bit immediate, used as it is. It brings no carry: a logical
    /// operation on it clears C.
    Immediate(u32),
    /// A 12-bit encoded immediate: the value of bits 7..0 rotated right by
    /// twice the count in bits 11..8, with the carry-out of that rotation.
    EncodedImmediate(u32),
    /// Register `rm` after the barrel shifter, with the shifter's carry-out.
    Register { rm: usize, shift: ShiftType, shift_amount: u8 },
}

impl Operand2 {
    /// The value of the operand in state `s` and the carry that comes with it.
    pub open spec fn eval(self, s: CpuModel) -> (u32, bool) {
        match self {
            Operand2::Immediate(imm) => (imm, false),
            Operand2::EncodedImmediate(imm12) => barrel_shift(
                imm12 & 0xFF,
                ShiftType::ROR,
                (2 * ((imm12 >> 8) & 0xF)) as u8,
                s.cpsr.is_carry(),
            ),
            Operand2::Register { rm, shift, shift_amount } => s.shifter_operand(
                rm as int,
                shift,
                shift_amount,
            ),
        }
    }
}

/// The data-processing operations that combine `rn` with the second operand
/// and write `rd`.
pub enum BinaryOp {
    And,
    Eor,
    Sub,
    Rsb,
    Add,
    Adc,
    Sbc,
    Rsc,
    Orr,
    Bic,
}

/// The data-processing operations that write `rd` from the second operand
/// alone.
pub enum MoveOp {
    Mov,
    Mvn,
}

/// The data-processing operations that only set the flags.
pub enum CompareOp {
    Cmp,
    Cmn,
}

/// How a data-processing instruction ends when its result is arithmetic:
/// `rd` receives the result; then, if flags were asked for and `rd` is not
/// the program counter, N, Z, C and V are updated, and otherwise the saved
/// status register is copied into the current one.
///
/// The copy is made whenever the flags are not updated, also for an
/// instruction that did not ask for flags and does not write the program
/// counter. (The architecture restores the status only on a flag-setting
/// write to the program counter.)
pub open spec fn write_arithmetic(s: CpuModel, rd: usize, out: AluOutput, set_flags: bool) -> CpuModel {
    let written = s.with_reg(rd as int, out.result);
    if set_flags && rd != 15 {
        written.with_arithmetic_flags(out.result, out.carry, out.overflow)
    } else {
        written.with_saved_status()
    }
}

/// How a data-processing instruction ends when its result is logical: as
/// [`write_arithmetic`], but the flag update leaves V alone.
pub open spec fn write_logical(s: CpuModel, rd: usize, result: u32, carry: bool, set_flags: bool) -> CpuModel {
    let written = s.with_reg(rd as int, result);
    if set_flags && rd != 15 {
        written.with_logical_flags(result, carry)
    } else {
        written.with_saved_status()
    }
}

/// The effect of a two-operand data-processing instruction on the state.
///
/// The first operand is register `rn`; the second is `operand2`. Logical
/// operations take C from the second operand and keep V. Arithmetic
/// operations compute C and V themselves:
/// - ADD adds, ADC adds the carry flag as well;
/// - SUB computes `rn - operand2`, RSB `operand2 - rn`;
/// - SBC computes `rn - operand2 - (1 - C)`;
/// - RSC computes `operand2 - (rn + (1 - C))`, the sum taken modulo 2^32.
pub open spec fn binary_operation(
    s: CpuModel,
    op: BinaryOp,
    rd: usize,
    rn: usize,
    operand2: Operand2,
    set_flags: bool,
) -> CpuModel {
    let a = s.regs[rn as int];
    let (b, operand_carry) = operand2.eval(s);
    let carry_in = s.cpsr.is_carry();
    match op {
        BinaryOp::And => write_logical(s, rd, a & b, operand_carry, set_flags),
        BinaryOp::Eor => write_logical(s, rd, a ^ b, operand_carry, set_flags),
        BinaryOp::Orr => write_logical(s, rd, a | b, operand_carry, set_flags),
        BinaryOp::Bic => write_logical(s, rd, a & !b, operand_carry, set_flags),
        BinaryOp::Add => write_arithmetic(s, rd, add_with_carry(a, b, false), set_flags),
        BinaryOp::Adc => write_arithmetic(s, rd, add_with_carry(a, b, carry_in), set_flags),
        BinaryOp::Sub => write_arithmetic(s, rd, subtract(a, b), set_flags),
        BinaryOp::Rsb => write_arithmetic(s, rd, subtract(b, a), set_flags),
        BinaryOp::Sbc => write_arithmetic(s, rd, subtract_with_carry(a, b, carry_in), set_flags),
        BinaryOp::Rsc => write_arithmetic(
            s,
            rd,
            subtract(b, wrap(a + if carry_in { 0int } else { 1int })),
            set_flags,
        ),
    }
}

/// The effect of MOV and MVN on the state: `rd` receives the second operand,
/// complemented for MVN, and the flags follow the logical rule.
pub open spec fn move_operation(
    s: CpuModel,
    op: MoveOp,
    rd: usize,
    operand2: Operand2,
    set_flags: bool,
) -> CpuModel {
    let (b, operand_carry) = operand2.eval(s);
    match op {
        MoveOp::Mov => write_logical(s, rd, b, operand_carry, set_flags),
        MoveOp::Mvn => write_logical(s, rd, !b, operand_carry, set_flags),
    }
}

/// The effect of CMP and CMN on the state: no register is written and the
/// flags are always updated, from `rn - operand2` for CMP and from
/// `rn + operand2` for CMN.
pub open spec fn compare_operation(s: CpuModel, op: CompareOp, rn: usize, operand2: Operand2) -> CpuModel {
    let a = s.regs[rn as int];
    let b = operand2.eval(s).0;
    let out = match op {
        CompareOp::Cmp => subtract(a, b),
        CompareOp::Cmn => add_with_carry(a, b, false),
    };
    s.with_arithmetic_flags(out.result, out.carry, out.overflow)
}

/// The state after an arithmetic instruction, read flag by flag. `rd` holds
/// the result and no other register has changed. Where flags were asked for
/// and `rd` is not the program counter, Z tells a zero result, N a negative
/// one, C and V are those of the operation, and the bits below V are kept.
/// Otherwise the current status register is a copy of the saved one.
pub proof fn lemma_write_arithmetic(s: CpuModel, rd: usize, out: AluOutput, set_flags: bool)
    requires
        s.wf(),
        rd < 16,
    ensures
        ({
            let after = write_arithmetic(s, rd, out, set_flags);
            &&& after.regs == s.regs.update(rd as int, out.result)
            &&& after.spsr == s.spsr
            &&& set_flags && rd != 15 ==> {
                &&& after.cpsr.is_zero() == (out.result == 0)
                &&& after.cpsr.is_negative() == sign(out.result)
                &&& after.cpsr.is_carry() == out.carry
                &&& after.cpsr.is_overflow() == out.overflow
                &&& forall|m: u32| m < 28 ==> after.cpsr.flag(m) == s.cpsr.flag(m)
            }
            &&& !(set_flags && rd != 15) ==> after.cpsr == s.spsr
        }),
{
    s.cpsr.lemma_with_nzcv(sign(out.result), out.result == 0, out.carry, out.overflow);
}

/// The state after a logical instruction, read flag by flag: as for an
/// arithmetic one, but V is among the bits that are kept.
pub proof fn lemma_write_logical(s: CpuModel, rd: usize, result: u32, carry: bool, set_flags: bool)
    requires
        s.wf(),
        rd < 16,
    ensures
        ({
            let after = write_logical(s, rd, result, carry, set_flags);
            &&& after.regs == s.regs.update(rd as int, result)
            &&& after.spsr == s.spsr
            &&& set_flags && rd != 15 ==> {
                &&& after.cpsr.is_zero() == (result == 0)
                &&& after.cpsr.is_negative() == sign(result)
                &&& after.cpsr.is_carry() == carry
                &&& after.cpsr.is_overflow() == s.cpsr.is_overflow()
                &&& forall|m: u32| m < 29 ==> after.cpsr.flag(m) == s.cpsr.flag(m)
            }
            &&& !(set_flags && rd != 15) ==> after.cpsr == s.spsr
        }),
{
    s.cpsr.lemma_with_nzc(sign(result), result == 0, carry);
}

/// The effect of a data-processing instruction on the state. Any other
/// instruction leaves the state alone here.
pub open spec fn data_processing_effect(s: CpuModel, inst: Instruction) -> CpuModel {
    match inst {
        Instruction::AddImmediate { rd, rn, imm12, set_flags } => binary_operation(
            s,
            BinaryOp::Add,
            rd,
            rn,
            Operand2::Immediate(imm12),
            set_flags,
        ),
        Instruction::AddRegister { rd, rn, rm, shift, shift_amount, set_flags } => binary_operation(
            s,
            BinaryOp::Add,
            rd,
            rn,
            Operand2::Register { rm, shift, shift_amount },
            set_flags,
        ),
        Instruction::SubImmediate { rd, rn, imm12, set_flags } => binary_operation(
            s,
            BinaryOp::Sub,
            rd,
            rn,
            Operand2::Immediate(imm12),
            set_flags,
        ),
        Instruction::SubRegister { rd, rn, rm, shift, shift_amount, set_flags } => binary_operation(
            s,
            BinaryOp::Sub,
            rd,
            rn,
            Operand2::Register { rm, shift, shift_amount },
            set_flags,
        ),
        Instruction::AndImmediate { rd, rn, imm12, set_flags } => binary_operation(
            s,
            BinaryOp::And,
            rd,
            rn,
            Operand2::Immediate(imm12),
            set_flags,
        ),
        Instruction::AndRegister { rd, rn, rm, shift, shift_amount, set_flags } => binary_operation(
            s,
            BinaryOp::And,
            rd,
            rn,
            Operand2::Register { rm, shift, shift_amount },
            set_flags,
        ),
        Instruction::OrrImmediate { rd, rn, imm12, set_flags } => binary_operation(
            s,
            BinaryOp::Orr,
            rd,
            rn,
            Operand2::Immediate(imm12),
            set_flags,
        ),
        Instruction::OrrRegister { rd, rn, rm, shift, shift_amount, set_flags } => binary_operation(
            s,
            BinaryOp::Orr,
            rd,
            rn,
            Operand2::Register { rm, shift, shift_amount },
            set_flags,
        ),
        Instruction::AdcImmediate { rd, rn, imm12, set_flags } => binary_operation(
            s,
            BinaryOp::Adc,
            rd,
            rn,
            Operand2::Immediate(imm12),
            set_flags,
        ),
        Instruction::AdcRegister { rd, rn, rm, shift, shift_amount, set_flags } => binary_operation(
            s,
            BinaryOp::Adc,
            rd,
            rn,
            Operand2::Register { rm, shift, shift_amount },
            set_flags,
        ),
        Instruction::SbcImmediate { rd, rn, imm12, set_flags } => binary_operation(
            s,
            BinaryOp::Sbc,
            rd,
            rn,
            Operand2::Immediate(imm12),
            set_flags,
        ),
        Instruction::SbcRegister { rd, rn, rm, shift, shift_amount, set_flags } => binary_operation(
            s,
            BinaryOp::Sbc,
            rd,
            rn,
            Operand2::Register { rm, shift, shift_amount },
            set_flags,
        ),
        Instruction::EorImmediate { rd, rn, imm12, set_flags } => binary_operation(
            s,
            BinaryOp::Eor,
            rd,
            rn,
            Operand2::Immediate(imm12),
            set_flags,
        ),
        Instruction::EorRegister { rd, rn, rm, shift, shift_amount, set_flags } => binary_operation(
            s,
            BinaryOp::Eor,
            rd,
            rn,
            Operand2::Register { rm, shift, shift_amount },
            set_flags,
        ),
        Instruction::BicImmediate { rd, rn, imm12, set_flags } => binary_operation(
            s,
            BinaryOp::Bic,
            rd,
            rn,
            Operand2::Immediate(imm12),
            set_flags,
        ),
        Instruction::BicRegister { rd, rn, rm, shift, shift_amount, set_flags } => binary_operation(
            s,
            BinaryOp::Bic,
            rd,
            rn,
            Operand2::Register { rm, shift, shift_amount },
            set_flags,
        ),
        Instruction::RsbImmediate { rd, rn, imm12, set_flags } => binary_operation(
            s,
            BinaryOp::Rsb,
            rd,
            rn,
            Operand2::Immediate(imm12),
            set_flags,
        ),
        Instruction::RsbRegister { rd, rn, rm, shift, shift_amount, set_flags } => binary_operation(
            s,
            BinaryOp::Rsb,
            rd,
            rn,
            Operand2::Register { rm, shift, shift_amount },
            set_flags,
        ),
        Instruction::RscImmediate { rd, rn, imm12, set_flags } => binary_operation(
            s,
            BinaryOp::Rsc,
            rd,
            rn,
            Operand2::Immediate(imm12),
            set_flags,
        ),
        Instruction::RscRegister { rd, rn, rm, shift, shift_amount, set_flags } => binary_operation(
            s,
            BinaryOp::Rsc,
            rd,
            rn,
            Operand2::Register { rm, shift, shift_amount },
            set_flags,
        ),
        Instruction::MovImmediate { rd, imm12, set_flags } => move_operation(
            s,
            MoveOp::Mov,
            rd,
            Operand2::Immediate(imm12),
            set_flags,
        ),
        Instruction::MovRegister { rd, rm, shift, shift_amount, set_flags } => move_operation(
            s,
            MoveOp::Mov,
            rd,
            Operand2::Register { rm, shift, shift_amount },
            set_flags,
        ),
        Instruction::MvnImmediate { rd, imm12, set_flags } => move_operation(
            s,
            MoveOp::Mvn,
            rd,
            Operand2::EncodedImmediate(imm12),
            set_flags,
        ),
        Instruction::MvnRegister { rd, rm, shift, shift_amount, set_flags } => move_operation(
            s,
            MoveOp::Mvn,
            rd,
            Operand2::Register { rm, shift, shift_amount },
            set_flags,
        ),
        Instruction::CmnImmediate { rn, imm12 } => compare_operation(
            s,
            CompareOp::Cmn,
            rn,
            Operand2::Immediate(imm12),
        ),
        Instruction::CmnRegister { rn, rm, shift, shift_amount } => compare_operation(
            s,
            CompareOp::Cmn,
            rn,
            Operand2::Register { rm, shift, shift_amount },
        ),
        Instruction::CmpImmediate { rn, imm12 } => compare_operation(
            s,
            CompareOp::Cmp,
            rn,
            Operand2::Immediate(imm12),
        ),
        Instruction::CmpRegister { rn, rm, shift, shift_amount } => compare_operation(
            s,
            CompareOp::Cmp,
            rn,
            Operand2::Register { rm, shift, shift_amount },
        ),
        _ => s,
    }
}

impl Cpu {
    /// Saves the current status register into the saved one.
    pub fn _copy_cpsr_to_spsr(&mut self)
        ensures
            final(self)@ == (CpuModel { spsr: old(self)@.cpsr, ..old(self)@ }),
    {
        self.cpu_state.SPSR = self.cpu_state.CPSR;
    }

    /// Restores the current status register from the saved one.
    pub fn _copy_spsr_to_cpsr(&mut self)
        ensures
            final(self)@ == old(self)@.with_saved_status(),
    {
        self.cpu_state.CPSR = self.cpu_state.SPSR;
    }

    /// Ends an arithmetic instruction: writes `rd` and settles the flags.
    fn finish_arithmetic(&mut self, rd: usize, out: AluOutput, set_flags: bool)
        requires
            rd < 16,
        ensures
            final(self)@ == write_arithmetic(old(self)@, rd, out, set_flags),
    {
        self.cpu_state.set_register(rd, out.result);
        if set_flags && rd != 15 {
            self.update_arithmetic_flags(out.result, out.carry, out.overflow);
        } else {
            self._copy_spsr_to_cpsr();
        }
    }

    /// Ends a logical instruction: writes `rd` and settles the flags.
    fn finish_logical(&mut self, rd: usize, result: u32, carry: bool, set_flags: bool)
        requires
            rd < 16,
        ensures
            final(self)@ == write_logical(old(self)@, rd, result, carry, set_flags),
    {
        self.cpu_state.set_register(rd, result);
        if set_flags && rd != 15 {
            self.update_logical_flags(result, carry);
        } else {
            self._copy_spsr_to_cpsr();
        }
    }

    /// ADD: `rd = rn + operand2`, with an immediate operand.
    pub fn add_immediate(&mut self, rd: usize, rn: usize, imm12: u32, set_flags: bool)
        requires
            rd < 16,
            rn < 16,
        ensures
            final(self)@ == binary_operation(
                old(self)@,
                BinaryOp::Add,
                rd,
                rn,
                Operand2::Immediate(imm12),
                set_flags,
            ),
    {
        let operand_1 = self.cpu_state.get_register(rn);
        let out = add_with_carry(operand_1, imm12, false);
        self.finish_arithmetic(rd, out, set_flags);
    }

    /// ADD: `rd = rn + operand2`, with a shifted register operand.
    pub fn add_register(
        &mut self,
        rd: usize,
        rn: usize,
        rm: usize,
        shift: ShiftType,
        shift_amount: u8,
        set_flags: bool,
    )
        requires
            rd < 16,
            rn < 16,
            rm < 16,
        ensures
            final(self)@ == binary_operation(
                old(self)@,
                BinaryOp::Add,
                rd,
                rn,
                Operand2::Register { rm, shift, shift_amount },
                set_flags,
            ),
    {
        let operand_1 = self.cpu_state.get_register(rn);
        let (operand_2, _) = self.apply_shift(self.cpu_state.get_register(rm), shift, shift_amount);
        let out = add_with_carry(operand_1, operand_2, false);
        self.finish_arithmetic(rd, out, set_flags);
    }

    /// SUB: `rd = rn - operand2`, with an immediate operand.
    pub fn sub_immediate(&mut self, rd: usize, rn: usize, imm12: u32, set_flags: bool)
        requires
            rd < 16,
            rn < 16,
        ensures
            final(self)@ == binary_operation(
                old(self)@,
                BinaryOp::Sub,
                rd,
                rn,
                Operand2::Immediate(imm12),
                set_flags,
            ),
    {
        let operand_1 = self.cpu_state.get_register(rn);
        let operand_2 = imm12;
        let out = subtract(operand_1, operand_2);
        self.finish_arithmetic(rd, out, set_flags);
    }

    /// SUB: `rd = rn - operand2`, with a shifted register operand.
    pub fn sub_register(
        &mut self,
        rd: usize,
        rn: usize,
        rm: usize,
        shift: ShiftType,
        shift_amount: u8,
        set_flags: bool,
    )
        requires
            rd < 16,
            rn < 16,
            rm < 16,
        ensures
            final(self)@ == binary_operation(
                old(self)@,
                BinaryOp::Sub,
                rd,
                rn,
                Operand2::Register { rm, shift, shift_amount },
                set_flags,
            ),
    {
        let operand_1 = self.cpu_state.get_register(rn);
        let (operand_2, _) = self.apply_shift(
            self.cpu_state.get_register(rm),
            shift,
            shift_amount,
        );
        let out = subtract(operand_1, operand_2);
        self.finish_arithmetic(rd, out, set_flags);
    }

    /// AND: `rd = rn & operand2`, with an immediate operand.
    pub fn and_immediate(&mut self, rd: usize, rn: usize, imm12: u32, set_flags: bool)
        requires
            rd < 16,
            rn < 16,
        ensures
            final(self)@ == binary_operation(
                old(self)@,
                BinaryOp::And,
                rd,
                rn,
                Operand2::Immediate(imm12),
                set_flags,
            ),
    {
        let operand_1 = self.cpu_state.get_register(rn);
        let operand_2 = imm12;
        let result = operand_1 & operand_2;
        self.finish_logical(rd, result, false, set_flags);
    }

    /// AND: `rd = rn & operand2`, with a shifted register operand.
    pub fn and_register(
        &mut self,
        rd: usize,
        rn: usize,
        rm: usize,
        shift: ShiftType,
        shift_amount: u8,
        set_flags: bool,
    )
        requires
            rd < 16,
            rn < 16,
            rm < 16,
        ensures
            final(self)@ == binary_operation(
                old(self)@,
                BinaryOp::And,
                rd,
                rn,
                Operand2::Register { rm, shift, shift_amount },
                set_flags,
            ),
    {
        let operand_1 = self.cpu_state.get_register(rn);
        let (operand_2, carry_out) = self.apply_shift(
            self.cpu_state.get_register(rm),
            shift,
            shift_amount,
        );
        let result = operand_1 & operand_2;
        self.finish_logical(rd, result, carry_out, set_flags);
    }

    /// ORR: `rd = rn | operand2`, with an immediate operand.
    pub fn orr_immediate(&mut self, rd: usize, rn: usize, imm12: u32, set_flags: bool)
        requires
            rd < 16,
            rn < 16,
        ensures
            final(self)@ == binary_operation(
                old(self)@,
                BinaryOp::Orr,
                rd,
                rn,
                Operand2::Immediate(imm12),
                set_flags,
            ),
    {
        let operand_1 = self.cpu_state.get_register(rn);
        let operand_2 = imm12;
        let result = operand_1 | operand_2;
        self.finish_logical(rd, result, false, set_flags);
    }

    /// ORR: `rd = rn | operand2`, with a shifted register operand.
    pub fn orr_register(
        &mut self,
        rd: usize,
        rn: usize,
        rm: usize,
        shift: ShiftType,
        shift_amount: u8,
        set_flags: bool,
    )
        requires
            rd < 16,
            rn < 16,
            rm < 16,
        ensures
            final(self)@ == binary_operation(
                old(self)@,
                BinaryOp::Orr,
                rd,
                rn,
                Operand2::Register { rm, shift, shift_amount },
                set_flags,
            ),
    {
        let operand_1 = self.cpu_state.get_register(rn);
        let (operand_2, carry_out) = self.apply_shift(
            self.cpu_state.get_register(rm),
            shift,
            shift_amount,
        );
        let result = operand_1 | operand_2;
        self.finish_logical(rd, result, carry_out, set_flags);
    }

    /// ADC: `rd = rn + operand2 + C`, with an immediate operand.
    pub fn adc_immediate(&mut self, rd: usize, rn: usize, imm12: u32, set_flags: bool)
        requires
            rd < 16,
            rn < 16,
        ensures
            final(self)@ == binary_operation(
                old(self)@,
                BinaryOp::Adc,
                rd,
                rn,
                Operand2::Immediate(imm12),
                set_flags,
            ),
    {
        let operand_1 = self.cpu_state.get_register(rn);
        let operand_2 = imm12;
        let carry_in = self.cpu_state.CPSR.is_carry();
        let out = add_with_carry(operand_1, operand_2, carry_in);
        self.finish_arithmetic(rd, out, set_flags);
    }

    /// ADC: `rd = rn + operand2 + C`, with a shifted register operand.
    pub fn adc_register(
        &mut self,
        rd: usize,
        rn: usize,
        rm: usize,
        shift: ShiftType,
        shift_amount: u8,
        set_flags: bool,
    )
        requires
            rd < 16,
            rn < 16,
            rm < 16,
        ensures
            final(self)@ == binary_operation(
                old(self)@,
                BinaryOp::Adc,
                rd,
                rn,
                Operand2::Register { rm, shift, shift_amount },
                set_flags,
            ),
    {
        let operand_1 = self.cpu_state.get_register(rn);
        let (operand_2, _) = self.apply_shift(
            self.cpu_state.get_register(rm),
            shift,
            shift_amount,
        );
        let carry_in = self.cpu_state.CPSR.is_carry();
        let out = add_with_carry(operand_1, operand_2, carry_in);
        self.finish_arithmetic(rd, out, set_flags);
    }

    /// SBC: `rd = rn - operand2 - (1 - C)`, with an immediate operand.
    pub fn sbc_immediate(&mut self, rd: usize, rn: usize, imm12: u32, set_flags: bool)
        requires
            rd < 16,
            rn < 16,
        ensures
            final(self)@ == binary_operation(
                old(self)@,
                BinaryOp::Sbc,
                rd,
                rn,
                Operand2::Immediate(imm12),
                set_flags,
            ),
    {
        let operand_1 = self.cpu_state.get_register(rn);
        let operand_2 = imm12;
        let carry_in = self.cpu_state.CPSR.is_carry();
        let out = subtract_with_carry(operand_1, operand_2, carry_in);
        self.finish_arithmetic(rd, out, set_flags);
    }

    /// SBC: `rd = rn - operand2 - (1 - C)`, with a shifted register operand.
    pub fn sbc_register(
        &mut self,
        rd: usize,
        rn: usize,
        rm: usize,
        shift: ShiftType,
        shift_amount: u8,
        set_flags: bool,
    )
        requires
            rd < 16,
            rn < 16,
            rm < 16,
        ensures
            final(self)@ == binary_operation(
                old(self)@,
                BinaryOp::Sbc,
                rd,
                rn,
                Operand2::Register { rm, shift, shift_amount },
                set_flags,
            ),
    {
        let operand_1 = self.cpu_state.get_register(rn);
        let (operand_2, _) = self.apply_shift(
            self.cpu_state.get_register(rm),
            shift,
            shift_amount,
        );
        let carry_in = self.cpu_state.CPSR.is_carry();
        let out = subtract_with_carry(operand_1, operand_2, carry_in);
        self.finish_arithmetic(rd, out, set_flags);
    }

    /// EOR: `rd = rn ^ operand2`, with an immediate operand.
    pub fn eor_immediate(&mut self, rd: usize, rn: usize, imm12: u32, set_flags: bool)
        requires
            rd < 16,
            rn < 16,
        ensures
            final(self)@ == binary_operation(
                old(self)@,
                BinaryOp::Eor,
                rd,
                rn,
                Operand2::Immediate(imm12),
                set_flags,
            ),
    {
        let operand_1 = self.cpu_state.get_register(rn);
        let operand_2 = imm12;
        let result = operand_1 ^ operand_2;
        self.finish_logical(rd, result, false, set_flags);
    }

    /// EOR: `rd = rn ^ operand2`, with a shifted register operand.
    pub fn eor_register(
        &mut self,
        rd: usize,
        rn: usize,
        rm: usize,
        shift: ShiftType,
        shift_amount: u8,
        set_flags: bool,
    )
        requires
            rd < 16,
            rn < 16,
            rm < 16,
        ensures
            final(self)@ == binary_operation(
                old(self)@,
                BinaryOp::Eor,
                rd,
                rn,
                Operand2::Register { rm, shift, shift_amount },
                set_flags,
            ),
    {
        let operand_1 = self.cpu_state.get_register(rn);
        let (operand_2, carry_out) = self.apply_shift(
            self.cpu_state.get_register(rm),
            shift,
            shift_amount,
        );
        let result = operand_1 ^ operand_2;
        self.finish_logical(rd, result, carry_out, set_flags);
    }

    /// BIC: `rd = rn & !operand2`, with an immediate operand.
    pub fn bic_immediate(&mut self, rd: usize, rn: usize, imm12: u32, set_flags: bool)
        requires
            rd < 16,
            rn < 16,
        ensures
            final(self)@ == binary_operation(
                old(self)@,
                BinaryOp::Bic,
                rd,
                rn,
                Operand2::Immediate(imm12),
                set_flags,
            ),
    {
        let operand_1 = self.cpu_state.get_register(rn);
        let operand_2 = imm12;
        let result = operand_1 & !operand_2;
        self.finish_logical(rd, result, false, set_flags);
    }

    /// BIC: `rd = rn & !operand2`, with a shifted register operand.
    pub fn bic_register(
        &mut self,
        rd: usize,
        rn: usize,
        rm: usize,
        shift: ShiftType,
        shift_amount: u8,
        set_flags: bool,
    )
        requires
            rd < 16,
            rn < 16,
            rm < 16,
        ensures
            final(self)@ == binary_operation(
                old(self)@,
                BinaryOp::Bic,
                rd,
                rn,
                Operand2::Register { rm, shift, shift_amount },
                set_flags,
            ),
    {
        let operand_1 = self.cpu_state.get_register(rn);
        let (operand_2, carry_out) = self.apply_shift(
            self.cpu_state.get_register(rm),
            shift,
            shift_amount,
        );
        let result = operand_1 & !operand_2;
        self.finish_logical(rd, result, carry_out, set_flags);
    }

    /// RSB: `rd = operand2 - rn`, with an immediate operand.
    pub fn rsb_immediate(&mut self, rd: usize, rn: usize, imm12: u32, set_flags: bool)
        requires
            rd < 16,
            rn < 16,
        ensures
            final(self)@ == binary_operation(
                old(self)@,
                BinaryOp::Rsb,
                rd,
                rn,
                Operand2::Immediate(imm12),
                set_flags,
            ),
    {
        let operand_1 = self.cpu_state.get_register(rn);
        let operand_2 = imm12;
        let out = subtract(operand_2, operand_1);
        self.finish_arithmetic(rd, out, set_flags);
    }

    /// RSB: `rd = operand2 - rn`, with a shifted register operand.
    pub fn rsb_register(
        &mut self,
        rd: usize,
        rn: usize,
        rm: usize,
        shift: ShiftType,
        shift_amount: u8,
        set_flags: bool,
    )
        requires
            rd < 16,
            rn < 16,
            rm < 16,
        ensures
            final(self)@ == binary_operation(
                old(self)@,
                BinaryOp::Rsb,
                rd,
                rn,
                Operand2::Register { rm, shift, shift_amount },
                set_flags,
            ),
    {
        let operand_1 = self.cpu_state.get_register(rn);
        let (operand_2, _) = self.apply_shift(
            self.cpu_state.get_register(rm),
            shift,
            shift_amount,
        );
        let out = subtract(operand_2, operand_1);
        self.finish_arithmetic(rd, out, set_flags);
    }

    /// RSC: `rd = operand2 - (rn + (1 - C))`, with an immediate operand.
    pub fn rsc_immediate(&mut self, rd: usize, rn: usize, imm12: u32, set_flags: bool)
        requires
            rd < 16,
            rn < 16,
        ensures
            final(self)@ == binary_operation(
                old(self)@,
                BinaryOp::Rsc,
                rd,
                rn,
                Operand2::Immediate(imm12),
                set_flags,
            ),
    {
        let operand_1 = self.cpu_state.get_register(rn);
        let operand_2 = imm12;
        let not_c: u32 = if self.cpu_state.CPSR.is_carry() {
            0
        } else {
            1
        };
        let effective_subtrahend = operand_1.wrapping_add(not_c);
        let out = subtract(operand_2, effective_subtrahend);
        self.finish_arithmetic(rd, out, set_flags);
    }

    /// RSC: `rd = operand2 - (rn + (1 - C))`, with a shifted register operand.
    pub fn rsc_register(
        &mut self,
        rd: usize,
        rn: usize,
        rm: usize,
        shift: ShiftType,
        shift_amount: u8,
        set_flags: bool,
    )
        requires
            rd < 16,
            rn < 16,
            rm < 16,
        ensures
            final(self)@ == binary_operation(
                old(self)@,
                BinaryOp::Rsc,
                rd,
                rn,
                Operand2::Register { rm, shift, shift_amount },
                set_flags,
            ),
    {
        let operand_1 = self.cpu_state.get_register(rn);
        let (operand_2, _) = self.apply_shift(
            self.cpu_state.get_register(rm),
            shift,
            shift_amount,
        );
        let not_c: u32 = if self.cpu_state.CPSR.is_carry() {
            0
        } else {
            1
        };
        let effective_subtrahend = operand_1.wrapping_add(not_c);
        let out = subtract(operand_2, effective_subtrahend);
        self.finish_arithmetic(rd, out, set_flags);
    }

    /// MOV with an immediate operand. The flags are always updated, unless
    /// `rd` is the program counter.
    pub fn mov_immediete(&mut self, rd: usize, imm12: u32)
        requires
            rd < 16,
        ensures
            final(self)@ == move_operation(
                old(self)@,
                MoveOp::Mov,
                rd,
                Operand2::Immediate(imm12),
                true,
            ),
    {
        self.finish_logical(rd, imm12, false, true);
    }

    /// MOV with a shifted register operand.
    pub fn mov_register(
        &mut self,
        rd: usize,
        rm: usize,
        shift: ShiftType,
        shift_amount: u8,
        set_flags: bool,
    )
        requires
            rd < 16,
            rm < 16,
        ensures
            final(self)@ == move_operation(
                old(self)@,
                MoveOp::Mov,
                rd,
                Operand2::Register { rm, shift, shift_amount },
                set_flags,
            ),
    {
        let (result, carry) = self.apply_shift(self.cpu_state.get_register(rm), shift, shift_amount);
        self.finish_logical(rd, result, carry, set_flags);
    }

    /// MVN with an immediate operand, given in its 12-bit encoded form: the
    /// operand is the value of bits 7..0 of `imm12` rotated right by twice the
    /// count in bits 11..8, and C receives the carry-out of that rotation
    /// (the carry flag itself when the count is zero).
    pub fn mvn_immediate(&mut self, rd: usize, imm12: u32, set_flags: bool)
        requires
            rd < 16,
        ensures
            final(self)@ == move_operation(
                old(self)@,
                MoveOp::Mvn,
                rd,
                Operand2::EncodedImmediate(imm12),
                set_flags,
            ),
    {
        proof {
            lemma_field_bounds(imm12);
        }
        let rotate: u32 = (imm12 >> 8) & 0xF;
        let imm8: u32 = imm12 & 0xFF;
        let (operand, carry) = self.apply_shift(imm8, ShiftType::ROR, (rotate * 2) as u8);
        self.finish_logical(rd, !operand, carry, set_flags);
    }

    /// MVN with a shifted register operand.
    pub fn mvn_register(
        &mut self,
        rd: usize,
        rm: usize,
        shift: ShiftType,
        shift_amount: u8,
        set_flags: bool,
    )
        requires
            rd < 16,
            rm < 16,
        ensures
            final(self)@ == move_operation(
                old(self)@,
                MoveOp::Mvn,
                rd,
                Operand2::Register { rm, shift, shift_amount },
                set_flags,
            ),
    {
        let (operand, carry_out) = self.apply_shift(
            self.cpu_state.get_register(rm),
            shift,
            shift_amount,
        );
        self.finish_logical(rd, !operand, carry_out, set_flags);
    }

    /// CMN: sets the flags from `rn + operand2`, with an immediate operand.
    pub fn cmn_immediate(&mut self, rn: usize, imm12: u32)
        requires
            rn < 16,
        ensures
            final(self)@ == compare_operation(
                old(self)@,
                CompareOp::Cmn,
                rn,
                Operand2::Immediate(imm12),
            ),
    {
        let operand_1 = self.cpu_state.get_register(rn);
        let operand_2 = imm12;
        let out = add_with_carry(operand_1, operand_2, false);
        self.update_arithmetic_flags(out.result, out.carry, out.overflow);
    }

    /// CMN: sets the flags from `rn + operand2`, with a shifted register operand.
    pub fn cmn_register(&mut self, rn: usize, rm: usize, shift: ShiftType, shift_amount: u8)
        requires
            rn < 16,
            rm < 16,
        ensures
            final(self)@ == compare_operation(
                old(self)@,
                CompareOp::Cmn,
                rn,
                Operand2::Register { rm, shift, shift_amount },
            ),
    {
        let operand_1 = self.cpu_state.get_register(rn);
        let (operand_2, _) = self.apply_shift(self.cpu_state.get_register(rm), shift, shift_amount);
        let out = add_with_carry(operand_1, operand_2, false);
        self.update_arithmetic_flags(out.result, out.carry, out.overflow);
    }

    /// CMP: sets the flags from `rn - operand2`, with an immediate operand.
    pub fn cmp_immediate(&mut self, rn: usize, imm12: u32)
        requires
            rn < 16,
        ensures
            final(self)@ == compare_operation(
                old(self)@,
                CompareOp::Cmp,
                rn,
                Operand2::Immediate(imm12),
            ),
    {
        let operand_1 = self.cpu_state.get_register(rn);
        let operand_2 = imm12;
        let out = subtract(operand_1, operand_2);
        self.update_arithmetic_flags(out.result, out.carry, out.overflow);
    }

    /// CMP: sets the flags from `rn - operand2`, with a shifted register operand.
    pub fn cmp_register(&mut self, rn: usize, rm: usize, shift: ShiftType, shift_amount: u8)
        requires
            rn < 16,
            rm < 16,
        ensures
            final(self)@ == compare_operation(
                old(self)@,
                CompareOp::Cmp,
                rn,
                Operand2::Register { rm, shift, shift_amount },
            ),
    {
        let operand_1 = self.cpu_state.get_register(rn);
        let (operand_2, _) = self.apply_shift(self.cpu_state.get_register(rm), shift, shift_amount);
        let out = subtract(operand_1, operand_2);
        self.update_arithmetic_flags(out.result, out.carry, out.overflow);
    }

    /// Executes a decoded data-processing instruction by handing its fields
    /// to the handler of its opcode. Any other instruction is left alone.
    ///
    /// Every arm returns at once, so that each handler's contract is held
    /// against this function's own on a path of its own.
    pub fn execute_data_processing(&mut self, decoded: Instruction)
        requires
            decoded.well_formed(),
        ensures
            final(self)@ == data_processing_effect(old(self)@, decoded),
    {
        match decoded {
            Instruction::MovImmediate { rd, imm12, .. } => {
                return self.mov_immediete(rd, imm12);
            },
            Instruction::MovRegister { rd, rm, shift, shift_amount, set_flags } => {
                return self.mov_register(rd, rm, shift, shift_amount, set_flags);
            },
            Instruction::AddImmediate { rd, rn, imm12, set_flags } => {
                return self.add_immediate(rd, rn, imm12, set_flags);
            },
            Instruction::AddRegister { rd, rn, rm, shift, shift_amount, set_flags } => {
                return self.add_register(rd, rn, rm, shift, shift_amount, set_flags);
            },
            Instruction::SubImmediate { rd, rn, imm12, set_flags } => {
                return self.sub_immediate(rd, rn, imm12, set_flags);
            },
            Instruction::SubRegister { rd, rn, rm, shift, shift_amount, set_flags } => {
                return self.sub_register(rd, rn, rm, shift, shift_amount, set_flags);
            },
            Instruction::AndImmediate { rd, rn, imm12, set_flags } => {
                return self.and_immediate(rd, rn, imm12, set_flags);
            },
            Instruction::AndRegister { rd, rn, rm, shift, shift_amount, set_flags } => {
                return self.and_register(rd, rn, rm, shift, shift_amount, set_flags);
            },
            Instruction::OrrImmediate { rd, rn, imm12, set_flags } => {
                return self.orr_immediate(rd, rn, imm12, set_flags);
            },
            Instruction::OrrRegister { rd, rn, rm, shift, shift_amount, set_flags } => {
                return self.orr_register(rd, rn, rm, shift, shift_amount, set_flags);
            },
            Instruction::AdcImmediate { rd, rn, imm12, set_flags } => {
                return self.adc_immediate(rd, rn, imm12, set_flags);
            },
            Instruction::AdcRegister { rd, rn, rm, shift, shift_amount, set_flags } => {
                return self.adc_register(rd, rn, rm, shift, shift_amount, set_flags);
            },
            Instruction::SbcImmediate { rd, rn, imm12, set_flags } => {
                return self.sbc_immediate(rd, rn, imm12, set_flags);
            },
            Instruction::SbcRegister { rd, rn, rm, shift, shift_amount, set_flags } => {
                return self.sbc_register(rd, rn, rm, shift, shift_amount, set_flags);
            },
            Instruction::EorImmediate { rd, rn, imm12, set_flags } => {
                return self.eor_immediate(rd, rn, imm12, set_flags);
            },
            Instruction::EorRegister { rd, rn, rm, shift, shift_amount, set_flags } => {
                return self.eor_register(rd, rn, rm, shift, shift_amount, set_flags);
            },
            Instruction::BicImmediate { rd, rn, imm12, set_flags } => {
                return self.bic_immediate(rd, rn, imm12, set_flags);
            },
            Instruction::BicRegister { rd, rn, rm, shift, shift_amount, set_flags } => {
                return self.bic_register(rd, rn, rm, shift, shift_amount, set_flags);
            },
            Instruction::CmnImmediate { rn, imm12 } => {
                return self.cmn_immediate(rn, imm12);
            },
            Instruction::CmnRegister { rn, rm, shift, shift_amount } => {
                return self.cmn_register(rn, rm, shift, shift_amount);
            },
            Instruction::CmpImmediate { rn, imm12 } => {
                return self.cmp_immediate(rn, imm12);
            },
            Instruction::CmpRegister { rn, rm, shift, shift_amount } => {
                return self.cmp_register(rn, rm, shift, shift_amount);
            },
            Instruction::MvnImmediate { rd, imm12, set_flags } => {
                return self.mvn_immediate(rd, imm12, set_flags);
            },
            Instruction::MvnRegister { rd, rm, shift, shift_amount, set_flags } => {
                return self.mvn_register(rd, rm, shift, shift_amount, set_flags);
            },
            Instruction::RsbImmediate { rd, rn, imm12, set_flags } => {
                return self.rsb_immediate(rd, rn, imm12, set_flags);
            },
            Instruction::RsbRegister { rd, rn, rm, shift, shift_amount, set_flags } => {
                return self.rsb_register(rd, rn, rm, shift, shift_amount, set_flags);
            },
            Instruction::RscImmediate { rd, rn, imm12, set_flags } => {
                return self.rsc_immediate(rd, rn, imm12, set_flags);
            },
            Instruction::RscRegister { rd, rn, rm, shift, shift_amount, set_flags } => {
                return self.rsc_register(rd, rn, rm, shift, shift_amount, set_flags);
            },
            _ => {},
        }
    }
}

/// The immediate form of the data-processing instruction with the given
/// four-bit opcode. Immediate forms always update the flags. `word` is the raw
/// encoding, kept by the `Unknown` variant for the opcodes without a handler.
pub open spec fn data_processing_immediate(
    opcode: u32,
    rd: usize,
    rn: usize,
    imm12: u32,
    word: u32,
) -> Instruction {
    let set_flags = true;
    match opcode {
        0b0000 => Instruction::AndImmediate { rd, rn, imm12, set_flags },
        0b0001 => Instruction::EorImmediate { rd, rn, imm12, set_flags },
        0b0010 => Instruction::SubImmediate { rd, rn, imm12, set_flags },
        0b0011 => Instruction::RsbImmediate { rd, rn, imm12, set_flags },
        0b0100 => Instruction::AddImmediate { rd, rn, imm12, set_flags },
        0b0101 => Instruction::AdcImmediate { rd, rn, imm12, set_flags },
        0b0110 => Instruction::SbcImmediate { rd, rn, imm12, set_flags },
        0b0111 => Instruction::RscImmediate { rd, rn, imm12, set_flags },
        0b1010 => Instruction::CmpImmediate { rn, imm12 },
        0b1011 => Instruction::CmnImmediate { rn, imm12 },
        0b1100 => Instruction::OrrImmediate { rd, rn, imm12, set_flags },
        0b1101 => Instruction::MovImmediate { rd, imm12, set_flags },
        0b1110 => Instruction::BicImmediate { rd, rn, imm12, set_flags },
        0b1111 => Instruction::MvnImmediate { rd, imm12, set_flags },
        _ => Instruction::Unknown(word),
    }
}

/// The register form of the data-processing instruction with the given
/// four-bit opcode.
pub open spec fn data_processing_register(
    opcode: u32,
    rd: usize,
    rn: usize,
    rm: usize,
    shift: ShiftType,
    shift_amount: u8,
    set_flags: bool,
    word: u32,
) -> Instruction {
    match opcode {
        0b0000 => Instruction::AndRegister { rd, rn, rm, shift, shift_amount, set_flags },
        0b0001 => Instruction::EorRegister { rd, rn, rm, shift, shift_amount, set_flags },
        0b0010 => Instruction::SubRegister { rd, rn, rm, shift, shift_amount, set_flags },
        0b0011 => Instruction::RsbRegister { rd, rn, rm, shift, shift_amount, set_flags },
        0b0100 => Instruction::AddRegister { rd, rn, rm, shift, shift_amount, set_flags },
        0b0101 => Instruction::AdcRegister { rd, rn, rm, shift, shift_amount, set_flags },
        0b0110 => Instruction::SbcRegister { rd, rn, rm, shift, shift_amount, set_flags },
        0b0111 => Instruction::RscRegister { rd, rn, rm, shift, shift_amount, set_flags },
        0b1010 => Instruction::CmpRegister { rn, rm, shift, shift_amount },
        0b1011 => Instruction::CmnRegister { rn, rm, shift, shift_amount },
        0b1100 => Instruction::OrrRegister { rd, rn, rm, shift, shift_amount, set_flags },
        0b1101 => Instruction::MovRegister { rd, rm, shift, shift_amount, set_flags },
        0b1110 => Instruction::BicRegister { rd, rn, rm, shift, shift_amount, set_flags },
        0b1111 => Instruction::MvnRegister { rd, rm, shift, shift_amount, set_flags },
        _ => Instruction::Unknown(word),
    }
}

/// What a word decodes to when it is read as a data-processing instruction.
///
/// Bits 24..21 hold the opcode, bit 20 the S flag, bits 19..16 `rn`, bits
/// 15..12 `rd`. With bit 25 set the second operand is a rotated immediate;
/// otherwise it is `rm` (bits 3..0) shifted by the amount in bits 11..7 with
/// the operation in bits 6..5.
pub open spec fn spec_decode_data_processing(instruction: u32) -> Instruction {
    let opcode = (instruction >> 21) & 0xF;
    let rn = ((instruction >> 16) & 0xF) as usize;
    let rd = ((instruction >> 12) & 0xF) as usize;
    if (instruction >> 25) & 1 == 1 {
        data_processing_immediate(
            opcode,
            rd,
            rn,
            spec_decode_rotated_immediate(instruction),
            instruction,
        )
    } else {
        data_processing_register(
            opcode,
            rd,
            rn,
            (instruction & 0xF) as usize,
            shift_type_of((instruction >> 5) & 3),
            ((instruction >> 7) & 0x1F) as u8,
            (instruction >> 20) & 1 == 1,
            instruction,
        )
    }
}

/// Decodes a word of the data-processing group.
#[verifier::when_used_as_spec(spec_decode_data_processing)]
pub fn decode_data_processing(instruction: u32) -> (decoded: Instruction)
    ensures
        decoded == spec_decode_data_processing(instruction),
        decoded.well_formed(),
{
    proof {
        lemma_field_bounds(instruction);
    }
    let opcode: u32 = (instruction >> 21) & 0xF;
    let rn = ((instruction >> 16) & 0xF) as usize;
    let rd = ((instruction >> 12) & 0xF) as usize;
    let i_bit: u32 = (instruction >> 25) & 1;
    if i_bit == 1 {
        let imm12 = decode_rotated_immediate(instruction);
        let set_flags = true;
        match opcode {
            0b0000 => Instruction::AndImmediate { rd, rn, imm12, set_flags },
            0b0001 => Instruction::EorImmediate { rd, rn, imm12, set_flags },
            0b0010 => Instruction::SubImmediate { rd, rn, imm12, set_flags },
            0b0011 => Instruction::RsbImmediate { rd, rn, imm12, set_flags },
            0b0100 => Instruction::AddImmediate { rd, rn, imm12, set_flags },
            0b0101 => Instruction::AdcImmediate { rd, rn, imm12, set_flags },
            0b0110 => Instruction::SbcImmediate { rd, rn, imm12, set_flags },
            0b0111 => Instruction::RscImmediate { rd, rn, imm12, set_flags },
            0b1010 => Instruction::CmpImmediate { rn, imm12 },
            0b1011 => Instruction::CmnImmediate { rn, imm12 },
            0b1100 => Instruction::OrrImmediate { rd, rn, imm12, set_flags },
            0b1101 => Instruction::MovImmediate { rd, imm12, set_flags },
            0b1110 => Instruction::BicImmediate { rd, rn, imm12, set_flags },
            0b1111 => Instruction::MvnImmediate { rd, imm12, set_flags },
            _ => Instruction::Unknown(instruction),
        }
    } else {
        let shift_amount = ((instruction >> 7) & 0x1F) as u8;
        let shift = match (instruction >> 5) & 3 {
            0b00 => ShiftType::LSL,
            0b01 => ShiftType::LSR,
            0b10 => ShiftType::ASR,
            _ => ShiftType::ROR,
        };
        let rm = (instruction & 0xF) as usize;
        let set_flags = ((instruction >> 20) & 1) == 1;
        match opcode {
            0b0000 => Instruction::AndRegister { rd, rn, rm, shift, shift_amount, set_flags },
            0b0001 => Instruction::EorRegister { rd, rn, rm, shift, shift_amount, set_flags },
            0b0010 => Instruction::SubRegister { rd, rn, rm, shift, shift_amount, set_flags },
            0b0011 => Instruction::RsbRegister { rd, rn, rm, shift, shift_amount, set_flags },
            0b0100 => Instruction::AddRegister { rd, rn, rm, shift, shift_amount, set_flags },
            0b0101 => Instruction::AdcRegister { rd, rn, rm, shift, shift_amount, set_flags },
            0b0110 => Instruction::SbcRegister { rd, rn, rm, shift, shift_amount, set_flags },
            0b0111 => Instruction::RscRegister { rd, rn, rm, shift, shift_amount, set_flags },
            0b1010 => Instruction::CmpRegister { rn, rm, shift, shift_amount },
            0b1011 => Instruction::CmnRegister { rn, rm, shift, shift_amount },
            0b1100 => Instruction::OrrRegister { rd, rn, rm, shift, shift_amount, set_flags },
            0b1101 => Instruction::MovRegister { rd, rm, shift, shift_amount, set_flags },
            0b1110 => Instruction::BicRegister { rd, rn, rm, shift, shift_amount, set_flags },
            0b1111 => Instruction::MvnRegister { rd, rm, shift, shift_amount, set_flags },
            _ => Instruction::Unknown(instruction),
        }
    }
}

} // verus!
