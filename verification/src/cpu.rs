//! Processor state, the barrel shifter, the condition evaluator and the
//! fetch-decode-execute engine.

use crate::bits::{
    bit, lemma_field_bounds, lemma_rotate_right_bits, lemma_set_bit, lemma_shift_bits,
    lemma_sign_is_top_bit, rotate_right, rotate_right_u32, set_bit, sign,
};
use crate::cpu_instructions::branch_ops::branch_instruction_effect;
use crate::cpu_instructions::data_proc_instructions::data_processing_effect;
use crate::cpu_instructions::instruction_decoding::{
    decode_arm, lemma_decode_well_formed, Instruction, ShiftType,
};
use crate::cpu_instructions::load_store_instructions::{load_effect, load_fault};
use crate::memory::{word_at, word_in_bounds, Memory};
use vstd::prelude::*;

verus! {

/// The word that stops a running program. It is not an instruction: the
/// engine recognises it when it is fetched and never decodes it.
pub const HALT_INSTRUCTION: u32 = 0xFFFF_FFFF;

/// Position of the negative flag (N) in a status register.
pub const NEGATIVE_BIT: u32 = 31;

/// Position of the zero flag (Z).
pub const ZERO_BIT: u32 = 30;

/// Position of the carry flag (C).
pub const CARRY_BIT: u32 = 29;

/// Position of the overflow flag (V).
pub const OVERFLOW_BIT: u32 = 28;

/// Position of the FIQ-disable flag (F).
pub const F_BIT: u32 = 8;

/// Position of the IRQ-disable flag (I).
pub const I_BIT: u32 = 7;

/// Position of the Thumb-state flag (T).
pub const T_BIT: u32 = 5;

/// The seven flags of a status register, unpacked.
#[derive(Debug, PartialEq, Eq, Clone, Copy, Structural)]
pub struct StatusFlags {
    pub negative: bool,
    pub zero: bool,
    pub carry: bool,
    pub overflow: bool,
    pub irq_disabled: bool,
    pub fiq_disabled: bool,
    pub thumb_state: bool,
}

/// A program status register: a packed word of flags.
///
/// Only the seven named bits have a meaning to this core. A setter changes
/// its own bit and nothing else.
#[derive(Debug, Copy, Clone)]
pub struct Cpsr {
    /// The raw register value.
    pub value: u32,
}

impl Default for Cpsr {
    /// The register with every flag clear.
    fn default() -> (cpsr: Cpsr)
        ensures
            cpsr.value == 0,
    {
        Cpsr { value: 0 }
    }
}

impl Cpsr {
    /// The flag stored at bit `n`.
    pub open spec fn flag(self, n: u32) -> bool {
        bit(self.value, n)
    }

    /// This register with the flag at bit `n` set to `set`.
    pub open spec fn with_flag(self, n: u32, set: bool) -> Cpsr {
        Cpsr { value: set_bit(self.value, n, set) }
    }

    /// This register with N, Z, C and V replaced and the rest kept.
    pub open spec fn with_nzcv(self, n: bool, z: bool, c: bool, v: bool) -> Cpsr {
        self.with_flag(ZERO_BIT, z).with_flag(NEGATIVE_BIT, n).with_flag(CARRY_BIT, c).with_flag(
            OVERFLOW_BIT,
            v,
        )
    }

    /// This register with N, Z and C replaced and the rest, V included, kept.
    pub open spec fn with_nzc(self, n: bool, z: bool, c: bool) -> Cpsr {
        self.with_flag(ZERO_BIT, z).with_flag(NEGATIVE_BIT, n).with_flag(CARRY_BIT, c)
    }

    /// Whether the N flag is set.
    pub open spec fn spec_is_negative(&self) -> bool {
        self.flag(NEGATIVE_BIT)
    }

    /// Whether the Z flag is set.
    pub open spec fn spec_is_zero(&self) -> bool {
        self.flag(ZERO_BIT)
    }

    /// Whether the C flag is set.
    pub open spec fn spec_is_carry(&self) -> bool {
        self.flag(CARRY_BIT)
    }

    /// Whether the V flag is set.
    pub open spec fn spec_is_overflow(&self) -> bool {
        self.flag(OVERFLOW_BIT)
    }

    /// Whether the I flag is set.
    pub open spec fn spec_is_irq_disabled(&self) -> bool {
        self.flag(I_BIT)
    }

    /// Whether the F flag is set.
    pub open spec fn spec_is_fiq_disabled(&self) -> bool {
        self.flag(F_BIT)
    }

    /// Whether the T flag is set.
    pub open spec fn spec_is_thumb_state(&self) -> bool {
        self.flag(T_BIT)
    }

    /// Reading a flag after [`Cpsr::with_flag`]: the written flag is `set`,
    /// every other bit is as before.
    pub proof fn lemma_with_flag(self, n: u32, set: bool, m: u32)
        requires
            n < 32,
            m < 32,
        ensures
            self.with_flag(n, set).flag(m) == (if m == n {
                set
            } else {
                self.flag(m)
            }),
    {
        lemma_set_bit(self.value, n, set, m);
    }

    /// Reading the flags after [`Cpsr::with_nzcv`]: N, Z, C and V are the
    /// values written, and no bit below them has changed.
    pub proof fn lemma_with_nzcv(self, n: bool, z: bool, c: bool, v: bool)
        ensures
            self.with_nzcv(n, z, c, v).is_negative() == n,
            self.with_nzcv(n, z, c, v).is_zero() == z,
            self.with_nzcv(n, z, c, v).is_carry() == c,
            self.with_nzcv(n, z, c, v).is_overflow() == v,
            forall|m: u32| m < 28 ==> self.with_nzcv(n, z, c, v).flag(m) == self.flag(m),
    {
        let with_z = self.with_flag(ZERO_BIT, z);
        let with_n = with_z.with_flag(NEGATIVE_BIT, n);
        let with_c = with_n.with_flag(CARRY_BIT, c);
        assert forall|m: u32| m < 32 implies self.with_nzcv(n, z, c, v).flag(m) == (if m
            == NEGATIVE_BIT {
            n
        } else if m == ZERO_BIT {
            z
        } else if m == CARRY_BIT {
            c
        } else if m == OVERFLOW_BIT {
            v
        } else {
            self.flag(m)
        }) by {
            self.lemma_with_flag(ZERO_BIT, z, m);
            with_z.lemma_with_flag(NEGATIVE_BIT, n, m);
            with_n.lemma_with_flag(CARRY_BIT, c, m);
            with_c.lemma_with_flag(OVERFLOW_BIT, v, m);
        }
    }

    /// Reading the flags after [`Cpsr::with_nzc`]: N, Z and C are the values
    /// written, and no other bit, V included, has changed.
    pub proof fn lemma_with_nzc(self, n: bool, z: bool, c: bool)
        ensures
            self.with_nzc(n, z, c).is_negative() == n,
            self.with_nzc(n, z, c).is_zero() == z,
            self.with_nzc(n, z, c).is_carry() == c,
            self.with_nzc(n, z, c).is_overflow() == self.is_overflow(),
            forall|m: u32| m < 29 ==> self.with_nzc(n, z, c).flag(m) == self.flag(m),
    {
        let with_z = self.with_flag(ZERO_BIT, z);
        let with_n = with_z.with_flag(NEGATIVE_BIT, n);
        assert forall|m: u32| m < 32 implies self.with_nzc(n, z, c).flag(m) == (if m
            == NEGATIVE_BIT {
            n
        } else if m == ZERO_BIT {
            z
        } else if m == CARRY_BIT {
            c
        } else {
            self.flag(m)
        }) by {
            self.lemma_with_flag(ZERO_BIT, z, m);
            with_z.lemma_with_flag(NEGATIVE_BIT, n, m);
            with_n.lemma_with_flag(CARRY_BIT, c, m);
        }
    }

    /// All seven flags at once.
    pub fn all_flags(&self) -> (flags: StatusFlags)
        ensures
            flags == (StatusFlags {
                negative: self.is_negative(),
                zero: self.is_zero(),
                carry: self.is_carry(),
                overflow: self.is_overflow(),
                irq_disabled: self.is_irq_disabled(),
                fiq_disabled: self.is_fiq_disabled(),
                thumb_state: self.is_thumb_state(),
            }),
    {
        StatusFlags {
            negative: self.is_negative(),
            zero: self.is_zero(),
            carry: self.is_carry(),
            overflow: self.is_overflow(),
            irq_disabled: self.is_irq_disabled(),
            fiq_disabled: self.is_fiq_disabled(),
            thumb_state: self.is_thumb_state(),
        }
    }

    /// Evaluates a condition code against the flags of this register.
    pub fn condition_passes(&self, condition_code: u32) -> (passes: bool)
        requires
            condition_code < 16,
        ensures
            passes == condition_holds(condition_code, *self),
    {
        match condition_code {
            0b0000 => self.is_zero(),
            0b0001 => !self.is_zero(),
            0b0010 => self.is_carry(),
            0b0011 => !self.is_carry(),
            0b0100 => self.is_negative(),
            0b0101 => !self.is_negative(),
            0b0110 => self.is_overflow(),
            0b0111 => !self.is_overflow(),
            0b1000 => self.is_carry() && !self.is_zero(),
            0b1001 => !self.is_carry() || self.is_zero(),
            0b1010 => self.is_negative() == self.is_overflow(),
            0b1011 => self.is_negative() != self.is_overflow(),
            0b1100 => !self.is_zero() && (self.is_negative() == self.is_overflow()),
            0b1101 => self.is_zero() || (self.is_negative() != self.is_overflow()),
            0b1110 => true,
            _ => false,
        }
    }

    /// The negative flag (N).
    #[verifier::when_used_as_spec(spec_is_negative)]
    pub fn is_negative(&self) -> (set: bool)
        ensures
            set == self.spec_is_negative(),
    {
        ((self.value >> NEGATIVE_BIT) & 1) == 1
    }

    /// Sets or clears the negative flag.
    pub fn set_negative(&mut self, set: bool)
        ensures
            *final(self) == old(self).with_flag(NEGATIVE_BIT, set),
            final(self).is_negative() == set,
    {
        proof {
            lemma_set_bit(self.value, NEGATIVE_BIT, set, NEGATIVE_BIT);
        }
        if set {
            self.value = self.value | (1u32 << NEGATIVE_BIT);
        } else {
            self.value = self.value & !(1u32 << NEGATIVE_BIT);
        }
    }

    /// The zero flag (Z).
    #[verifier::when_used_as_spec(spec_is_zero)]
    pub fn is_zero(&self) -> (set: bool)
        ensures
            set == self.spec_is_zero(),
    {
        ((self.value >> ZERO_BIT) & 1) == 1
    }

    /// Sets or clears the zero flag.
    pub fn set_zero(&mut self, set: bool)
        ensures
            *final(self) == old(self).with_flag(ZERO_BIT, set),
            final(self).is_zero() == set,
    {
        proof {
            lemma_set_bit(self.value, ZERO_BIT, set, ZERO_BIT);
        }
        if set {
            self.value = self.value | (1u32 << ZERO_BIT);
        } else {
            self.value = self.value & !(1u32 << ZERO_BIT);
        }
    }

    /// The carry flag (C).
    #[verifier::when_used_as_spec(spec_is_carry)]
    pub fn is_carry(&self) -> (set: bool)
        ensures
            set == self.spec_is_carry(),
    {
        ((self.value >> CARRY_BIT) & 1) == 1
    }

    /// Sets or clears the carry flag.
    pub fn set_carry(&mut self, set: bool)
        ensures
            *final(self) == old(self).with_flag(CARRY_BIT, set),
            final(self).is_carry() == set,
    {
        proof {
            lemma_set_bit(self.value, CARRY_BIT, set, CARRY_BIT);
        }
        if set {
            self.value = self.value | (1u32 << CARRY_BIT);
        } else {
            self.value = self.value & !(1u32 << CARRY_BIT);
        }
    }

    /// The overflow flag (V).
    #[verifier::when_used_as_spec(spec_is_overflow)]
    pub fn is_overflow(&self) -> (set: bool)
        ensures
            set == self.spec_is_overflow(),
    {
        ((self.value >> OVERFLOW_BIT) & 1) == 1
    }

    /// Sets or clears the overflow flag.
    pub fn set_overflow(&mut self, set: bool)
        ensures
            *final(self) == old(self).with_flag(OVERFLOW_BIT, set),
            final(self).is_overflow() == set,
    {
        proof {
            lemma_set_bit(self.value, OVERFLOW_BIT, set, OVERFLOW_BIT);
        }
        if set {
            self.value = self.value | (1u32 << OVERFLOW_BIT);
        } else {
            self.value = self.value & !(1u32 << OVERFLOW_BIT);
        }
    }

    /// The IRQ-disable flag (I).
    #[verifier::when_used_as_spec(spec_is_irq_disabled)]
    pub fn is_irq_disabled(&self) -> (set: bool)
        ensures
            set == self.spec_is_irq_disabled(),
    {
        ((self.value >> I_BIT) & 1) == 1
    }

    /// Sets or clears the IRQ-disable flag.
    pub fn set_irq_disabled(&mut self, set: bool)
        ensures
            *final(self) == old(self).with_flag(I_BIT, set),
            final(self).is_irq_disabled() == set,
    {
        proof {
            lemma_set_bit(self.value, I_BIT, set, I_BIT);
        }
        if set {
            self.value = self.value | (1u32 << I_BIT);
        } else {
            self.value = self.value & !(1u32 << I_BIT);
        }
    }

    /// The FIQ-disable flag (F).
    #[verifier::when_used_as_spec(spec_is_fiq_disabled)]
    pub fn is_fiq_disabled(&self) -> (set: bool)
        ensures
            set == self.spec_is_fiq_disabled(),
    {
        ((self.value >> F_BIT) & 1) == 1
    }

    /// Sets or clears the FIQ-disable flag.
    pub fn set_fiq_disabled(&mut self, set: bool)
        ensures
            *final(self) == old(self).with_flag(F_BIT, set),
            final(self).is_fiq_disabled() == set,
    {
        proof {
            lemma_set_bit(self.value, F_BIT, set, F_BIT);
        }
        if set {
            self.value = self.value | (1u32 << F_BIT);
        } else {
            self.value = self.value & !(1u32 << F_BIT);
        }
    }

    /// The Thumb-state flag (T).
    #[verifier::when_used_as_spec(spec_is_thumb_state)]
    pub fn is_thumb_state(&self) -> (set: bool)
        ensures
            set == self.spec_is_thumb_state(),
    {
        ((self.value >> T_BIT) & 1) == 1
    }

    /// Sets or clears the Thumb-state flag.
    pub fn set_thumb_state(&mut self, set: bool)
        ensures
            *final(self) == old(self).with_flag(T_BIT, set),
            final(self).is_thumb_state() == set,
    {
        proof {
            lemma_set_bit(self.value, T_BIT, set, T_BIT);
        }
        if set {
            self.value = self.value | (1u32 << T_BIT);
        } else {
            self.value = self.value & !(1u32 << T_BIT);
        }
    }
}

/// The sixteen conditions as a function of the four flags.
///
/// | code | name | holds when |
/// |---|---|---|
/// | 0 | EQ | Z |
/// | 1 | NE | not Z |
/// | 2 | CS | C |
/// | 3 | CC | not C |
/// | 4 | MI | N |
/// | 5 | PL | not N |
/// | 6 | VS | V |
/// | 7 | VC | not V |
/// | 8 | HI | C and not Z |
/// | 9 | LS | not C, or Z |
/// | 10 | GE | N equals V |
/// | 11 | LT | N differs from V |
/// | 12 | GT | not Z, and N equals V |
/// | 13 | LE | Z, or N differs from V |
/// | 14 | AL | always |
/// | 15 | NV | never |
pub open spec fn condition_table(condition_code: u32, n: bool, z: bool, c: bool, v: bool) -> bool {
    match condition_code {
        0b0000 => z,
        0b0001 => !z,
        0b0010 => c,
        0b0011 => !c,
        0b0100 => n,
        0b0101 => !n,
        0b0110 => v,
        0b0111 => !v,
        0b1000 => c && !z,
        0b1001 => !c || z,
        0b1010 => n == v,
        0b1011 => n != v,
        0b1100 => !z && n == v,
        0b1101 => z || n != v,
        0b1110 => true,
        _ => false,
    }
}

/// Whether an instruction with the given four-bit condition field executes
/// under the flags of the given status register.
pub open spec fn condition_holds(condition_code: u32, flags: Cpsr) -> bool {
    condition_table(
        condition_code,
        flags.is_negative(),
        flags.is_zero(),
        flags.is_carry(),
        flags.is_overflow(),
    )
}

/// The condition AL holds under all flags and the condition NV under none;
/// and each of the codes 0 to 13 holds exactly when its neighbour, the code
/// with the lowest bit flipped, does not.
pub proof fn lemma_condition_table(condition_code: u32, n: bool, z: bool, c: bool, v: bool)
    requires
        condition_code < 16,
    ensures
        condition_table(0b1110, n, z, c, v),
        !condition_table(0b1111, n, z, c, v),
        condition_code < 14 ==> condition_table(condition_code ^ 1, n, z, c, v) == !condition_table(
            condition_code,
            n,
            z,
            c,
            v,
        ),
{
    assert(condition_code < 16 ==> (condition_code ^ 1) == (if condition_code % 2 == 0 {
        condition_code + 1
    } else {
        condition_code - 1
    })) by (bit_vector);
}

/// Every combination of the four flags can stand in a status register, and
/// the condition evaluated on the register is the table's entry for it.
pub proof fn lemma_condition_on_flags(
    condition_code: u32,
    base: Cpsr,
    n: bool,
    z: bool,
    c: bool,
    v: bool,
)
    ensures
        condition_holds(condition_code, base.with_nzcv(n, z, c, v)) == condition_table(
            condition_code,
            n,
            z,
            c,
            v,
        ),
{
    base.lemma_with_nzcv(n, z, c, v);
}

/// The mathematical model of the processor: the sixteen registers and the two
/// status registers. Register 15 is the program counter, register 14 the
/// link register.
#[verifier::ext_equal]
pub struct CpuModel {
    /// The register file, r0 to r15.
    pub regs: Seq<u32>,
    /// The current program status register.
    pub cpsr: Cpsr,
    /// The saved program status register.
    pub spsr: Cpsr,
}

impl CpuModel {
    /// The register file has exactly sixteen registers.
    pub open spec fn wf(self) -> bool {
        self.regs.len() == 16
    }

    /// The program counter.
    pub open spec fn pc(self) -> u32 {
        self.regs[15]
    }

    /// This state with register `index` holding `value`.
    pub open spec fn with_reg(self, index: int, value: u32) -> CpuModel {
        CpuModel { regs: self.regs.update(index, value), ..self }
    }

    /// This state with `cpsr` as the current status register.
    pub open spec fn with_cpsr(self, cpsr: Cpsr) -> CpuModel {
        CpuModel { cpsr, ..self }
    }

    /// This state after the saved status register has been copied into the
    /// current one.
    pub open spec fn with_saved_status(self) -> CpuModel {
        self.with_cpsr(self.spsr)
    }

    /// The flag update of an arithmetic operation: Z and N follow `result`,
    /// C and V are the given values.
    pub open spec fn with_arithmetic_flags(self, result: u32, carry: bool, overflow: bool) -> CpuModel {
        self.with_cpsr(self.cpsr.with_nzcv(sign(result), result == 0, carry, overflow))
    }

    /// The flag update of a logical operation: Z and N follow `result`, C is
    /// the given value and V is kept.
    pub open spec fn with_logical_flags(self, result: u32, carry: bool) -> CpuModel {
        self.with_cpsr(self.cpsr.with_nzc(sign(result), result == 0, carry))
    }

    /// The value and the carry-out of register `rm` after the barrel shifter.
    pub open spec fn shifter_operand(self, rm: int, shift: ShiftType, amount: u8) -> (u32, bool) {
        barrel_shift(self.regs[rm], shift, amount, self.cpsr.is_carry())
    }
}

/// The register file and the status registers of the processor.
#[allow(non_snake_case)]
#[derive(Debug)]
pub struct CpuState {
    /// The general registers r0 to r15.
    pub registers: [u32; 16],
    /// The current program status register.
    pub CPSR: Cpsr,
    /// The saved program status register.
    pub SPSR: Cpsr,
}

impl View for CpuState {
    type V = CpuModel;

    open spec fn view(&self) -> CpuModel {
        CpuModel { regs: self.registers@, cpsr: self.CPSR, spsr: self.SPSR }
    }
}

impl Default for CpuState {
    /// The state with every register and every flag zero.
    fn default() -> (state: CpuState)
        ensures
            state@.wf(),
            forall|i: int| 0 <= i < 16 ==> state@.regs[i] == 0,
            state@.cpsr.value == 0,
            state@.spsr.value == 0,
    {
        CpuState { registers: [0u32; 16], CPSR: Cpsr::default(), SPSR: Cpsr::default() }
    }
}

impl CpuState {
    /// The value of register `reg_num`.
    pub fn get_register(&self, reg_num: usize) -> (value: u32)
        requires
            reg_num < 16,
        ensures
            value == self@.regs[reg_num as int],
    {
        self.registers[reg_num]
    }

    /// Stores `value` in register `reg_num`.
    pub fn set_register(&mut self, reg_num: usize, value: u32)
        requires
            reg_num < 16,
        ensures
            final(self)@ == old(self)@.with_reg(reg_num as int, value),
    {
        self.registers[reg_num] = value;
    }

    /// Fetches the word at the program counter and tells whether the
    /// processor is in Thumb state. The program counter then moves on by
    /// four, unless the word is the halt word: then nothing changes.
    pub fn fetch_instruction(&mut self, memory: &Memory) -> (fetched: (u32, bool))
        requires
            word_in_bounds(memory@, old(self)@.pc()),
        ensures
            fetched.0 == word_at(memory@, old(self)@.pc()),
            fetched.1 == old(self)@.cpsr.is_thumb_state(),
            fetched.0 == HALT_INSTRUCTION ==> final(self)@ == old(self)@,
            fetched.0 != HALT_INSTRUCTION ==> final(self)@ == old(self)@.with_reg(
                15,
                old(self)@.pc().wrapping_add(4),
            ),
    {
        let pc = self.get_register(15);
        let instruction = memory.read_word(pc);
        if instruction != HALT_INSTRUCTION {
            self.set_register(15, pc.wrapping_add(4));
        }
        (instruction, self.CPSR.is_thumb_state())
    }
}

/// `value` shifted right by `amount` places, `0 < amount < 32`, with copies
/// of its sign bit entering from the left.
pub open spec fn arithmetic_shift_right(value: u32, amount: u8) -> u32 {
    if sign(value) {
        (value >> amount) | !(0xFFFF_FFFFu32 >> amount)
    } else {
        value >> amount
    }
}

/// The barrel shifter: the shifted value and the carry-out.
///
/// `carry_in` is the carry flag at the time of the shift; it is what comes
/// out where the shifter has nothing of its own to report.
///
/// | kind | amount 0 | 1 to 31 | 32 | above 32 |
/// |---|---|---|---|---|
/// | LSL | value, carry_in | value << amount, bit 32 - amount | 0, bit 0 | 0, false |
/// | LSR | value, carry_in | value >> amount, bit amount - 1 | 0, bit 31 | 0, false |
/// | ASR | value, carry_in | signed value >> amount, bit amount - 1 | all sign bits, sign | as for 32 |
///
/// ROR first reduces the amount modulo 32. A reduced amount of 0 gives
/// (value, carry_in); any other gives the rotated value and bit amount - 1.
/// (The architecture's rotate-with-extend is not modelled.)
pub open spec fn barrel_shift(value: u32, kind: ShiftType, amount: u8, carry_in: bool) -> (
    u32,
    bool,
) {
    match kind {
        ShiftType::LSL => if amount == 0 {
            (value, carry_in)
        } else if amount < 32 {
            (value << amount, bit(value, (32 - amount) as u32))
        } else if amount == 32 {
            (0u32, bit(value, 0))
        } else {
            (0u32, false)
        },
        ShiftType::LSR => if amount == 0 {
            (value, carry_in)
        } else if amount < 32 {
            (value >> amount, bit(value, (amount - 1) as u32))
        } else if amount == 32 {
            (0u32, bit(value, 31))
        } else {
            (0u32, false)
        },
        ShiftType::ASR => if amount == 0 {
            (value, carry_in)
        } else if amount < 32 {
            (arithmetic_shift_right(value, amount), bit(value, (amount - 1) as u32))
        } else if sign(value) {
            (0xFFFF_FFFFu32, true)
        } else {
            (0u32, false)
        },
        ShiftType::ROR => if amount % 32 == 0 {
            (value, carry_in)
        } else {
            (rotate_right(value, (amount % 32) as u32), bit(value, (amount % 32 - 1) as u32))
        },
    }
}

/// The shifter at its edges: a left shift by 32 leaves only bit 0, as the
/// carry; a left shift by more leaves nothing; an arithmetic right shift by
/// 32 or more spreads the sign over the value and the carry; and a rotation
/// by a multiple of 32 passes the value and the carry flag through.
pub proof fn lemma_shifter_edge_cases(value: u32, amount: u8, carry_in: bool)
    ensures
        barrel_shift(value, ShiftType::LSL, 32, carry_in) == (0u32, bit(value, 0)),
        amount > 32 ==> barrel_shift(value, ShiftType::LSL, amount, carry_in) == (0u32, false),
        barrel_shift(value, ShiftType::LSR, 32, carry_in) == (0u32, sign(value)),
        amount > 32 ==> barrel_shift(value, ShiftType::LSR, amount, carry_in) == (0u32, false),
        amount >= 32 && sign(value) ==> barrel_shift(value, ShiftType::ASR, amount, carry_in) == (
            0xFFFF_FFFFu32,
            true,
        ),
        amount >= 32 && !sign(value) ==> barrel_shift(value, ShiftType::ASR, amount, carry_in) == (
            0u32,
            false,
        ),
        barrel_shift(value, ShiftType::ROR, 0, carry_in) == (value, carry_in),
        amount % 32 == 0 ==> barrel_shift(value, ShiftType::ROR, amount, carry_in) == (
            value,
            carry_in,
        ),
        amount == 0 ==> barrel_shift(value, ShiftType::LSL, amount, carry_in) == (value, carry_in)
            && barrel_shift(value, ShiftType::LSR, amount, carry_in) == (value, carry_in)
            && barrel_shift(value, ShiftType::ASR, amount, carry_in) == (value, carry_in),
{
    lemma_sign_is_top_bit(value);
}

/// Where each bit of a shifted value comes from, for an amount from 1 to 31.
/// LSL takes bit `i` from bit `i - amount` and fills from the right with
/// zeros; LSR takes it from bit `i + amount` and fills from the left with
/// zeros; ASR does the same but fills with the sign bit; ROR takes it from
/// bit `i + amount` modulo 32.
pub proof fn lemma_barrel_shift_bits(value: u32, amount: u8, carry_in: bool, i: u32)
    requires
        0 < amount < 32,
        i < 32,
    ensures
        bit(barrel_shift(value, ShiftType::LSL, amount, carry_in).0, i) == (i >= amount && bit(
            value,
            (i - amount) as u32,
        )),
        bit(barrel_shift(value, ShiftType::LSR, amount, carry_in).0, i) == (i + amount < 32 && bit(
            value,
            (i + amount) as u32,
        )),
        bit(barrel_shift(value, ShiftType::ASR, amount, carry_in).0, i) == bit(
            value,
            if i + amount < 32 {
                (i + amount) as u32
            } else {
                31
            },
        ),
        bit(barrel_shift(value, ShiftType::ROR, amount, carry_in).0, i) == bit(
            value,
            ((i + amount) % 32) as u32,
        ),
{
    lemma_shift_bits(value, amount as u32, i);
    lemma_rotate_right_bits(value, amount as u32, i);
}

/// The conditions under which the engine stops without completing an
/// instruction. A fault leaves the processor as it was before the faulting
/// step.
#[derive(Debug, PartialEq, Eq, Clone, Copy, Structural)]
pub enum EmulatorFault {
    /// The instruction needs the register with this index, and there are
    /// only sixteen.
    InvalidRegister(usize),
    /// A read at this address reaches beyond the end of the memory.
    MemoryOutOfBounds(u32),
    /// This word decodes to no implemented instruction.
    UnknownInstruction(u32),
    /// The processor is in Thumb state, which this core does not execute.
    ThumbState,
}

/// How one step of the engine ends.
#[derive(Debug, PartialEq, Eq, Clone, Copy, Structural)]
pub enum StepOutcome {
    /// An instruction was fetched and either executed or skipped because its
    /// condition did not hold.
    Continue,
    /// The halt word was fetched.
    Halted,
    /// The step could not be completed.
    Fault(EmulatorFault),
}

/// How a run of the engine ends.
#[derive(Debug, PartialEq, Eq, Clone, Copy, Structural)]
pub enum RunOutcome {
    /// The halt word was fetched.
    Halted,
    /// A step could not be completed.
    Fault(EmulatorFault),
    /// The allowed number of steps was used up before the program halted.
    StepLimit,
}

/// The fault, if any, that keeps `inst` from executing in state `s`: an
/// unknown instruction always faults, a load may, and nothing else does.
pub open spec fn instruction_fault(s: CpuModel, mem: Seq<u8>, inst: Instruction) -> Option<
    EmulatorFault,
> {
    match inst {
        Instruction::Unknown(word) => Some(EmulatorFault::UnknownInstruction(word)),
        _ => load_fault(s, mem, inst),
    }
}

/// The state after `inst` has executed in state `s`, where it does not
/// fault.
pub open spec fn execute_effect(s: CpuModel, mem: Seq<u8>, inst: Instruction) -> CpuModel {
    match inst {
        Instruction::Unknown(_) | Instruction::Nop => s,
        Instruction::Branch { .. }
        | Instruction::BranchExchange { .. }
        | Instruction::BranchLinkExchange { .. } => branch_instruction_effect(s, inst),
        Instruction::Ldr { .. }
        | Instruction::Ldrb { .. }
        | Instruction::Ldrd { .. }
        | Instruction::Ldm { .. } => load_effect(s, mem, inst),
        _ => data_processing_effect(s, inst),
    }
}

/// Whether the instruction word `instruction` executes in state `s`: NOP
/// always does, whatever its condition field; any other instruction does
/// when the condition in its bits 31..28 holds.
pub open spec fn executes(s: CpuModel, instruction: u32) -> bool {
    decode_arm(instruction) is Nop || condition_holds((instruction >> 28) & 0xF, s.cpsr)
}

/// The fault, if any, that interpreting `instruction` in state `s` raises.
/// An instruction whose condition does not hold is skipped and cannot fault.
pub open spec fn interpret_fault(s: CpuModel, mem: Seq<u8>, instruction: u32) -> Option<
    EmulatorFault,
> {
    if executes(s, instruction) {
        instruction_fault(s, mem, decode_arm(instruction))
    } else {
        None
    }
}

/// The state after `instruction` has been interpreted in state `s`: the
/// effect of the decoded instruction when it executes without a fault, and
/// `s` itself when it is skipped or faults.
pub open spec fn interpret_effect(s: CpuModel, mem: Seq<u8>, instruction: u32) -> CpuModel {
    if executes(s, instruction) && interpret_fault(s, mem, instruction) is None {
        execute_effect(s, mem, decode_arm(instruction))
    } else {
        s
    }
}

/// One step of the engine from state `s`: the state that it leaves and how
/// it ends.
///
/// The word at the program counter is fetched. The halt word ends the step
/// at once, with nothing changed. Otherwise the program counter moves on by
/// four and the word is interpreted. A fault (a fetch outside the memory,
/// Thumb state, or a fault of the instruction) leaves `s` as it was.
pub open spec fn step_model(s: CpuModel, mem: Seq<u8>) -> (CpuModel, StepOutcome) {
    let pc = s.pc();
    let instruction = word_at(mem, pc);
    let fetched = s.with_reg(15, pc.wrapping_add(4));
    if !word_in_bounds(mem, pc) {
        (s, StepOutcome::Fault(EmulatorFault::MemoryOutOfBounds(pc)))
    } else if s.cpsr.is_thumb_state() {
        (s, StepOutcome::Fault(EmulatorFault::ThumbState))
    } else if instruction == HALT_INSTRUCTION {
        (s, StepOutcome::Halted)
    } else {
        match interpret_fault(fetched, mem, instruction) {
            Some(fault) => (s, StepOutcome::Fault(fault)),
            None => (interpret_effect(fetched, mem, instruction), StepOutcome::Continue),
        }
    }
}

/// A run of at most `steps` steps from state `s`: the state that it leaves
/// and how it ends. The run ends with the first step that halts or faults.
pub open spec fn run_model(s: CpuModel, mem: Seq<u8>, steps: nat) -> (CpuModel, RunOutcome)
    decreases steps,
{
    if steps == 0 {
        (s, RunOutcome::StepLimit)
    } else {
        let (next, outcome) = step_model(s, mem);
        match outcome {
            StepOutcome::Continue => run_model(next, mem, (steps - 1) as nat),
            StepOutcome::Halted => (next, RunOutcome::Halted),
            StepOutcome::Fault(fault) => (next, RunOutcome::Fault(fault)),
        }
    }
}

/// Executing a well-formed instruction that does not fault never changes
/// the number of registers.
pub proof fn lemma_execute_keeps_registers(s: CpuModel, mem: Seq<u8>, inst: Instruction)
    requires
        s.wf(),
        inst.well_formed(),
        instruction_fault(s, mem, inst) is None,
    ensures
        execute_effect(s, mem, inst).wf(),
{
}

/// A step never changes the number of registers.
pub proof fn lemma_step_keeps_registers(s: CpuModel, mem: Seq<u8>)
    requires
        s.wf(),
    ensures
        step_model(s, mem).0.wf(),
{
    let fetched = s.with_reg(15, s.pc().wrapping_add(4));
    let instruction = word_at(mem, s.pc());
    lemma_decode_well_formed(instruction);
    if interpret_fault(fetched, mem, instruction) is None && executes(fetched, instruction) {
        lemma_execute_keeps_registers(fetched, mem, decode_arm(instruction));
    }
}

/// A run never changes the number of registers.
pub proof fn lemma_run_keeps_registers(s: CpuModel, mem: Seq<u8>, steps: nat)
    requires
        s.wf(),
    ensures
        run_model(s, mem, steps).0.wf(),
    decreases steps,
{
    lemma_step_keeps_registers(s, mem);
    if steps > 0 && step_model(s, mem).1 is Continue {
        lemma_run_keeps_registers(step_model(s, mem).0, mem, (steps - 1) as nat);
    }
}

/// A step that finds the halt word ends the run and changes nothing; in
/// particular the program counter stays on the halt word.
pub proof fn lemma_halt_word_stops(s: CpuModel, mem: Seq<u8>, steps: nat)
    requires
        word_in_bounds(mem, s.pc()),
        word_at(mem, s.pc()) == HALT_INSTRUCTION,
        !s.cpsr.is_thumb_state(),
    ensures
        step_model(s, mem) == (s, StepOutcome::Halted),
        steps > 0 ==> run_model(s, mem, steps) == (s, RunOutcome::Halted),
{
}

/// A step that faults leaves the state as it was.
pub proof fn lemma_fault_changes_nothing(s: CpuModel, mem: Seq<u8>)
    ensures
        step_model(s, mem).1 is Fault ==> step_model(s, mem).0 == s,
{
}

/// How a run can end. A run that halts stops with the program counter on a
/// halt word, which has not been decoded. A run that faults stops in the
/// state whose next step raises that fault.
pub proof fn lemma_run_end(s: CpuModel, mem: Seq<u8>, steps: nat)
    ensures
        run_model(s, mem, steps).1 is Halted ==> {
            let end = run_model(s, mem, steps).0;
            &&& word_in_bounds(mem, end.pc())
            &&& word_at(mem, end.pc()) == HALT_INSTRUCTION
            &&& step_model(end, mem) == (end, StepOutcome::Halted)
        },
        run_model(s, mem, steps).1 matches RunOutcome::Fault(fault) ==> {
            let end = run_model(s, mem, steps).0;
            step_model(end, mem) == (end, StepOutcome::Fault(fault))
        },
    decreases steps,
{
    if steps > 0 {
        let (next, outcome) = step_model(s, mem);
        if outcome is Continue {
            lemma_run_end(next, mem, (steps - 1) as nat);
        }
    }
}

/// Running `first + second` steps is running `first` steps and, if that was
/// cut off, running `second` more from where it stopped.
pub proof fn lemma_run_split(s: CpuModel, mem: Seq<u8>, first: nat, second: nat)
    ensures
        run_model(s, mem, first + second) == (if run_model(s, mem, first).1 is StepLimit {
            run_model(run_model(s, mem, first).0, mem, second)
        } else {
            run_model(s, mem, first)
        }),
    decreases first,
{
    if first > 0 {
        let (next, outcome) = step_model(s, mem);
        if outcome is Continue {
            lemma_run_split(next, mem, (first - 1) as nat, second);
            assert(first + second - 1 == (first - 1) as nat + second);
        }
    }
}

/// The processor.
pub struct Cpu {
    /// Registers and status registers.
    pub cpu_state: CpuState,
}

impl View for Cpu {
    type V = CpuModel;

    open spec fn view(&self) -> CpuModel {
        self.cpu_state@
    }
}

impl Cpu {
    /// A processor with every register and every flag zero.
    pub fn new() -> (cpu: Cpu)
        ensures
            cpu@.wf(),
            forall|i: int| 0 <= i < 16 ==> cpu@.regs[i] == 0,
            cpu@.cpsr.value == 0,
            cpu@.spsr.value == 0,
    {
        Cpu { cpu_state: CpuState::default() }
    }

    /// Updates the flags after an arithmetic operation: Z and N from
    /// `result`, C and V as given.
    pub fn update_arithmetic_flags(&mut self, result: u32, carry: bool, overflow: bool)
        ensures
            final(self)@ == old(self)@.with_arithmetic_flags(result, carry, overflow),
    {
        self.cpu_state.CPSR.set_zero(result == 0);
        self.cpu_state.CPSR.set_negative(result >= 0x8000_0000);
        self.cpu_state.CPSR.set_carry(carry);
        self.cpu_state.CPSR.set_overflow(overflow);
    }

    /// Updates the flags after a logical operation: Z and N from `result`, C
    /// as given; V is not affected.
    pub fn update_logical_flags(&mut self, result: u32, carry: bool)
        ensures
            final(self)@ == old(self)@.with_logical_flags(result, carry),
    {
        self.cpu_state.CPSR.set_zero(result == 0);
        self.cpu_state.CPSR.set_negative(result >= 0x8000_0000);
        self.cpu_state.CPSR.set_carry(carry);
    }

    /// Runs `value` through the barrel shifter, with the current carry flag
    /// as the carry-in.
    pub fn apply_shift(&self, value: u32, shift_type: ShiftType, shift_amount: u8) -> (shifted: (
        u32,
        bool,
    ))
        ensures
            shifted == barrel_shift(value, shift_type, shift_amount, self@.cpsr.is_carry()),
    {
        match shift_type {
            ShiftType::LSL => {
                if shift_amount == 0 {
                    (value, self.cpu_state.CPSR.is_carry())
                } else if shift_amount < 32 {
                    let carry_out = (value >> (32 - shift_amount)) & 1 == 1;
                    (value << shift_amount, carry_out)
                } else if shift_amount == 32 {
                    (0, (value >> 0u32) & 1 == 1)
                } else {
                    (0, false)
                }
            },
            ShiftType::LSR => {
                if shift_amount == 0 {
                    (value, self.cpu_state.CPSR.is_carry())
                } else if shift_amount < 32 {
                    let carry_out = (value >> (shift_amount - 1)) & 1 == 1;
                    (value >> shift_amount, carry_out)
                } else if shift_amount == 32 {
                    (0, (value >> 31u32) & 1 == 1)
                } else {
                    (0, false)
                }
            },
            ShiftType::ASR => {
                if shift_amount == 0 {
                    (value, self.cpu_state.CPSR.is_carry())
                } else if shift_amount < 32 {
                    let carry_out = (value >> (shift_amount - 1)) & 1 == 1;
                    let result = if value >= 0x8000_0000 {
                        (value >> shift_amount) | !(0xFFFF_FFFFu32 >> shift_amount)
                    } else {
                        value >> shift_amount
                    };
                    (result, carry_out)
                } else if value >= 0x8000_0000 {
                    (0xFFFF_FFFF, true)
                } else {
                    (0, false)
                }
            },
            ShiftType::ROR => {
                let amount: u8 = shift_amount % 32;
                if amount == 0 {
                    (value, self.cpu_state.CPSR.is_carry())
                } else {
                    let carry_out = (value >> (amount - 1)) & 1 == 1;
                    (rotate_right_u32(value, amount as u32), carry_out)
                }
            },
        }
    }

    /// Interprets one instruction word: decodes it, evaluates its condition
    /// and, where the condition holds, executes it.
    ///
    /// The result is `Err` exactly when the instruction executes and faults;
    /// the processor is then unchanged. The memory is only read.
    pub fn interpret_instruction(&mut self, instruction: u32, memory: &mut Memory) -> (outcome:
        Result<(), EmulatorFault>)
        ensures
            *final(memory) == *old(memory),
            final(self)@ == interpret_effect(old(self)@, old(memory)@, instruction),
            outcome is Ok <==> interpret_fault(old(self)@, old(memory)@, instruction) is None,
            outcome matches Err(fault) ==> interpret_fault(old(self)@, old(memory)@, instruction)
                == Some(fault),
    {
        proof {
            lemma_field_bounds(instruction);
        }
        let decoded = decode_arm(instruction);
        let condition_passed = match decoded {
            Instruction::Nop => true,
            _ => self.cpu_state.CPSR.condition_passes((instruction >> 28) & 0xF),
        };
        if !condition_passed {
            return Ok(());
        }
        match decoded {
            Instruction::Unknown(word) => Err(EmulatorFault::UnknownInstruction(word)),
            Instruction::Nop => Ok(()),
            Instruction::Branch { .. }
            | Instruction::BranchExchange { .. }
            | Instruction::BranchLinkExchange { .. } => {
                self.execute_branch_instruction(decoded, instruction);
                Ok(())
            },
            Instruction::Ldr { .. }
            | Instruction::Ldrb { .. }
            | Instruction::Ldrd { .. }
            | Instruction::Ldm { .. } => self.execute_load(decoded, memory),
            _ => {
                self.execute_data_processing(decoded);
                Ok(())
            },
        }
    }

    /// Performs one step: fetches the word at the program counter and, unless
    /// it is the halt word, moves the program counter on and interprets the
    /// word. A step that faults leaves the processor unchanged.
    pub fn step(&mut self, memory: &mut Memory) -> (outcome: StepOutcome)
        ensures
            *final(memory) == *old(memory),
            (final(self)@, outcome) == step_model(old(self)@, old(memory)@),
            outcome is Halted ==> final(self)@ == old(self)@ && word_at(
                old(memory)@,
                old(self)@.pc(),
            ) == HALT_INSTRUCTION,
            outcome is Fault ==> final(self)@ == old(self)@,
    {
        let pc = self.cpu_state.get_register(15);
        if !memory.contains_word(pc) {
            return StepOutcome::Fault(EmulatorFault::MemoryOutOfBounds(pc));
        }
        let (instruction, is_thumb) = self.cpu_state.fetch_instruction(memory);
        if is_thumb {
            self.cpu_state.set_register(15, pc);
            return StepOutcome::Fault(EmulatorFault::ThumbState);
        }
        if instruction == HALT_INSTRUCTION {
            return StepOutcome::Halted;
        }
        match self.interpret_instruction(instruction, memory) {
            Ok(()) => StepOutcome::Continue,
            Err(fault) => {
                self.cpu_state.set_register(15, pc);
                StepOutcome::Fault(fault)
            },
        }
    }

    /// Runs the program at the program counter for at most `max_steps`
    /// steps, until it halts or faults.
    pub fn run_steps(&mut self, memory: &mut Memory, max_steps: u64) -> (outcome: RunOutcome)
        ensures
            *final(memory) == *old(memory),
            (final(self)@, outcome) == run_model(old(self)@, old(memory)@, max_steps as nat),
            outcome is Halted ==> word_in_bounds(old(memory)@, final(self)@.pc()) && word_at(
                old(memory)@,
                final(self)@.pc(),
            ) == HALT_INSTRUCTION,
    {
        proof {
            lemma_run_end(old(self)@, old(memory)@, max_steps as nat);
        }
        let mut remaining = max_steps;
        while remaining > 0
            invariant
                *memory == *old(memory),
                run_model(old(self)@, old(memory)@, max_steps as nat) == run_model(
                    self@,
                    memory@,
                    remaining as nat,
                ),
            decreases remaining,
        {
            match self.step(memory) {
                StepOutcome::Continue => {},
                StepOutcome::Halted => {
                    return RunOutcome::Halted;
                },
                StepOutcome::Fault(fault) => {
                    return RunOutcome::Fault(fault);
                },
            }
            remaining -= 1;
        }
        RunOutcome::StepLimit
    }

    /// Runs the program at the program counter until it halts or faults.
    ///
    /// So that the call returns whatever the program does, the run is cut
    /// off after `u64::MAX` steps.
    pub fn run_program(&mut self, memory: &mut Memory) -> (outcome: RunOutcome)
        ensures
            *final(memory) == *old(memory),
            (final(self)@, outcome) == run_model(old(self)@, old(memory)@, u64::MAX as nat),
            outcome is Halted ==> word_in_bounds(old(memory)@, final(self)@.pc()) && word_at(
                old(memory)@,
                final(self)@.pc(),
            ) == HALT_INSTRUCTION,
    {
        self.run_steps(memory, u64::MAX)
    }
}

} // verus!
