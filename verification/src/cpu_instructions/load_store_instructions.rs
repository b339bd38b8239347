//! Load instructions: LDR, LDRB, LDRD and LDM, with their decoders.

use crate::bits::{lemma_field_bounds, lemma_wrap_add, wrap};
use crate::cpu::{Cpu, CpuModel, EmulatorFault};
use crate::cpu_instructions::instruction_decoding::Instruction;
use crate::memory::{byte_in_bounds, word_at, word_in_bounds, Memory};
use vstd::prelude::*;

verus! {

/// The base register moved by the offset: up when `add` is set, down
/// otherwise, modulo 2^32.
pub open spec fn effective_address(base: u32, offset: u32, add: bool) -> u32 {
    if add {
        base.wrapping_add(offset)
    } else {
        base.wrapping_sub(offset)
    }
}

/// The address that a single load reads: the effective address when
/// pre-indexed, the base itself otherwise.
pub open spec fn transfer_address(base: u32, offset: u32, pre_index: bool, add: bool) -> u32 {
    if pre_index {
        effective_address(base, offset, add)
    } else {
        base
    }
}

/// How a single load ends: the base register receives the effective address
/// when write-back is asked for. The write-back comes last, so it prevails
/// where the base is also a destination.
pub open spec fn write_back_base(
    s: CpuModel,
    rn: usize,
    base: u32,
    offset: u32,
    add: bool,
    write_back: bool,
) -> CpuModel {
    if write_back {
        s.with_reg(rn as int, effective_address(base, offset, add))
    } else {
        s
    }
}

/// The effect of LDR: `rt` receives the word at the transfer address.
pub open spec fn load_register_effect(
    s: CpuModel,
    mem: Seq<u8>,
    rt: usize,
    rn: usize,
    offset: u32,
    pre_index: bool,
    add: bool,
    write_back: bool,
) -> CpuModel {
    let base = s.regs[rn as int];
    let addr = transfer_address(base, offset, pre_index, add);
    write_back_base(s.with_reg(rt as int, word_at(mem, addr)), rn, base, offset, add, write_back)
}

/// The effect of LDRB: `rt` receives the byte at the transfer address,
/// zero-extended.
pub open spec fn load_register_byte_effect(
    s: CpuModel,
    mem: Seq<u8>,
    rt: usize,
    rn: usize,
    offset: u32,
    pre_index: bool,
    add: bool,
    write_back: bool,
) -> CpuModel {
    let base = s.regs[rn as int];
    let addr = transfer_address(base, offset, pre_index, add);
    write_back_base(s.with_reg(rt as int, mem[addr as int] as u32), rn, base, offset, add, write_back)
}

/// The effect of LDRD: `rt` receives the word at the transfer address and
/// `rt + 1` the word four bytes further on.
pub open spec fn load_doubleword_effect(
    s: CpuModel,
    mem: Seq<u8>,
    rt: usize,
    rn: usize,
    offset: u32,
    pre_index: bool,
    add: bool,
    write_back: bool,
) -> CpuModel {
    let base = s.regs[rn as int];
    let addr = transfer_address(base, offset, pre_index, add);
    let loaded = s.with_reg(rt as int, word_at(mem, addr)).with_reg(
        rt + 1,
        word_at(mem, addr.wrapping_add(4)),
    );
    write_back_base(loaded, rn, base, offset, add, write_back)
}

/// Whether `register_list` selects register `reg`.
pub open spec fn selects(register_list: u16, reg: int) -> bool {
    (register_list >> (reg as u16)) & 1 == 1
}

/// How many of the registers below `reg` the list selects.
pub open spec fn selected_below(register_list: u16, reg: int) -> int
    decreases reg,
{
    if reg <= 0 {
        0
    } else {
        selected_below(register_list, reg - 1) + if selects(register_list, reg - 1) {
            1int
        } else {
            0int
        }
    }
}

/// The address of the first word that LDM reads: one word beyond the base,
/// in the direction of `add`, when pre-indexed; the base itself otherwise.
pub open spec fn block_start(base: u32, pre_index: bool, add: bool) -> u32 {
    transfer_address(base, 4, pre_index, add)
}

/// The address from which LDM loads register `reg`: the words are read at
/// ascending addresses from `start`, one for each selected register, in the
/// order of the register numbers.
#[verifier::opaque]
pub open spec fn block_address(start: u32, register_list: u16, reg: int) -> u32 {
    wrap(start + 4 * selected_below(register_list, reg))
}

/// Among the registers below `reg`, no more than `reg` are selected.
pub proof fn lemma_selected_below_bounds(register_list: u16, reg: int)
    requires
        0 <= reg,
    ensures
        0 <= selected_below(register_list, reg) <= reg,
    decreases reg,
{
    if reg > 0 {
        lemma_selected_below_bounds(register_list, reg - 1);
    }
}

/// The addresses of a block transfer, register by register: the first is
/// `start`, and each selected register moves the address on by four.
pub proof fn lemma_block_address_step(start: u32, register_list: u16, reg: int)
    requires
        0 <= reg,
    ensures
        block_address(start, register_list, 0) == start,
        block_address(start, register_list, reg + 1) == (if selects(register_list, reg) {
            block_address(start, register_list, reg).wrapping_add(4)
        } else {
            block_address(start, register_list, reg)
        }),
{
    reveal(block_address);
    lemma_selected_below_bounds(register_list, reg);
    let here = start + 4 * selected_below(register_list, reg);
    assert(selected_below(register_list, reg + 1) == selected_below(register_list, reg) + if selects(
        register_list,
        reg,
    ) {
        1int
    } else {
        0int
    });
    assert(wrap(here + 4) == wrap(here).wrapping_add(4)) by {
        lemma_wrap_add(here, 4);
    }
}

/// Whether every word that LDM would read lies inside `mem`.
pub open spec fn block_in_bounds(mem: Seq<u8>, start: u32, register_list: u16) -> bool {
    forall|reg: int|
        0 <= reg < 16 && selects(register_list, reg) ==> word_in_bounds(
            mem,
            #[trigger] block_address(start, register_list, reg),
        )
}

/// The effect of LDM: every selected register receives its word; then, with
/// write-back, the base register moves by four bytes for each register
/// loaded, up when `add` is set and down otherwise.
pub open spec fn load_multiple_effect(
    s: CpuModel,
    mem: Seq<u8>,
    rn: usize,
    register_list: u16,
    pre_index: bool,
    add: bool,
    write_back: bool,
) -> CpuModel {
    let base = s.regs[rn as int];
    let start = block_start(base, pre_index, add);
    let loaded = CpuModel {
        regs: Seq::new(
            16,
            |reg: int|
                if selects(register_list, reg) {
                    word_at(mem, block_address(start, register_list, reg))
                } else {
                    s.regs[reg]
                },
        ),
        ..s
    };
    let span = 4 * selected_below(register_list, 16);
    if write_back {
        loaded.with_reg(
            rn as int,
            if add {
                wrap(base + span)
            } else {
                wrap(base - span)
            },
        )
    } else {
        loaded
    }
}

/// The first address, in the order of the register numbers from `reg` on,
/// at which LDM would read outside `mem`, if there is one.
pub open spec fn block_fault_from(mem: Seq<u8>, start: u32, register_list: u16, reg: int) -> Option<
    u32,
>
    decreases 16 - reg,
{
    if reg >= 16 {
        None
    } else if selects(register_list, reg) && !word_in_bounds(
        mem,
        block_address(start, register_list, reg),
    ) {
        Some(block_address(start, register_list, reg))
    } else {
        block_fault_from(mem, start, register_list, reg + 1)
    }
}

/// The first address at which LDM would read outside `mem`, if there is one.
pub open spec fn block_fault(mem: Seq<u8>, start: u32, register_list: u16) -> Option<u32> {
    block_fault_from(mem, start, register_list, 0)
}

/// LDM has no faulting address exactly when every word that it reads lies
/// inside the memory.
pub proof fn lemma_block_fault_from(mem: Seq<u8>, start: u32, register_list: u16, reg: int)
    requires
        0 <= reg <= 16,
    ensures
        block_fault_from(mem, start, register_list, reg) is None <==> forall|r: int|
            reg <= r < 16 && selects(register_list, r) ==> word_in_bounds(
                mem,
                #[trigger] block_address(start, register_list, r),
            ),
    decreases 16 - reg,
{
    if reg < 16 {
        lemma_block_fault_from(mem, start, register_list, reg + 1);
    }
}

/// The fault, if any, that keeps a load from executing in state `s`.
///
/// A load faults when it reads outside the memory, with the first such
/// address in the order of its reads. LDRD into r15 faults, after its reads,
/// for want of a register 16. An instruction that is no load never faults
/// here.
pub open spec fn load_fault(s: CpuModel, mem: Seq<u8>, inst: Instruction) -> Option<EmulatorFault> {
    match inst {
        Instruction::Ldr { rn, offset, pre_index, add, .. } => {
            let addr = transfer_address(s.regs[rn as int], offset, pre_index, add);
            if word_in_bounds(mem, addr) {
                None
            } else {
                Some(EmulatorFault::MemoryOutOfBounds(addr))
            }
        },
        Instruction::Ldrb { rn, offset, pre_index, add, .. } => {
            let addr = transfer_address(s.regs[rn as int], offset, pre_index, add);
            if byte_in_bounds(mem, addr) {
                None
            } else {
                Some(EmulatorFault::MemoryOutOfBounds(addr))
            }
        },
        Instruction::Ldrd { rt, rn, offset, pre_index, add, .. } => {
            let addr = transfer_address(s.regs[rn as int], offset, pre_index, add);
            if !word_in_bounds(mem, addr) {
                Some(EmulatorFault::MemoryOutOfBounds(addr))
            } else if !word_in_bounds(mem, addr.wrapping_add(4)) {
                Some(EmulatorFault::MemoryOutOfBounds(addr.wrapping_add(4)))
            } else if rt >= 15 {
                Some(EmulatorFault::InvalidRegister((rt + 1) as usize))
            } else {
                None
            }
        },
        Instruction::Ldm { rn, register_list, pre_index, add, .. } => {
            match block_fault(mem, block_start(s.regs[rn as int], pre_index, add), register_list) {
                Some(addr) => Some(EmulatorFault::MemoryOutOfBounds(addr)),
                None => None,
            }
        },
        _ => None,
    }
}

/// The effect of a load on the state, where it does not fault. Any other
/// instruction leaves the state alone here.
pub open spec fn load_effect(s: CpuModel, mem: Seq<u8>, inst: Instruction) -> CpuModel {
    match inst {
        Instruction::Ldr { rt, rn, offset, pre_index, add, write_back } => load_register_effect(
            s,
            mem,
            rt,
            rn,
            offset,
            pre_index,
            add,
            write_back,
        ),
        Instruction::Ldrb {
            rt,
            rn,
            offset,
            pre_index,
            add,
            write_back,
        } => load_register_byte_effect(s, mem, rt, rn, offset, pre_index, add, write_back),
        Instruction::Ldrd { rt, rn, offset, pre_index, add, write_back } => load_doubleword_effect(
            s,
            mem,
            rt,
            rn,
            offset,
            pre_index,
            add,
            write_back,
        ),
        Instruction::Ldm {
            rn,
            register_list,
            pre_index,
            add,
            write_back,
        } => load_multiple_effect(s, mem, rn, register_list, pre_index, add, write_back),
        _ => s,
    }
}

/// Computes the address that a single load reads and the effective address
/// that a write-back stores.
pub fn single_transfer_addresses(base: u32, offset: u32, pre_index: bool, add: bool) -> (addresses: (
    u32,
    u32,
))
    ensures
        addresses.0 == transfer_address(base, offset, pre_index, add),
        addresses.1 == effective_address(base, offset, add),
{
    let effective = if add {
        base.wrapping_add(offset)
    } else {
        base.wrapping_sub(offset)
    };
    let addr = if pre_index {
        effective
    } else {
        base
    };
    (addr, effective)
}

/// Looks for the first word that LDM would read outside the memory.
pub fn find_block_fault(memory: &Memory, start: u32, register_list: u16) -> (fault: Option<u32>)
    ensures
        fault == block_fault(memory@, start, register_list),
        fault is None <==> block_in_bounds(memory@, start, register_list),
{
    proof {
        lemma_block_fault_from(memory@, start, register_list, 0);
    }
    proof {
        lemma_block_address_step(start, register_list, 0);
    }
    let mut addr = start;
    let mut reg: usize = 0;
    while reg < 16
        invariant
            reg <= 16,
            addr == block_address(start, register_list, reg as int),
            block_fault(memory@, start, register_list) == block_fault_from(
                memory@,
                start,
                register_list,
                reg as int,
            ),
        decreases 16 - reg,
    {
        proof {
            lemma_block_address_step(start, register_list, reg as int);
        }
        if (register_list >> reg) & 1 == 1 {
            if !memory.contains_word(addr) {
                return Some(addr);
            }
            addr = addr.wrapping_add(4);
        }
        reg += 1;
    }
    None
}

impl Cpu {
    /// LDR: loads the word at the transfer address into `rt`.
    pub fn load_register(
        &mut self,
        rt: usize,
        rn: usize,
        offset: u32,
        pre_index: bool,
        add: bool,
        write_back: bool,
        memory: &Memory,
    )
        requires
            rt < 16,
            rn < 16,
            word_in_bounds(
                memory@,
                transfer_address(old(self)@.regs[rn as int], offset, pre_index, add),
            ),
        ensures
            final(self)@ == load_register_effect(
                old(self)@,
                memory@,
                rt,
                rn,
                offset,
                pre_index,
                add,
                write_back,
            ),
    {
        let base = self.cpu_state.get_register(rn);
        let (addr, effective_address) = single_transfer_addresses(base, offset, pre_index, add);
        let value = memory.read_word(addr);
        self.cpu_state.set_register(rt, value);
        if write_back {
            self.cpu_state.set_register(rn, effective_address);
        }
    }

    /// LDRB: loads the byte at the transfer address, zero-extended, into
    /// `rt`.
    pub fn load_register_byte(
        &mut self,
        rt: usize,
        rn: usize,
        offset: u32,
        pre_index: bool,
        add: bool,
        write_back: bool,
        memory: &Memory,
    )
        requires
            rt < 16,
            rn < 16,
            byte_in_bounds(
                memory@,
                transfer_address(old(self)@.regs[rn as int], offset, pre_index, add),
            ),
        ensures
            final(self)@ == load_register_byte_effect(
                old(self)@,
                memory@,
                rt,
                rn,
                offset,
                pre_index,
                add,
                write_back,
            ),
    {
        let base = self.cpu_state.get_register(rn);
        let (addr, effective_address) = single_transfer_addresses(base, offset, pre_index, add);
        let value = memory.read_byte(addr) as u32;
        self.cpu_state.set_register(rt, value);
        if write_back {
            self.cpu_state.set_register(rn, effective_address);
        }
    }

    /// LDRD: loads the two words at the transfer address into `rt` and
    /// `rt + 1`.
    pub fn load_doubleword(
        &mut self,
        rt: usize,
        rn: usize,
        offset: u32,
        pre_index: bool,
        add: bool,
        write_back: bool,
        memory: &Memory,
    )
        requires
            rt < 15,
            rn < 16,
            word_in_bounds(
                memory@,
                transfer_address(old(self)@.regs[rn as int], offset, pre_index, add),
            ),
            word_in_bounds(
                memory@,
                transfer_address(old(self)@.regs[rn as int], offset, pre_index, add).wrapping_add(
                    4,
                ),
            ),
        ensures
            final(self)@ == load_doubleword_effect(
                old(self)@,
                memory@,
                rt,
                rn,
                offset,
                pre_index,
                add,
                write_back,
            ),
    {
        let base = self.cpu_state.get_register(rn);
        let (addr, effective_address) = single_transfer_addresses(base, offset, pre_index, add);
        let lower_word = memory.read_word(addr);
        let upper_word = memory.read_word(addr.wrapping_add(4));
        self.cpu_state.set_register(rt, lower_word);
        self.cpu_state.set_register(rt + 1, upper_word);
        if write_back {
            self.cpu_state.set_register(rn, effective_address);
        }
    }

    /// LDM: loads one word for each register selected by `register_list`, in
    /// ascending register order from ascending addresses.
    pub fn load_multiple(
        &mut self,
        rn: usize,
        register_list: u16,
        pre_index: bool,
        add: bool,
        write_back: bool,
        memory: &Memory,
    )
        requires
            rn < 16,
            block_in_bounds(
                memory@,
                block_start(old(self)@.regs[rn as int], pre_index, add),
                register_list,
            ),
        ensures
            final(self)@ == load_multiple_effect(
                old(self)@,
                memory@,
                rn,
                register_list,
                pre_index,
                add,
                write_back,
            ),
    {
        let base = self.cpu_state.get_register(rn);
        let (start, _) = single_transfer_addresses(base, 4, pre_index, add);
        proof {
            lemma_block_address_step(start, register_list, 0);
        }
        let mut addr = start;
        let mut num_regs: u32 = 0;
        let mut reg: usize = 0;
        while reg < 16
            invariant
                reg <= 16,
                num_regs <= reg,
                num_regs == selected_below(register_list, reg as int),
                addr == block_address(start, register_list, reg as int),
                block_in_bounds(memory@, start, register_list),
                self@.cpsr == old(self)@.cpsr,
                self@.spsr == old(self)@.spsr,
                forall|i: int|
                    0 <= i < reg ==> self@.regs[i] == (if selects(register_list, i) {
                        word_at(memory@, block_address(start, register_list, i))
                    } else {
                        old(self)@.regs[i]
                    }),
                forall|i: int| reg <= i < 16 ==> self@.regs[i] == old(self)@.regs[i],
            decreases 16 - reg,
        {
            proof {
                lemma_block_address_step(start, register_list, reg as int);
            }
            if (register_list >> reg) & 1 == 1 {
                let value = memory.read_word(addr);
                self.cpu_state.set_register(reg, value);
                addr = addr.wrapping_add(4);
                num_regs += 1;
            }
            reg += 1;
        }
        if write_back {
            let new_base = if add {
                base.wrapping_add(num_regs * 4)
            } else {
                base.wrapping_sub(num_regs * 4)
            };
            self.cpu_state.set_register(rn, new_base);
        }
    }

    /// Executes a decoded load, after checking that it can be carried out.
    /// The result is `Err` exactly when the load faults; the processor is
    /// then unchanged. Any other instruction is left alone.
    pub fn execute_load(&mut self, decoded: Instruction, memory: &Memory) -> (outcome: Result<
        (),
        EmulatorFault,
    >)
        requires
            decoded.well_formed(),
        ensures
            outcome is Ok <==> load_fault(old(self)@, memory@, decoded) is None,
            outcome matches Err(fault) ==> load_fault(old(self)@, memory@, decoded) == Some(fault)
                && final(self)@ == old(self)@,
            outcome is Ok ==> final(self)@ == load_effect(old(self)@, memory@, decoded),
    {
        match decoded {
            Instruction::Ldr { rt, rn, offset, pre_index, add, write_back } => {
                let base = self.cpu_state.get_register(rn);
                let (addr, _) = single_transfer_addresses(base, offset, pre_index, add);
                if !memory.contains_word(addr) {
                    return Err(EmulatorFault::MemoryOutOfBounds(addr));
                }
                self.load_register(rt, rn, offset, pre_index, add, write_back, memory);
            },
            Instruction::Ldm { rn, register_list, pre_index, add, write_back } => {
                let base = self.cpu_state.get_register(rn);
                let (start, _) = single_transfer_addresses(base, 4, pre_index, add);
                match find_block_fault(memory, start, register_list) {
                    Some(addr) => {
                        return Err(EmulatorFault::MemoryOutOfBounds(addr));
                    },
                    None => {},
                }
                self.load_multiple(rn, register_list, pre_index, add, write_back, memory);
            },
            Instruction::Ldrb { rt, rn, offset, pre_index, add, write_back } => {
                let base = self.cpu_state.get_register(rn);
                let (addr, _) = single_transfer_addresses(base, offset, pre_index, add);
                if !memory.contains_byte(addr) {
                    return Err(EmulatorFault::MemoryOutOfBounds(addr));
                }
                self.load_register_byte(rt, rn, offset, pre_index, add, write_back, memory);
            },
            Instruction::Ldrd { rt, rn, offset, pre_index, add, write_back } => {
                let base = self.cpu_state.get_register(rn);
                let (addr, _) = single_transfer_addresses(base, offset, pre_index, add);
                if !memory.contains_word(addr) {
                    return Err(EmulatorFault::MemoryOutOfBounds(addr));
                }
                if !memory.contains_word(addr.wrapping_add(4)) {
                    return Err(EmulatorFault::MemoryOutOfBounds(addr.wrapping_add(4)));
                }
                if rt >= 15 {
                    return Err(EmulatorFault::InvalidRegister(rt + 1));
                }
                self.load_doubleword(rt, rn, offset, pre_index, add, write_back, memory);
            },
            _ => {},
        }
        Ok(())
    }
}

/// What a word decodes to when it is read as a single data transfer.
///
/// Only loads (bit 20 set) are recognised. `rt` is in bits 15..12, `rn` in
/// bits 19..16 and the immediate offset in bits 11..0; bit 24 selects
/// pre-indexing, bit 23 adding the offset, bit 21 write-back. Bits 7..4 equal
/// to `1010` select the doubleword load; otherwise bit 22 tells a byte load
/// from a word load.
pub open spec fn spec_decode_single_data_transfer(instruction: u32) -> Instruction {
    let rt = ((instruction >> 12) & 0xF) as usize;
    let rn = ((instruction >> 16) & 0xF) as usize;
    let offset = instruction & 0xFFF;
    let pre_index = (instruction >> 24) & 1 == 1;
    let add = (instruction >> 23) & 1 == 1;
    let write_back = (instruction >> 21) & 1 == 1;
    if (instruction >> 20) & 1 != 1 {
        Instruction::Unknown(instruction)
    } else if (instruction >> 4) & 0xF == 0b1010 {
        Instruction::Ldrd { rt, rn, offset, pre_index, add, write_back }
    } else if (instruction >> 22) & 1 == 1 {
        Instruction::Ldrb { rt, rn, offset, pre_index, add, write_back }
    } else {
        Instruction::Ldr { rt, rn, offset, pre_index, add, write_back }
    }
}

/// Decodes a word of the single-data-transfer group.
#[verifier::when_used_as_spec(spec_decode_single_data_transfer)]
pub fn decode_single_data_transfer(instruction: u32) -> (decoded: Instruction)
    ensures
        decoded == spec_decode_single_data_transfer(instruction),
        decoded.well_formed(),
{
    proof {
        lemma_field_bounds(instruction);
    }
    if ((instruction >> 20) & 1) == 1 {
        let rt = ((instruction >> 12) & 0xF) as usize;
        let rn = ((instruction >> 16) & 0xF) as usize;
        let offset: u32 = instruction & 0xFFF;
        let pre_index = ((instruction >> 24) & 1) == 1;
        let add = ((instruction >> 23) & 1) == 1;
        let write_back = ((instruction >> 21) & 1) == 1;
        let b_bit = ((instruction >> 22) & 1) == 1;
        let bits_7_to_4: u32 = (instruction >> 4) & 0xF;
        if bits_7_to_4 == 0b1010 {
            Instruction::Ldrd { rt, rn, offset, pre_index, add, write_back }
        } else if b_bit {
            Instruction::Ldrb { rt, rn, offset, pre_index, add, write_back }
        } else {
            Instruction::Ldr { rt, rn, offset, pre_index, add, write_back }
        }
    } else {
        Instruction::Unknown(instruction)
    }
}

/// What a word decodes to when it is read as a block data transfer.
///
/// Only the load (bit 20 set) is recognised. `rn` is in bits 19..16 and bits
/// 15..0 select the registers, bit `i` standing for register `i`; bit 24
/// selects pre-indexing, bit 23 an ascending base, bit 21 write-back.
pub open spec fn spec_decode_block_data_transfer(instruction: u32) -> Instruction {
    if (instruction >> 20) & 1 == 1 {
        Instruction::Ldm {
            rn: ((instruction >> 16) & 0xF) as usize,
            register_list: (instruction & 0xFFFF) as u16,
            pre_index: (instruction >> 24) & 1 == 1,
            add: (instruction >> 23) & 1 == 1,
            write_back: (instruction >> 21) & 1 == 1,
        }
    } else {
        Instruction::Unknown(instruction)
    }
}

/// Decodes a word of the block-data-transfer group.
#[verifier::when_used_as_spec(spec_decode_block_data_transfer)]
pub fn decode_block_data_transfer(instruction: u32) -> (decoded: Instruction)
    ensures
        decoded == spec_decode_block_data_transfer(instruction),
        decoded.well_formed(),
{
    proof {
        lemma_field_bounds(instruction);
    }
    let rn = ((instruction >> 16) & 0xF) as usize;
    let register_list = (instruction & 0xFFFF) as u16;
    let pre_index = ((instruction >> 24) & 1) == 1;
    let add = ((instruction >> 23) & 1) == 1;
    let write_back = ((instruction >> 21) & 1) == 1;
    let is_load = ((instruction >> 20) & 1) == 1;
    if is_load {
        Instruction::Ldm { rn, register_list, pre_index, add, write_back }
    } else {
        Instruction::Unknown(instruction)
    }
}

} // verus!
