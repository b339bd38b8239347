use emulator::cpu::{Cpu, EmulatorFault};
use emulator::cpu_instructions::instruction_decoding::Instruction;
use emulator::cpu_instructions::load_store_instructions::{
    find_block_fault, single_transfer_addresses,
};
use emulator::memory::Memory;

fn memory_with_words(words: &[(u32, u32)]) -> Memory {
    let mut memory = Memory::new(1024);
    for (address, value) in words {
        memory.write_word(*address, *value);
    }
    memory
}

#[test]
fn transfer_addresses_follow_the_indexing_mode() {
    assert_eq!(single_transfer_addresses(100, 8, true, true), (108, 108));
    assert_eq!(single_transfer_addresses(100, 8, true, false), (92, 92));
    assert_eq!(single_transfer_addresses(100, 8, false, true), (100, 108));
    assert_eq!(single_transfer_addresses(100, 8, false, false), (100, 92));
    assert_eq!(single_transfer_addresses(0, 4, true, false), (0xFFFF_FFFC, 0xFFFF_FFFC));
    assert_eq!(single_transfer_addresses(0xFFFF_FFFE, 4, true, true), (2, 2));
}

#[test]
fn ldr_pre_indexed_subtracting() {
    let memory = memory_with_words(&[(92, 0x1122_3344)]);
    let mut cpu = Cpu::new();
    cpu.cpu_state.set_register(1, 100);
    cpu.load_register(2, 1, 8, true, false, false, &memory);
    assert_eq!(cpu.cpu_state.get_register(2), 0x1122_3344);
    assert_eq!(cpu.cpu_state.get_register(1), 100);
}

#[test]
fn ldr_post_indexed_with_write_back() {
    let memory = memory_with_words(&[(100, 0xAAAA_0001), (108, 0xBBBB_0002)]);
    let mut cpu = Cpu::new();
    cpu.cpu_state.set_register(1, 100);
    cpu.load_register(2, 1, 8, false, true, true, &memory);
    assert_eq!(cpu.cpu_state.get_register(2), 0xAAAA_0001);
    assert_eq!(cpu.cpu_state.get_register(1), 108);
}

#[test]
fn ldr_into_its_own_base_with_write_back_keeps_the_address() {
    let memory = memory_with_words(&[(104, 0xCAFE_F00D)]);
    let mut cpu = Cpu::new();
    cpu.cpu_state.set_register(1, 100);
    cpu.load_register(1, 1, 4, true, true, true, &memory);
    assert_eq!(cpu.cpu_state.get_register(1), 104);
    cpu.cpu_state.set_register(1, 100);
    cpu.load_register(1, 1, 4, true, true, false, &memory);
    assert_eq!(cpu.cpu_state.get_register(1), 0xCAFE_F00D);
}

#[test]
fn ldr_leaves_the_flags() {
    let memory = memory_with_words(&[(0, 0)]);
    let mut cpu = Cpu::new();
    cpu.cpu_state.CPSR.value = 0xA000_0000;
    cpu.cpu_state.SPSR.value = 0x5000_0000;
    cpu.load_register(2, 1, 0, true, true, false, &memory);
    assert_eq!(cpu.cpu_state.CPSR.value, 0xA000_0000);
    assert_eq!(cpu.cpu_state.SPSR.value, 0x5000_0000);
}

#[test]
fn ldrb_zero_extends() {
    let mut memory = Memory::new(1024);
    memory.write_bytes(131, &[0x11, 0xAB, 0x22]);
    let mut cpu = Cpu::new();
    cpu.cpu_state.set_register(1, 100);
    cpu.cpu_state.set_register(2, 0xFFFF_FFFF);
    cpu.load_register_byte(2, 1, 0x20, true, true, true, &memory);
    assert_eq!(cpu.cpu_state.get_register(2), 0xAB);
    assert_eq!(cpu.cpu_state.get_register(1), 132);
}

#[test]
fn ldrb_reads_the_last_byte_of_memory() {
    let mut memory = Memory::new(1024);
    memory.write_bytes(1023, &[0x7F]);
    let mut cpu = Cpu::new();
    cpu.cpu_state.set_register(1, 1023);
    cpu.load_register_byte(0, 1, 0, false, true, false, &memory);
    assert_eq!(cpu.cpu_state.get_register(0), 0x7F);
}

#[test]
fn ldrd_loads_two_consecutive_words() {
    let memory = memory_with_words(&[(360, 0xDEAD_BEEF), (364, 0xFEED_FACE)]);
    let mut cpu = Cpu::new();
    cpu.cpu_state.set_register(3, 200);
    cpu.load_doubleword(4, 3, 0xA0, true, true, true, &memory);
    assert_eq!(cpu.cpu_state.get_register(4), 0xDEAD_BEEF);
    assert_eq!(cpu.cpu_state.get_register(5), 0xFEED_FACE);
    assert_eq!(cpu.cpu_state.get_register(3), 360);
}

#[test]
fn ldrd_post_indexed_subtracting_without_write_back() {
    let memory = memory_with_words(&[(400, 0xAAAA_AAAA), (404, 0xBBBB_BBBB)]);
    let mut cpu = Cpu::new();
    cpu.cpu_state.set_register(3, 400);
    cpu.load_doubleword(4, 3, 0xA0, false, false, false, &memory);
    assert_eq!(cpu.cpu_state.get_register(4), 0xAAAA_AAAA);
    assert_eq!(cpu.cpu_state.get_register(5), 0xBBBB_BBBB);
    assert_eq!(cpu.cpu_state.get_register(3), 400);
}

#[test]
fn ldrd_into_r14_fills_the_program_counter() {
    let memory = memory_with_words(&[(16, 0x1111_1111), (20, 0x0000_0040)]);
    let mut cpu = Cpu::new();
    cpu.cpu_state.set_register(0, 16);
    cpu.load_doubleword(14, 0, 0, true, true, false, &memory);
    assert_eq!(cpu.cpu_state.get_register(14), 0x1111_1111);
    assert_eq!(cpu.cpu_state.get_register(15), 0x0000_0040);
}

#[test]
fn ldm_loads_in_ascending_register_order() {
    let memory = memory_with_words(&[(304, 0x1111_1111), (308, 0x2222_2222), (312, 0x3333_3333)]);
    let mut cpu = Cpu::new();
    cpu.cpu_state.set_register(5, 300);
    cpu.cpu_state.set_register(1, 0x77);
    cpu.load_multiple(5, 0x0015, true, true, true, &memory);
    assert_eq!(cpu.cpu_state.get_register(0), 0x1111_1111);
    assert_eq!(cpu.cpu_state.get_register(1), 0x77);
    assert_eq!(cpu.cpu_state.get_register(2), 0x2222_2222);
    assert_eq!(cpu.cpu_state.get_register(3), 0);
    assert_eq!(cpu.cpu_state.get_register(4), 0x3333_3333);
    assert_eq!(cpu.cpu_state.get_register(5), 312);
}

#[test]
fn ldm_descending_still_reads_upwards() {
    let memory = memory_with_words(&[(496, 0xAAAA_AAAA), (500, 0xBBBB_BBBB)]);
    let mut cpu = Cpu::new();
    cpu.cpu_state.set_register(6, 500);
    // Pre-indexed and descending: the first word is read at base - 4.
    cpu.load_multiple(6, 0x0102, true, false, true, &memory);
    assert_eq!(cpu.cpu_state.get_register(1), 0xAAAA_AAAA);
    assert_eq!(cpu.cpu_state.get_register(8), 0xBBBB_BBBB);
    assert_eq!(cpu.cpu_state.get_register(6), 492);
}

#[test]
fn ldm_with_an_empty_list_only_writes_back() {
    let memory = Memory::new(0);
    let mut cpu = Cpu::new();
    cpu.cpu_state.set_register(6, 500);
    cpu.load_multiple(6, 0, true, true, true, &memory);
    for reg in 0..16 {
        assert_eq!(cpu.cpu_state.get_register(reg), if reg == 6 { 500 } else { 0 });
    }
}

#[test]
fn ldm_write_back_prevails_over_a_loaded_base() {
    let memory = memory_with_words(&[(100, 0x0000_0010), (104, 0x0000_0020)]);
    let mut cpu = Cpu::new();
    cpu.cpu_state.set_register(0, 100);
    cpu.load_multiple(0, 0x0003, false, true, true, &memory);
    assert_eq!(cpu.cpu_state.get_register(0), 108);
    assert_eq!(cpu.cpu_state.get_register(1), 0x20);
    cpu.cpu_state.set_register(0, 100);
    cpu.load_multiple(0, 0x0003, false, true, false, &memory);
    assert_eq!(cpu.cpu_state.get_register(0), 0x10);
    assert_eq!(cpu.cpu_state.get_register(1), 0x20);
}

#[test]
fn ldm_of_every_register() {
    let mut memory = Memory::new(1024);
    for reg in 0..16u32 {
        memory.write_word(64 + 4 * reg, 0x100 + reg);
    }
    let mut cpu = Cpu::new();
    cpu.cpu_state.set_register(13, 64);
    cpu.load_multiple(13, 0xFFFF, false, true, false, &memory);
    for reg in 0..16 {
        assert_eq!(cpu.cpu_state.get_register(reg), 0x100 + reg as u32);
    }
}

#[test]
fn block_fault_is_the_first_word_out_of_bounds() {
    let memory = Memory::new(16);
    assert_eq!(find_block_fault(&memory, 0, 0x000F), None);
    assert_eq!(find_block_fault(&memory, 4, 0x000F), Some(16));
    assert_eq!(find_block_fault(&memory, 12, 0x8001), Some(16));
    assert_eq!(find_block_fault(&memory, 12, 0x8000), None);
    assert_eq!(find_block_fault(&memory, 13, 0x0001), Some(13));
    assert_eq!(find_block_fault(&memory, 2000, 0), None);
    // The addresses wrap round: the second word is read at 0.
    assert_eq!(find_block_fault(&memory, 0xFFFF_FFFC, 0x0003), Some(0xFFFF_FFFC));
}

#[test]
fn a_load_out_of_bounds_faults_and_changes_nothing() {
    let memory = Memory::new(1024);
    let mut cpu = Cpu::new();
    cpu.cpu_state.set_register(1, 1020);
    let ldr = Instruction::Ldr {
        rt: 2,
        rn: 1,
        offset: 4,
        pre_index: true,
        add: true,
        write_back: true,
    };
    assert_eq!(cpu.execute_load(ldr, &memory), Err(EmulatorFault::MemoryOutOfBounds(1024)));
    assert_eq!(cpu.cpu_state.get_register(1), 1020);
    assert_eq!(cpu.cpu_state.get_register(2), 0);

    let ldr = Instruction::Ldr {
        rt: 2,
        rn: 1,
        offset: 1,
        pre_index: true,
        add: true,
        write_back: true,
    };
    assert_eq!(cpu.execute_load(ldr, &memory), Err(EmulatorFault::MemoryOutOfBounds(1021)));

    let ldrb = Instruction::Ldrb {
        rt: 2,
        rn: 1,
        offset: 3,
        pre_index: true,
        add: true,
        write_back: false,
    };
    assert_eq!(cpu.execute_load(ldrb, &memory), Ok(()));
    let ldrb = Instruction::Ldrb {
        rt: 2,
        rn: 1,
        offset: 4,
        pre_index: true,
        add: true,
        write_back: false,
    };
    assert_eq!(cpu.execute_load(ldrb, &memory), Err(EmulatorFault::MemoryOutOfBounds(1024)));
}

#[test]
fn ldrd_faults_in_the_order_of_its_reads() {
    let memory = Memory::new(1024);
    let mut cpu = Cpu::new();
    cpu.cpu_state.set_register(1, 1016);
    let ldrd = |rt: usize, offset: u32| Instruction::Ldrd {
        rt,
        rn: 1,
        offset,
        pre_index: true,
        add: true,
        write_back: true,
    };
    assert_eq!(cpu.execute_load(ldrd(15, 8), &memory), Err(EmulatorFault::MemoryOutOfBounds(1024)));
    assert_eq!(cpu.execute_load(ldrd(15, 4), &memory), Err(EmulatorFault::MemoryOutOfBounds(1024)));
    assert_eq!(cpu.execute_load(ldrd(15, 0), &memory), Err(EmulatorFault::InvalidRegister(16)));
    for reg in 0..16 {
        assert_eq!(cpu.cpu_state.get_register(reg), if reg == 1 { 1016 } else { 0 });
    }
    assert_eq!(cpu.execute_load(ldrd(14, 0), &memory), Ok(()));
    assert_eq!(cpu.cpu_state.get_register(1), 1016);
}

#[test]
fn ldm_with_a_word_out_of_bounds_loads_nothing() {
    let memory = memory_with_words(&[(1016, 0x1111_1111), (1020, 0x2222_2222)]);
    let mut cpu = Cpu::new();
    cpu.cpu_state.set_register(7, 1016);
    let ldm = |register_list: u16| Instruction::Ldm {
        rn: 7,
        register_list,
        pre_index: false,
        add: true,
        write_back: true,
    };
    assert_eq!(cpu.execute_load(ldm(0x0007), &memory), Err(EmulatorFault::MemoryOutOfBounds(1024)));
    for reg in 0..16 {
        assert_eq!(cpu.cpu_state.get_register(reg), if reg == 7 { 1016 } else { 0 });
    }
    assert_eq!(cpu.execute_load(ldm(0x0003), &memory), Ok(()));
    assert_eq!(cpu.cpu_state.get_register(0), 0x1111_1111);
    assert_eq!(cpu.cpu_state.get_register(1), 0x2222_2222);
    assert_eq!(cpu.cpu_state.get_register(7), 1024);
}

#[test]
fn execute_load_leaves_other_instructions_alone() {
    let memory = Memory::new(16);
    let mut cpu = Cpu::new();
    cpu.cpu_state.set_register(1, 5);
    let add = Instruction::AddImmediate { rd: 0, rn: 1, imm12: 1, set_flags: true };
    assert_eq!(cpu.execute_load(add, &memory), Ok(()));
    assert_eq!(cpu.execute_load(Instruction::Nop, &memory), Ok(()));
    assert_eq!(cpu.cpu_state.get_register(0), 0);
    assert_eq!(cpu.cpu_state.get_register(1), 5);
}
