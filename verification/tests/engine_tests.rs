use emulator::cpu::{Cpu, EmulatorFault, RunOutcome, StepOutcome, HALT_INSTRUCTION};
use emulator::cpu_instructions::instruction_decoding::Instruction;
use emulator::memory::Memory;

fn program(words: &[u32]) -> Memory {
    let mut memory = Memory::new(1024);
    let mut address = 0;
    for word in words {
        memory.write_word(address, *word);
        address += 4;
    }
    memory
}

fn registers(cpu: &Cpu) -> Vec<u32> {
    (0..16).map(|reg| cpu.cpu_state.get_register(reg)).collect()
}

#[test]
fn the_halt_word_stops_the_run_where_it_stands() {
    let mut memory = program(&[HALT_INSTRUCTION]);
    let mut cpu = Cpu::new();
    assert_eq!(cpu.run_program(&mut memory), RunOutcome::Halted);
    assert_eq!(registers(&cpu), vec![0; 16]);
    assert_eq!(cpu.cpu_state.CPSR.value, 0);
}

#[test]
fn the_halt_word_is_not_decoded() {
    // Decoded, the halt word would be an unknown instruction.
    assert_eq!(decode(HALT_INSTRUCTION), Instruction::Unknown(HALT_INSTRUCTION));
    let mut memory = Memory::new(1024);
    memory.write_word(512, HALT_INSTRUCTION);
    let mut cpu = Cpu::new();
    cpu.cpu_state.set_register(15, 512);
    assert_eq!(cpu.step(&mut memory), StepOutcome::Halted);
    assert_eq!(cpu.cpu_state.get_register(15), 512);
    assert_eq!(cpu.step(&mut memory), StepOutcome::Halted);
    assert_eq!(cpu.cpu_state.get_register(15), 512);
}

fn decode(word: u32) -> Instruction {
    emulator::cpu_instructions::instruction_decoding::decode_arm(word)
}

#[test]
fn fetch_moves_the_program_counter_on_unless_halted() {
    let memory = program(&[0xE3A0_0005, HALT_INSTRUCTION]);
    let mut cpu = Cpu::new();
    assert_eq!(cpu.cpu_state.fetch_instruction(&memory), (0xE3A0_0005, false));
    assert_eq!(cpu.cpu_state.get_register(15), 4);
    assert_eq!(cpu.cpu_state.fetch_instruction(&memory), (HALT_INSTRUCTION, false));
    assert_eq!(cpu.cpu_state.get_register(15), 4);
    cpu.cpu_state.CPSR.set_thumb_state(true);
    cpu.cpu_state.set_register(15, 0);
    assert_eq!(cpu.cpu_state.fetch_instruction(&memory), (0xE3A0_0005, true));
}

#[test]
fn fetch_wraps_the_program_counter() {
    let mut memory = Memory::new(8);
    memory.write_word(0, 0xE1A0_0000);
    let mut cpu = Cpu::new();
    cpu.cpu_state.set_register(15, 0);
    cpu.cpu_state.fetch_instruction(&memory);
    assert_eq!(cpu.cpu_state.get_register(15), 4);
}

#[test]
fn a_small_program_runs_to_its_halt() {
    let mut memory = program(&[
        0xE3A0_0005, // MOV r0, #5
        0xE280_1003, // ADD r1, r0, #3
        0xE041_2000, // SUB r2, r1, r0
        0xE1A0_3102, // MOV r3, r2, LSL #2
        0xE3E0_4000, // MVN r4, #0
        HALT_INSTRUCTION,
    ]);
    let mut cpu = Cpu::new();
    assert_eq!(cpu.run_program(&mut memory), RunOutcome::Halted);
    assert_eq!(cpu.cpu_state.get_register(0), 5);
    assert_eq!(cpu.cpu_state.get_register(1), 8);
    assert_eq!(cpu.cpu_state.get_register(2), 3);
    assert_eq!(cpu.cpu_state.get_register(3), 12);
    assert_eq!(cpu.cpu_state.get_register(4), 0xFFFF_FFFF);
    assert_eq!(cpu.cpu_state.get_register(15), 20);
}

#[test]
fn a_counting_loop_runs_to_its_halt() {
    let mut memory = program(&[
        0xE3A0_0003, // MOV r0, #3
        0xE3A0_1000, // MOV r1, #0
        0xE281_100A, // loop: ADD r1, r1, #10
        0xE240_0001, // SUB r0, r0, #1  (immediate forms always set the flags)
        0x1AFF_FFFD, // BNE loop: back by three words from the word after the branch
        HALT_INSTRUCTION,
    ]);
    let mut cpu = Cpu::new();
    assert_eq!(cpu.run_program(&mut memory), RunOutcome::Halted);
    assert_eq!(cpu.cpu_state.get_register(0), 0);
    assert_eq!(cpu.cpu_state.get_register(1), 30);
    assert_eq!(cpu.cpu_state.get_register(15), 20);
    assert!(cpu.cpu_state.CPSR.is_zero());
}

#[test]
fn running_does_not_change_the_memory() {
    let words = [0xE3A0_0005, 0xE590_1000, HALT_INSTRUCTION];
    let mut memory = program(&words);
    let mut cpu = Cpu::new();
    cpu.run_program(&mut memory);
    let mut address = 0;
    for word in words {
        assert_eq!(memory.read_word(address), word);
        address += 4;
    }
    for address in 12..1024 {
        assert_eq!(memory.read_byte(address), 0);
    }
}

#[test]
fn a_run_stops_at_its_step_limit() {
    let mut memory = program(&[
        0xE280_0001, // ADD r0, r0, #1
        0xEAFF_FFFE, // B back to the ADD
    ]);
    let mut cpu = Cpu::new();
    assert_eq!(cpu.run_steps(&mut memory, 0), RunOutcome::StepLimit);
    assert_eq!(registers(&cpu), vec![0; 16]);
    assert_eq!(cpu.run_steps(&mut memory, 1), RunOutcome::StepLimit);
    assert_eq!(cpu.cpu_state.get_register(0), 1);
    assert_eq!(cpu.cpu_state.get_register(15), 4);
    assert_eq!(cpu.run_steps(&mut memory, 1), RunOutcome::StepLimit);
    assert_eq!(cpu.cpu_state.get_register(15), 0);
    assert_eq!(cpu.run_steps(&mut memory, 20), RunOutcome::StepLimit);
    assert_eq!(cpu.cpu_state.get_register(0), 11);
    assert_eq!(cpu.cpu_state.get_register(15), 0);
}

#[test]
fn a_run_in_two_parts_is_the_run_in_one() {
    let words = [
        0xE3A0_0003, 0xE3A0_1000, 0xE281_100A, 0xE240_0001, 0x1AFF_FFFD, HALT_INSTRUCTION,
    ];
    for first in 0..14u64 {
        let mut memory = program(&words);
        let mut whole = Cpu::new();
        let expected = whole.run_steps(&mut memory, 14);
        let mut parts = Cpu::new();
        let outcome = match parts.run_steps(&mut memory, first) {
            RunOutcome::StepLimit => parts.run_steps(&mut memory, 14 - first),
            other => other,
        };
        assert_eq!(outcome, expected);
        assert_eq!(registers(&parts), registers(&whole));
        assert_eq!(parts.cpu_state.CPSR.value, whole.cpu_state.CPSR.value);
    }
}

#[test]
fn an_instruction_whose_condition_fails_is_skipped() {
    let mut memory = program(&[
        0x03A0_0005, // MOVEQ r0, #5
        0x13A0_1007, // MOVNE r1, #7
        0xF3A0_2009, // MOV r2, #9 under the condition that never holds
        HALT_INSTRUCTION,
    ]);
    let mut cpu = Cpu::new();
    assert_eq!(cpu.run_program(&mut memory), RunOutcome::Halted);
    assert_eq!(cpu.cpu_state.get_register(0), 0);
    assert_eq!(cpu.cpu_state.get_register(1), 7);
    assert_eq!(cpu.cpu_state.get_register(2), 0);
    assert_eq!(cpu.cpu_state.get_register(15), 12);
}

#[test]
fn a_skipped_instruction_cannot_fault() {
    let mut memory = program(&[
        0x0E00_0000, // unimplemented, under EQ
        0x0590_1FFF, // LDREQ r1, [r0, #0xFFF], out of bounds
        HALT_INSTRUCTION,
    ]);
    let mut cpu = Cpu::new();
    assert_eq!(cpu.run_program(&mut memory), RunOutcome::Halted);
    assert_eq!(cpu.cpu_state.get_register(15), 8);
}

#[test]
fn nop_executes_under_every_condition() {
    let mut memory = Memory::new(1024);
    let mut cpu = Cpu::new();
    cpu.cpu_state.CPSR.value = 0x6000_0000;
    cpu.cpu_state.SPSR.value = 0x9000_0000;
    for cond in 0..16u32 {
        assert_eq!(cpu.interpret_instruction(cond << 28 | 0x0320_F000, &mut memory), Ok(()));
    }
    assert_eq!(registers(&cpu), vec![0; 16]);
    assert_eq!(cpu.cpu_state.CPSR.value, 0x6000_0000);
}

#[test]
fn an_unknown_instruction_faults() {
    let mut memory = program(&[0xE3A0_0005, 0xEE00_0000, HALT_INSTRUCTION]);
    let mut cpu = Cpu::new();
    assert_eq!(
        cpu.run_program(&mut memory),
        RunOutcome::Fault(EmulatorFault::UnknownInstruction(0xEE00_0000))
    );
    // The processor stands before the faulting instruction.
    assert_eq!(cpu.cpu_state.get_register(0), 5);
    assert_eq!(cpu.cpu_state.get_register(15), 4);
    assert_eq!(
        cpu.step(&mut memory),
        StepOutcome::Fault(EmulatorFault::UnknownInstruction(0xEE00_0000))
    );
    assert_eq!(cpu.cpu_state.get_register(15), 4);
}

#[test]
fn stores_are_unknown_instructions() {
    let mut memory = Memory::new(1024);
    let mut cpu = Cpu::new();
    assert_eq!(
        cpu.interpret_instruction(0xE581_2000, &mut memory),
        Err(EmulatorFault::UnknownInstruction(0xE581_2000))
    );
    assert_eq!(
        cpu.interpret_instruction(0xE8A5_0015, &mut memory),
        Err(EmulatorFault::UnknownInstruction(0xE8A5_0015))
    );
}

#[test]
fn words_of_the_unimplemented_group_fault() {
    let mut cpu = Cpu::new();
    cpu.cpu_state.set_register(1, 100);
    cpu.cpu_state.set_register(3, 200);
    for word in [0xED70_3020u32, 0xED51_2020, 0xED33_40A0, 0xEC13_40A0] {
        let mut memory = program(&[word, HALT_INSTRUCTION]);
        cpu.cpu_state.set_register(15, 0);
        assert_eq!(
            cpu.run_program(&mut memory),
            RunOutcome::Fault(EmulatorFault::UnknownInstruction(word))
        );
        assert_eq!(cpu.cpu_state.get_register(15), 0);
        assert_eq!(cpu.cpu_state.get_register(1), 100);
        assert_eq!(cpu.cpu_state.get_register(3), 200);
    }
}

#[test]
fn a_fetch_out_of_bounds_faults() {
    let mut memory = Memory::new(1024);
    let mut cpu = Cpu::new();
    cpu.cpu_state.set_register(15, 1024);
    assert_eq!(
        cpu.run_program(&mut memory),
        RunOutcome::Fault(EmulatorFault::MemoryOutOfBounds(1024))
    );
    cpu.cpu_state.set_register(15, 1021);
    assert_eq!(
        cpu.step(&mut memory),
        StepOutcome::Fault(EmulatorFault::MemoryOutOfBounds(1021))
    );
    assert_eq!(cpu.cpu_state.get_register(15), 1021);
    cpu.cpu_state.set_register(15, 0xFFFF_FFFE);
    assert_eq!(
        cpu.step(&mut memory),
        StepOutcome::Fault(EmulatorFault::MemoryOutOfBounds(0xFFFF_FFFE))
    );
}

#[test]
fn running_off_the_end_of_the_program_faults() {
    let mut memory = Memory::new(8);
    memory.write_word(0, 0xE3A0_0001);
    memory.write_word(4, 0xE3A0_1002);
    let mut cpu = Cpu::new();
    assert_eq!(
        cpu.run_program(&mut memory),
        RunOutcome::Fault(EmulatorFault::MemoryOutOfBounds(8))
    );
    assert_eq!(cpu.cpu_state.get_register(0), 1);
    assert_eq!(cpu.cpu_state.get_register(1), 2);
    assert_eq!(cpu.cpu_state.get_register(15), 8);
}

#[test]
fn thumb_state_faults() {
    let mut memory = program(&[0xE3A0_0005, HALT_INSTRUCTION]);
    let mut cpu = Cpu::new();
    cpu.cpu_state.CPSR.set_thumb_state(true);
    assert_eq!(cpu.run_program(&mut memory), RunOutcome::Fault(EmulatorFault::ThumbState));
    assert_eq!(registers(&cpu), vec![0; 16]);
    // Even on the halt word.
    cpu.cpu_state.set_register(15, 4);
    assert_eq!(cpu.step(&mut memory), StepOutcome::Fault(EmulatorFault::ThumbState));
    assert_eq!(cpu.cpu_state.get_register(15), 4);
}

#[test]
fn bx_to_an_odd_address_ends_in_thumb_state() {
    let mut memory = program(&[
        0xE3A0_0021, // MOV r0, #0x21
        0xE12F_FF10, // BX r0
    ]);
    memory.write_word(0x20, HALT_INSTRUCTION);
    let mut cpu = Cpu::new();
    assert_eq!(cpu.run_program(&mut memory), RunOutcome::Fault(EmulatorFault::ThumbState));
    assert_eq!(cpu.cpu_state.get_register(15), 0x20);
    assert!(cpu.cpu_state.CPSR.is_thumb_state());
}

#[test]
fn a_faulting_load_leaves_the_program_counter_on_it() {
    let mut memory = program(&[
        0xE3A0_0B01, // MOV r0, #1024
        0xE590_1000, // LDR r1, [r0]
        HALT_INSTRUCTION,
    ]);
    let mut cpu = Cpu::new();
    assert_eq!(
        cpu.run_program(&mut memory),
        RunOutcome::Fault(EmulatorFault::MemoryOutOfBounds(1024))
    );
    assert_eq!(cpu.cpu_state.get_register(0), 1024);
    assert_eq!(cpu.cpu_state.get_register(1), 0);
    assert_eq!(cpu.cpu_state.get_register(15), 4);
}

#[test]
fn ldrd_into_the_program_counter_faults() {
    let mut memory = program(&[0xE5B3_F0A0, HALT_INSTRUCTION]);
    let mut cpu = Cpu::new();
    cpu.cpu_state.set_register(3, 200);
    assert_eq!(
        cpu.run_program(&mut memory),
        RunOutcome::Fault(EmulatorFault::InvalidRegister(16))
    );
    assert_eq!(cpu.cpu_state.get_register(3), 200);
    assert_eq!(cpu.cpu_state.get_register(15), 0);
}

#[test]
fn loads_by_their_encodings() {
    let mut memory = program(&[
        0xE5F1_2020, // LDRB r2, [r1, #0x20]!
        0xE5B3_40A0, // LDRD r4, [r3, #0xA0]!
        0xE416_70A4, // LDRD r7, [r6], #-0xA4
        0xE9BA_0300, // LDMIB r10!, {r8, r9}
        HALT_INSTRUCTION,
    ]);
    memory.write_bytes(132, &[0xAB]);
    memory.write_word(360, 0xDEAD_BEEF);
    memory.write_word(364, 0xFEED_FACE);
    memory.write_word(400, 0xAAAA_AAAA);
    memory.write_word(404, 0xBBBB_BBBB);
    memory.write_word(604, 0x0808_0808);
    memory.write_word(608, 0x0909_0909);
    let mut cpu = Cpu::new();
    cpu.cpu_state.set_register(1, 100);
    cpu.cpu_state.set_register(3, 200);
    cpu.cpu_state.set_register(6, 400);
    cpu.cpu_state.set_register(10, 600);
    assert_eq!(cpu.run_program(&mut memory), RunOutcome::Halted);
    assert_eq!(
        registers(&cpu),
        vec![
            0,
            132,
            0xAB,
            360,
            0xDEAD_BEEF,
            0xFEED_FACE,
            400,
            0xAAAA_AAAA,
            0x0808_0808,
            0x0909_0909,
            608,
            0,
            0,
            0,
            0,
            16
        ]
    );
}

#[test]
fn interpreting_writes_through_the_decoder() {
    let mut memory = Memory::new(16);
    let mut cpu = Cpu::new();
    cpu.cpu_state.set_register(5, 99);
    // MOV r5, #123
    assert_eq!(cpu.interpret_instruction(0xE3A0_507B, &mut memory), Ok(()));
    assert_eq!(cpu.cpu_state.get_register(5), 123);
    cpu.cpu_state.set_register(7, 0xABC);
    // MOV r3, r7
    assert_eq!(cpu.interpret_instruction(0xE1A0_3007, &mut memory), Ok(()));
    assert_eq!(cpu.cpu_state.get_register(3), 0xABC);
    // CMP r3, r7 then ADDEQ r0, r3, #1
    assert_eq!(cpu.interpret_instruction(0xE153_0007, &mut memory), Ok(()));
    assert!(cpu.cpu_state.CPSR.is_zero());
    assert_eq!(cpu.interpret_instruction(0x0283_0001, &mut memory), Ok(()));
    assert_eq!(cpu.cpu_state.get_register(0), 0xABD);
    // The program counter is not touched by interpreting.
    assert_eq!(cpu.cpu_state.get_register(15), 0);
}

#[test]
fn sbc_register_by_its_encoding_subtracts_rm_from_rn() {
    let mut memory = Memory::new(16);
    let mut cpu = Cpu::new();
    cpu.cpu_state.CPSR.set_carry(true);
    cpu.cpu_state.set_register(1, 100);
    cpu.cpu_state.set_register(2, 3);
    // SBC r0, r1, r2, LSL #4
    assert_eq!(cpu.interpret_instruction(0xE0C1_0202, &mut memory), Ok(()));
    assert_eq!(cpu.cpu_state.get_register(0), 52);
}

#[test]
fn mvn_immediate_by_its_encoding() {
    let mut memory = Memory::new(16);
    let mut cpu = Cpu::new();
    // MVN r0, #5
    assert_eq!(cpu.interpret_instruction(0xE3E0_0005, &mut memory), Ok(()));
    assert_eq!(cpu.cpu_state.get_register(0), 0xFFFF_FFFA);
}
