use emulator::bits::rotate_right_u32;
use emulator::cpu::Cpu;
use emulator::cpu_instructions::instruction_decoding::{decode_rotated_immediate, ShiftType};

fn cpu_with_carry(carry: bool) -> Cpu {
    let mut cpu = Cpu::new();
    cpu.cpu_state.CPSR.set_carry(carry);
    cpu
}

#[test]
fn shift_by_zero_passes_value_and_carry_through() {
    for kind in [ShiftType::LSL, ShiftType::LSR, ShiftType::ASR, ShiftType::ROR] {
        assert_eq!(cpu_with_carry(true).apply_shift(0x1234_5678, kind, 0), (0x1234_5678, true));
        assert_eq!(cpu_with_carry(false).apply_shift(0x1234_5678, kind, 0), (0x1234_5678, false));
    }
}

#[test]
fn lsl_within_the_word() {
    let cpu = cpu_with_carry(false);
    assert_eq!(cpu.apply_shift(0x8000_0001, ShiftType::LSL, 1), (0x0000_0002, true));
    assert_eq!(cpu.apply_shift(0x4000_0001, ShiftType::LSL, 1), (0x8000_0002, false));
    assert_eq!(cpu.apply_shift(0x0000_0003, ShiftType::LSL, 31), (0x8000_0000, true));
    assert_eq!(cpu.apply_shift(0x0000_0001, ShiftType::LSL, 4), (0x0000_0010, false));
    assert_eq!(cpu.apply_shift(0x1234_5678, ShiftType::LSL, 8), (0x3456_7800, false));
    assert_eq!(cpu.apply_shift(0x1334_5678, ShiftType::LSL, 8), (0x3456_7800, true));
}

#[test]
fn lsl_by_32_keeps_bit_0_as_carry() {
    let cpu = cpu_with_carry(true);
    assert_eq!(cpu.apply_shift(0x0000_0001, ShiftType::LSL, 32), (0, true));
    assert_eq!(cpu.apply_shift(0xFFFF_FFFF, ShiftType::LSL, 32), (0, true));
    assert_eq!(cpu.apply_shift(0xFFFF_FFFE, ShiftType::LSL, 32), (0, false));
}

#[test]
fn lsl_beyond_32_gives_nothing() {
    let cpu = cpu_with_carry(true);
    assert_eq!(cpu.apply_shift(0xFFFF_FFFF, ShiftType::LSL, 33), (0, false));
    assert_eq!(cpu.apply_shift(0xFFFF_FFFF, ShiftType::LSL, 255), (0, false));
}

#[test]
fn lsr_within_the_word() {
    let cpu = cpu_with_carry(false);
    assert_eq!(cpu.apply_shift(0x8000_0001, ShiftType::LSR, 1), (0x4000_0000, true));
    assert_eq!(cpu.apply_shift(0x8000_0002, ShiftType::LSR, 1), (0x4000_0001, false));
    assert_eq!(cpu.apply_shift(0x8000_0000, ShiftType::LSR, 31), (0x0000_0001, false));
    assert_eq!(cpu.apply_shift(0xC000_0000, ShiftType::LSR, 31), (0x0000_0001, true));
    assert_eq!(cpu.apply_shift(0x1234_5678, ShiftType::LSR, 8), (0x0012_3456, false));
    assert_eq!(cpu.apply_shift(0x1234_5688, ShiftType::LSR, 8), (0x0012_3456, true));
}

#[test]
fn lsr_by_32_keeps_bit_31_as_carry() {
    let cpu = cpu_with_carry(false);
    assert_eq!(cpu.apply_shift(0x8000_0000, ShiftType::LSR, 32), (0, true));
    assert_eq!(cpu.apply_shift(0x7FFF_FFFF, ShiftType::LSR, 32), (0, false));
}

#[test]
fn lsr_beyond_32_gives_nothing() {
    let cpu = cpu_with_carry(true);
    assert_eq!(cpu.apply_shift(0xFFFF_FFFF, ShiftType::LSR, 33), (0, false));
    assert_eq!(cpu.apply_shift(0xFFFF_FFFF, ShiftType::LSR, 200), (0, false));
}

#[test]
fn asr_within_the_word() {
    let cpu = cpu_with_carry(false);
    assert_eq!(cpu.apply_shift(0x8000_0000, ShiftType::ASR, 4), (0xF800_0000, false));
    assert_eq!(cpu.apply_shift(0x8000_0010, ShiftType::ASR, 5), (0xFC00_0000, true));
    assert_eq!(cpu.apply_shift(0x4000_0000, ShiftType::ASR, 4), (0x0400_0000, false));
    assert_eq!(cpu.apply_shift(0xFFFF_FFFF, ShiftType::ASR, 31), (0xFFFF_FFFF, true));
    assert_eq!(cpu.apply_shift(0x7FFF_FFFF, ShiftType::ASR, 31), (0x0000_0000, true));
    // -8 >> 1 == -4
    assert_eq!(cpu.apply_shift(0xFFFF_FFF8, ShiftType::ASR, 1), (0xFFFF_FFFC, false));
}

#[test]
fn asr_by_32_or_more_spreads_the_sign() {
    let cpu = cpu_with_carry(false);
    assert_eq!(cpu.apply_shift(0x8000_0000, ShiftType::ASR, 32), (0xFFFF_FFFF, true));
    assert_eq!(cpu.apply_shift(0x7FFF_FFFF, ShiftType::ASR, 32), (0, false));
    assert_eq!(cpu.apply_shift(0xDEAD_BEEF, ShiftType::ASR, 33), (0xFFFF_FFFF, true));
    assert_eq!(cpu.apply_shift(0x0000_0001, ShiftType::ASR, 255), (0, false));
}

#[test]
fn ror_within_the_word() {
    let cpu = cpu_with_carry(true);
    assert_eq!(cpu.apply_shift(0x0000_00F1, ShiftType::ROR, 4), (0x1000_000F, false));
    assert_eq!(cpu.apply_shift(0x0000_0008, ShiftType::ROR, 4), (0x8000_0000, true));
    assert_eq!(cpu.apply_shift(0x8000_0000, ShiftType::ROR, 31), (0x0000_0001, false));
    assert_eq!(cpu.apply_shift(0x4000_0000, ShiftType::ROR, 31), (0x8000_0000, true));
    assert_eq!(cpu.apply_shift(0x1234_5678, ShiftType::ROR, 16), (0x5678_1234, false));
}

#[test]
fn ror_reduces_the_amount_modulo_32() {
    assert_eq!(cpu_with_carry(true).apply_shift(0xDEAD_BEEF, ShiftType::ROR, 32), (0xDEAD_BEEF, true));
    assert_eq!(cpu_with_carry(false).apply_shift(0xDEAD_BEEF, ShiftType::ROR, 64), (0xDEAD_BEEF, false));
    let cpu = cpu_with_carry(false);
    assert_eq!(
        cpu.apply_shift(0x0000_00F1, ShiftType::ROR, 36),
        cpu.apply_shift(0x0000_00F1, ShiftType::ROR, 4)
    );
    assert_eq!(cpu.apply_shift(0x0000_0008, ShiftType::ROR, 68), (0x8000_0000, true));
}

#[test]
fn shifting_does_not_touch_the_processor() {
    let cpu = cpu_with_carry(true);
    let before = cpu.cpu_state.CPSR.value;
    cpu.apply_shift(0xFFFF_FFFF, ShiftType::LSL, 3);
    assert_eq!(cpu.cpu_state.CPSR.value, before);
}

#[test]
fn rotate_right_moves_bits_round() {
    assert_eq!(rotate_right_u32(0x0000_0001, 1), 0x8000_0000);
    assert_eq!(rotate_right_u32(0x1234_5678, 0), 0x1234_5678);
    assert_eq!(rotate_right_u32(0x1234_5678, 4), 0x8123_4567);
    assert_eq!(rotate_right_u32(0x1234_5678, 31), 0x2468_ACF0);
    assert_eq!(rotate_right_u32(0x1234_5678, 32), 0x1234_5678);
    assert_eq!(rotate_right_u32(0x1234_5678, 36), 0x8123_4567);
    for n in 0..100u32 {
        assert_eq!(rotate_right_u32(0xDEAD_BEEF, n), 0xDEAD_BEEFu32.rotate_right(n));
    }
}

#[test]
fn rotated_immediate_is_the_byte_rotated_by_twice_the_count() {
    assert_eq!(decode_rotated_immediate(0x0000_00FF), 0x0000_00FF);
    assert_eq!(decode_rotated_immediate(0x0000_04FF), 0xFF00_0000);
    assert_eq!(decode_rotated_immediate(0x0000_0F01), 0x0000_0004);
    assert_eq!(decode_rotated_immediate(0x0000_0102), 0x8000_0000);
    // Only the low twelve bits count.
    assert_eq!(decode_rotated_immediate(0xE3A0_04FF), 0xFF00_0000);
}
