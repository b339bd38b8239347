use emulator::memory::Memory;

#[test]
fn a_new_memory_is_zeroed() {
    let memory = Memory::new(64);
    assert_eq!(memory.size(), 64);
    for address in 0..64 {
        assert_eq!(memory.read_byte(address), 0);
    }
    assert_eq!(memory.read_word(60), 0);
}

#[test]
fn an_empty_memory_contains_nothing() {
    let memory = Memory::new(0);
    assert_eq!(memory.size(), 0);
    assert!(!memory.contains_byte(0));
    assert!(!memory.contains_word(0));
}

#[test]
fn bounds_are_those_of_the_buffer() {
    let memory = Memory::new(16);
    assert!(memory.contains_byte(0));
    assert!(memory.contains_byte(15));
    assert!(!memory.contains_byte(16));
    assert!(!memory.contains_byte(0xFFFF_FFFF));
    assert!(memory.contains_word(0));
    assert!(memory.contains_word(12));
    assert!(!memory.contains_word(13));
    assert!(!memory.contains_word(16));
    assert!(!memory.contains_word(0xFFFF_FFFD));
    let small = Memory::new(3);
    assert!(small.contains_byte(2));
    assert!(!small.contains_word(0));
}

#[test]
fn words_are_little_endian() {
    let mut memory = Memory::new(16);
    memory.write_bytes(4, &[0x78, 0x56, 0x34, 0x12]);
    assert_eq!(memory.read_word(4), 0x1234_5678);
    assert_eq!(memory.read_byte(4), 0x78);
    assert_eq!(memory.read_byte(7), 0x12);
    // Unaligned reads are plain byte offsets.
    assert_eq!(memory.read_word(5), 0x0012_3456);
    assert_eq!(memory.read_word(3), 0x3456_7800);
}

#[test]
fn write_bytes_replaces_exactly_its_range() {
    let mut memory = Memory::new(8);
    memory.write_bytes(0, &[1, 2, 3, 4, 5, 6, 7, 8]);
    memory.write_bytes(2, &[0xAA, 0xBB]);
    let expected = [1, 2, 0xAA, 0xBB, 5, 6, 7, 8];
    for address in 0..8 {
        assert_eq!(memory.read_byte(address), expected[address as usize]);
    }
    memory.write_bytes(8, &[]);
    memory.write_bytes(7, &[0xFF]);
    assert_eq!(memory.read_byte(7), 0xFF);
    assert_eq!(memory.size(), 8);
}

#[test]
fn write_word_stores_the_least_significant_byte_first() {
    let mut memory = Memory::new(8);
    memory.write_word(1, 0xDEAD_BEEF);
    assert_eq!(memory.read_byte(0), 0);
    assert_eq!(memory.read_byte(1), 0xEF);
    assert_eq!(memory.read_byte(2), 0xBE);
    assert_eq!(memory.read_byte(3), 0xAD);
    assert_eq!(memory.read_byte(4), 0xDE);
    assert_eq!(memory.read_byte(5), 0);
    assert_eq!(memory.read_word(1), 0xDEAD_BEEF);
}

#[test]
fn a_word_read_back_is_the_word_written() {
    let mut memory = Memory::new(4);
    for value in [0, 1, 0xFF, 0x100, 0x8000_0000, 0x0102_0304, 0xFFFF_FFFF] {
        memory.write_word(0, value);
        assert_eq!(memory.read_word(0), value);
    }
}
