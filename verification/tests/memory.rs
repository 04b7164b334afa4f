use z80core::mem::{Memory, MEMORY_SIZE};

#[test]
fn byte_round_trip() {
    let mut m = Memory::default();
    m.write(0x0000, 0xAA);
    m.write(0x3FFF, 0x55);
    assert_eq!(m.read(0x0000), 0xAA);
    assert_eq!(m.read(0x3FFF), 0x55);
}

#[test]
fn word_round_trip_is_little_endian() {
    let mut m = Memory::default();
    m.write_word(0x0100, 0xABCD);
    assert_eq!(m.read_word(0x0100), 0xABCD);
    assert_eq!(m.read(0x0100), 0xCD);
    assert_eq!(m.read(0x0101), 0xAB);
}

#[test]
fn addresses_are_masked_to_memory_size() {
    let mut m = Memory::default();
    m.write(0x4000, 0x77);
    assert_eq!(m.read(0x0000), 0x77);
    m.write(0x0001, 0x88);
    assert_eq!(m.read(0x4001), 0x88);
    assert_eq!(MEMORY_SIZE, 0x4000);
}

#[test]
fn word_at_top_of_address_space_wraps() {
    let mut m = Memory::default();
    m.write_word(0xFFFF, 0x1234);
    // 0xFFFF masks to the last cell; the high byte wraps to address 0.
    assert_eq!(m.read(0x3FFF), 0x34);
    assert_eq!(m.read(0x0000), 0x12);
    assert_eq!(m.read_word(0xFFFF), 0x1234);
}

#[test]
fn default_memory_is_zeroed() {
    let m = Memory::default();
    assert_eq!(m.bytes.len(), MEMORY_SIZE);
    assert_eq!(m.read(0x0000), 0);
    assert_eq!(m.read(0x2000), 0);
    assert_eq!(m.read(0x3FFF), 0);
}
