use c8rs::memory::{FONT_SPRITE_ADDR, MEM_SIZE, PROGRAM_START};
use c8rs::Memory;

#[test]
fn test_rw_u8() {
    let mut m = Memory::default();

    m.write_u8(0x200, 0xAB);

    assert_eq!(m.read_u8(0x200), 0xAB);
}

#[test]
fn test_rw_u16() {
    let mut m = Memory::default();

    m.write_u16(0x200, 0x1234);

    assert_eq!(m.read_u16(0x200), 0x1234);
}

#[test]
fn test_rw() {
    let mut m = Memory::default();

    let data = [0x01, 0x23, 0x45, 0x67, 0x89, 0xAB, 0xCD, 0xDE];

    m.write(0x200, &data);

    assert_eq!(m.read(0x200, 8), data);
}

#[test]
fn write_u16_is_big_endian() {
    let mut m = Memory::default();
    m.write_u16(0x300, 0xBEEF);
    assert_eq!(m.read_u8(0x300), 0xBE);
    assert_eq!(m.read_u8(0x301), 0xEF);
}

#[test]
fn init_places_rom_and_font() {
    let m = Memory::init(&[0x12, 0x34]);
    assert_eq!(m.read(PROGRAM_START, 3), [0x12, 0x34, 0x00]);
    assert_eq!(m.read(FONT_SPRITE_ADDR, 5), [0xF0, 0x90, 0x90, 0x90, 0xF0]);
    assert_eq!(m.read(FONT_SPRITE_ADDR + 75, 5), [0xF0, 0x80, 0xF0, 0x80, 0x80]);
    assert_eq!(m.read_u8(0x000), 0);
    assert_eq!(m.read_u8(FONT_SPRITE_ADDR + 80), 0);
}

#[test]
fn init_accepts_the_largest_rom() {
    let rom = vec![0x5Au8; MEM_SIZE - PROGRAM_START as usize];
    let m = Memory::init(&rom);
    assert_eq!(m.read_u8(PROGRAM_START), 0x5A);
    assert_eq!(m.read_u8((MEM_SIZE - 1) as u16), 0x5A);
    assert_eq!(m.read_u16((MEM_SIZE - 2) as u16), 0x5A5A);
}
