use gameboy_emulator::combine_to_u16;
use gameboy_emulator::is_bit_set;
use gameboy_emulator::set_bit;
use gameboy_emulator::split_u16;
use gameboy_emulator::split_u32;

#[test]
fn test_is_bit_set() {
    let data = 0b100;
    assert_eq!(is_bit_set(data, 0), false);
    assert_eq!(is_bit_set(data, 1), false);
    assert_eq!(is_bit_set(data, 2), true);
}

#[test]
fn test_set_bit() {
    assert_eq!(0b0010_0000, set_bit(0, 5, true));
    assert_eq!(0b0010_0001, set_bit(0b0010_0001, 0, true));
    assert_eq!(0b0010_0001, set_bit(0b0010_0000, 0, true));
    assert_eq!(0b1111_0111, set_bit(0b1111_0111, 3, false));
}

#[test]
fn split_and_combine() {
    assert_eq!(split_u16(0xABCD), (0xAB, 0xCD));
    assert_eq!(split_u32(0x1234_5678), (0x1234, 0x5678));
    assert_eq!(combine_to_u16(0xAB, 0xCD), 0xABCD);
    assert_eq!(combine_to_u16(0x00, 0x38), 0x0038);
}
