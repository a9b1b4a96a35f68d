use gameboy_emulator::decode::decode_prefixed;
use gameboy_emulator::decode::decode_unprefixed;
use gameboy_emulator::instruction::Cond;
use gameboy_emulator::instruction::Inst;
use gameboy_emulator::instruction::Operand;
use gameboy_emulator::instruction::Reg16;
use gameboy_emulator::instruction::Reg8;

#[test]
fn test_decode_unprefixed() {
    assert_eq!(decode_unprefixed(0x76), Inst::Halt);
}

#[test]
fn test_decode_prefixed() {
    assert_eq!(decode_prefixed(0x62), Inst::TestBit(4, Operand::R8(Reg8::D)));
}

#[test]
fn decode_test_decode_unprefixed() {}

#[test]
fn decode_test_decode_prefixed() {
    assert_eq!(decode_prefixed(0x62), Inst::TestBit(4, Operand::R8(Reg8::D)));
}

#[test]
fn decode_totality() {
    // Both tables are defined for every input: no opcode panics, and the
    // sentinel appears exactly at 0xCB.
    for op in 0..=255u8 {
        let unprefixed = decode_unprefixed(op);
        assert_eq!(unprefixed == Inst::Prefix, op == 0xCB);
        let prefixed = decode_prefixed(op);
        assert_ne!(prefixed, Inst::Prefix);
    }
}

#[test]
fn decode_known_rows() {
    assert_eq!(decode_unprefixed(0x00), Inst::NoOp);
    assert_eq!(
        decode_unprefixed(0x01),
        Inst::Ld16(Operand::R16(Reg16::Bc), Operand::D16)
    );
    assert_eq!(
        decode_unprefixed(0x2A),
        Inst::Ld8(Operand::R8(Reg8::A), Operand::IndR16(Reg16::HlIncr))
    );
    assert_eq!(decode_unprefixed(0xAF), Inst::Xor(Operand::R8(Reg8::A)));
    assert_eq!(decode_unprefixed(0xC6), Inst::Add(Operand::D8));
    assert_eq!(decode_unprefixed(0xCD), Inst::Call(Cond::Always));
    assert_eq!(decode_unprefixed(0xC9), Inst::Ret(Cond::Always));
    assert_eq!(decode_unprefixed(0xF3), Inst::Di);
    assert_eq!(decode_unprefixed(0xFB), Inst::Ei);
    assert_eq!(decode_unprefixed(0xFF), Inst::Rst(0x38));
    assert_eq!(decode_prefixed(0x37), Inst::Swap(Operand::R8(Reg8::A)));
    assert_eq!(
        decode_prefixed(0xFE),
        Inst::SetBit(7, Operand::IndR16(Reg16::Hl))
    );
}
