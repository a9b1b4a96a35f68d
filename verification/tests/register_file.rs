use gameboy_emulator::registers::Registers;

#[test]
fn register_accessors() {
    let mut regs = Registers::new();

    // AF
    regs.a = 0xEE;
    regs.f = 0x23;
    assert_eq!(regs.af(), 0xEE23);

    regs.set_af(0xABCD);
    assert_eq!(regs.a, 0xAB);
    // The lower 4 bits of F are always unset
    assert_eq!(regs.f, 0xC0);

    // BC
    regs.b = 0xBB;
    regs.c = 0xCC;
    assert_eq!(regs.bc(), 0xBBCC);

    regs.set_bc(0x1234);
    assert_eq!(regs.b, 0x12);
    assert_eq!(regs.c, 0x34);

    // DE
    regs.d = 0x34;
    regs.e = 0x54;
    assert_eq!(regs.de(), 0x3454);

    regs.set_de(0x6543);
    assert_eq!(regs.d, 0x65);
    assert_eq!(regs.e, 0x43);

    // HL
    regs.h = 0xAC;
    regs.l = 0x1F;
    assert_eq!(regs.hl(), 0xAC1F);

    regs.set_hl(0xFE12);
    assert_eq!(regs.h, 0xFE);
    assert_eq!(regs.l, 0x12);
}

#[test]
fn registers_register_accessors() {
    let mut regs = Registers::new();

    // AF
    regs.a = 0xEE;
    regs.f = 0x23;
    assert_eq!(regs.af(), 0xEE23);

    regs.set_af(0xABCD);
    assert_eq!(regs.a, 0xAB);
    // Writing AF always masks the low nibble of F to zero.
    assert_eq!(regs.f, 0xC0);

    // BC
    regs.b = 0xBB;
    regs.c = 0xCC;
    assert_eq!(regs.bc(), 0xBBCC);

    regs.set_bc(0x1234);
    assert_eq!(regs.b, 0x12);
    assert_eq!(regs.c, 0x34);

    // DE
    regs.d = 0x34;
    regs.e = 0x54;
    assert_eq!(regs.de(), 0x3454);

    regs.set_de(0x6543);
    assert_eq!(regs.d, 0x65);
    assert_eq!(regs.e, 0x43);

    // HL
    regs.h = 0xAC;
    regs.l = 0x1F;
    assert_eq!(regs.hl(), 0xAC1F);

    regs.set_hl(0xFE12);
    assert_eq!(regs.h, 0xFE);
    assert_eq!(regs.l, 0x12);
}

#[test]
fn register_pair_round_trip() {
    let mut regs = Registers::new();
    regs.set_bc(0xBEEF);
    assert_eq!(regs.bc(), 0xBEEF);
    regs.set_de(0x0001);
    assert_eq!(regs.de(), 0x0001);
    regs.set_hl(0xFFFF);
    assert_eq!(regs.hl(), 0xFFFF);
    // AF keeps only the flag nibble of F.
    regs.set_af(0xABCD);
    assert_eq!(regs.af(), 0xABC0);
    assert_eq!(regs.af(), 0xABCD & 0xFFF0);
}

#[test]
fn flag_isolation() {
    let mut regs = Registers::new();
    regs.f = 0x00;
    regs.set_flag_zero(true);
    assert!(regs.zero_flag());
    assert!(!regs.subtraction_flag());
    assert!(!regs.half_carry_flag());
    assert!(!regs.carry_flag());
    regs.set_flag_carry(true);
    assert!(regs.zero_flag());
    assert!(regs.carry_flag());
    regs.set_flag_subtract(true);
    regs.set_flag_half_carry(true);
    assert_eq!(regs.f, 0xF0);
    regs.set_flag_zero(false);
    assert_eq!(regs.f, 0x70);
    // The low nibble stays zero through every flag write.
    assert_eq!(regs.f & 0x0F, 0);
}

#[test]
fn hl_post_increment_wraps() {
    let mut regs = Registers::new();
    regs.set_hl(0xFFFF);
    regs.incr_hl();
    assert_eq!(regs.hl(), 0x0000);
    regs.decr_hl();
    assert_eq!(regs.hl(), 0xFFFF);
}
