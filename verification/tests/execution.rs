use gameboy_emulator::bus::Bus;
use gameboy_emulator::cartridge::Cartridge;
use gameboy_emulator::cpu::Cpu;

fn make_cpu(program: &[u8]) -> Cpu {
    let mut rom = vec![0u8; 0x8000];
    rom[0x100..0x100 + program.len()].copy_from_slice(program);
    let cart = Cartridge::from_bytes(rom).unwrap();
    Cpu::new(Bus::new(cart))
}

#[test]
fn three_nops() {
    let mut cpu = make_cpu(&[0x00, 0x00, 0x00]);
    cpu.fetch_and_execute();
    cpu.fetch_and_execute();
    cpu.fetch_and_execute();
    assert_eq!(cpu.regs.pc, 0x0103);
    assert_eq!(cpu.cycles, 12);
    assert_eq!(cpu.counter, 3);
}

#[test]
fn ld_bc_immediate() {
    let mut cpu = make_cpu(&[0x01, 0x34, 0x12]);
    cpu.fetch_and_execute();
    assert_eq!(cpu.regs.b, 0x12);
    assert_eq!(cpu.regs.c, 0x34);
    assert_eq!(cpu.regs.pc, 0x0103);
    assert_eq!(cpu.cycles, 12);
}

#[test]
fn xor_a_clears_a_sets_zero() {
    let mut cpu = make_cpu(&[0xAF]);
    cpu.fetch_and_execute();
    assert_eq!(cpu.regs.a, 0x00);
    assert_eq!(cpu.regs.f, 0x80);
}

#[test]
fn add_a_immediate_wraps_with_flags() {
    let mut cpu = make_cpu(&[0xC6, 0x01]);
    cpu.regs.a = 0xFF;
    cpu.fetch_and_execute();
    assert_eq!(cpu.regs.a, 0x00);
    assert!(cpu.regs.zero_flag());
    assert!(!cpu.regs.subtraction_flag());
    assert!(cpu.regs.half_carry_flag());
    assert!(cpu.regs.carry_flag());
}

#[test]
fn call_and_ret() {
    let mut rom = vec![0u8; 0x8000];
    // CALL 0x0200 at the entry point, RET at the target.
    rom[0x100] = 0xCD;
    rom[0x101] = 0x00;
    rom[0x102] = 0x02;
    rom[0x200] = 0xC9;
    let cart = Cartridge::from_bytes(rom).unwrap();
    let mut cpu = Cpu::new(Bus::new(cart));
    cpu.fetch_and_execute();
    assert_eq!(cpu.regs.pc, 0x0200);
    assert_eq!(cpu.regs.sp, 0xFFFC);
    assert_eq!(cpu.bus.read(0xFFFC), 0x03);
    assert_eq!(cpu.bus.read(0xFFFD), 0x01);
    cpu.fetch_and_execute();
    assert_eq!(cpu.regs.pc, 0x0103);
    assert_eq!(cpu.regs.sp, 0xFFFE);
}

#[test]
fn rlca_rotates_into_carry() {
    let mut cpu = make_cpu(&[0x07]);
    cpu.regs.a = 0x85;
    cpu.fetch_and_execute();
    assert_eq!(cpu.regs.a, 0x0B);
    assert!(cpu.regs.carry_flag());
    assert!(!cpu.regs.zero_flag());
    assert!(!cpu.regs.subtraction_flag());
    assert!(!cpu.regs.half_carry_flag());
}

#[test]
fn interrupt_dispatch_after_nop() {
    let mut cpu = make_cpu(&[0x00]);
    cpu.bus.write(0xFFFF, 0x04);
    cpu.bus.write(0xFF0F, 0x04);
    cpu.bus.int.master_enabled = true;
    cpu.fetch_and_execute();
    assert_eq!(cpu.regs.pc, 0x0050);
    assert_eq!(cpu.regs.sp, 0xFFFC);
    assert_eq!(cpu.bus.int.requested() & 0x04, 0);
    assert!(!cpu.bus.int.master_enabled);
}

#[test]
fn halt_wakeup_on_pending_interrupt() {
    let mut cpu = make_cpu(&[0x76, 0x00]);
    cpu.fetch_and_execute();
    assert!(cpu.is_halted);
    // A halted CPU idles machine cycles while nothing is pending.
    cpu.fetch_and_execute();
    assert!(cpu.is_halted);
    // Pending (requested and enabled) wakes it, with IME still clear.
    cpu.bus.write(0xFFFF, 0x04);
    cpu.bus.write(0xFF0F, 0x04);
    cpu.fetch_and_execute();
    assert!(!cpu.is_halted);
}

#[test]
fn ld_a_hl_post_increment() {
    let mut cpu = make_cpu(&[0x2A]);
    cpu.bus.write(0xC123, 0x5D);
    cpu.regs.set_hl(0xC123);
    cpu.fetch_and_execute();
    assert_eq!(cpu.regs.a, 0x5D);
    assert_eq!(cpu.regs.hl(), 0xC124);
}

#[test]
fn ld_a_hl_post_increment_wraps() {
    let mut cpu = make_cpu(&[0x2A]);
    cpu.regs.set_hl(0xFFFF);
    cpu.fetch_and_execute();
    assert_eq!(cpu.regs.hl(), 0x0000);
}

#[test]
fn di_and_ei_move_ime() {
    let mut cpu = make_cpu(&[0xFB, 0xF3]);
    cpu.fetch_and_execute();
    assert!(cpu.bus.int.master_enabled);
    cpu.fetch_and_execute();
    assert!(!cpu.bus.int.master_enabled);
}

#[test]
fn conditional_jump_timing() {
    // JR NZ, +2 with Z clear: taken, 12 T-cycles.
    let mut cpu = make_cpu(&[0x20, 0x02]);
    cpu.regs.set_flag_zero(false);
    cpu.fetch_and_execute();
    assert_eq!(cpu.regs.pc, 0x0104);
    assert_eq!(cpu.cycles, 12);
    // JR NZ with Z set: not taken, 8 T-cycles.
    let mut cpu = make_cpu(&[0x20, 0x02]);
    cpu.regs.set_flag_zero(true);
    cpu.fetch_and_execute();
    assert_eq!(cpu.regs.pc, 0x0102);
    assert_eq!(cpu.cycles, 8);
}

#[test]
fn jump_relative_backwards() {
    // JR -2 loops back onto the operand byte.
    let mut cpu = make_cpu(&[0x18, 0xFE]);
    cpu.fetch_and_execute();
    assert_eq!(cpu.regs.pc, 0x0100);
}

#[test]
fn push_pop_af_masks_low_nibble() {
    // PUSH BC; POP AF with BC = 0x12FF.
    let mut cpu = make_cpu(&[0xC5, 0xF1]);
    cpu.regs.set_bc(0x12FF);
    cpu.fetch_and_execute();
    cpu.fetch_and_execute();
    assert_eq!(cpu.regs.af(), 0x12F0);
}

#[test]
fn prefixed_bit_test() {
    // BIT 4, D over the 0xCB prefix.
    let mut cpu = make_cpu(&[0xCB, 0x62]);
    cpu.regs.d = 0x10;
    cpu.fetch_and_execute();
    assert!(!cpu.regs.zero_flag());
    assert!(cpu.regs.half_carry_flag());
    assert_eq!(cpu.cycles, 8);
}

#[test]
fn daa_after_addition() {
    // 0x15 + 0x27 = 0x3C; DAA turns it into the BCD sum 0x42.
    let mut cpu = make_cpu(&[0xC6, 0x27, 0x27]);
    cpu.regs.a = 0x15;
    cpu.fetch_and_execute();
    assert_eq!(cpu.regs.a, 0x3C);
    cpu.fetch_and_execute();
    assert_eq!(cpu.regs.a, 0x42);
    assert!(!cpu.regs.carry_flag());
}

#[test]
fn doctor_line_format() {
    let mut cpu = make_cpu(&[0x00, 0xC3, 0x13, 0x02]);
    let line = String::from_utf8(cpu.debug_line()).unwrap();
    assert_eq!(
        line,
        "A:01 F:B0 B:00 C:13 D:00 E:D8 H:01 L:4D SP:FFFE PC:0100 PCMEM:00,C3,13,02"
    );
    cpu.fetch_and_execute();
    let line = String::from_utf8(cpu.debug_line()).unwrap();
    assert_eq!(
        line,
        "A:01 F:B0 B:00 C:13 D:00 E:D8 H:01 L:4D SP:FFFE PC:0101 PCMEM:C3,13,02,00"
    );
}

#[test]
fn timer_interrupt_fires_through_execution() {
    // TIMA at 0xFF with the fastest clock: the overflow requests a Timer
    // interrupt, and with IE and IME set the CPU vectors to 0x50.
    let mut cpu = make_cpu(&[0x00; 16]);
    cpu.bus.write(0xFF05, 0xFF);
    cpu.bus.write(0xFF06, 0x11);
    cpu.bus.write(0xFF07, 0b101);
    cpu.bus.write(0xFFFF, 0x04);
    cpu.bus.int.master_enabled = true;
    let mut vectored = false;
    for _ in 0..8 {
        cpu.fetch_and_execute();
        if cpu.regs.pc == 0x0050 {
            vectored = true;
            break;
        }
    }
    assert!(vectored);
    // TIMA reloaded from TMA on the overflow and may have kept counting
    // during the dispatch cycles.
    assert!(cpu.bus.read(0xFF05) >= 0x11);
}
