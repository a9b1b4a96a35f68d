use gameboy_emulator::bus::Bus;
use gameboy_emulator::cartridge::Cartridge;
use gameboy_emulator::cartridge::CartridgeError;
use gameboy_emulator::cartridge::MemoryBankController;
use gameboy_emulator::interrupts::Interrupt;
use gameboy_emulator::interrupts::InterruptHandler;
use gameboy_emulator::timer::Timer;

fn blank_rom() -> Vec<u8> {
    vec![0u8; 0x8000]
}

fn make_bus(rom: Vec<u8>) -> Bus {
    Bus::new(Cartridge::from_bytes(rom).unwrap())
}

#[test]
fn timer_overflow_reloads_and_requests_once() {
    let mut timer = Timer::new();
    // TAC = 0b101: enabled, speed 1, an increment edge every 16 T-cycles.
    timer.set_control(0b101);
    timer.set_modulo(0x42);
    timer.set_counter(0xFF);
    assert!(!timer.tick_timer(4));
    assert!(!timer.tick_timer(4));
    assert!(!timer.tick_timer(4));
    assert_eq!(timer.counter(), 0xFF);
    // The 16th T-cycle is the falling edge: exactly one overflow.
    assert!(timer.tick_timer(4));
    assert_eq!(timer.counter(), 0x42);
    assert!(!timer.tick_timer(4));
    assert_eq!(timer.counter(), 0x42);
}

#[test]
fn timer_counts_without_overflow() {
    let mut timer = Timer::new();
    timer.set_control(0b101);
    timer.set_counter(0x10);
    for _ in 0..4 {
        timer.tick_timer(4);
    }
    assert_eq!(timer.counter(), 0x11);
    assert_eq!(timer.divider(), 0);
    timer.reset_divider();
    assert_eq!(timer.counter(), 0x11);
}

#[test]
fn timer_disabled_keeps_counter() {
    let mut timer = Timer::new();
    timer.set_control(0b001);
    timer.set_counter(0xFF);
    for _ in 0..8 {
        assert!(!timer.tick_timer(4));
    }
    assert_eq!(timer.counter(), 0xFF);
}

#[test]
fn interrupt_priority_vblank_first() {
    let mut int = InterruptHandler::new();
    int.set_enabled(0x1F);
    int.set_requested(0x1F);
    int.master_enabled = true;
    let dispatched = int.handle_interrupts();
    assert_eq!(dispatched, Some(Interrupt::VBlank));
    assert_eq!(int.requested(), 0x1E);
    assert!(!int.master_enabled);
    assert_eq!(int.enabled(), 0x1F);
}

#[test]
fn interrupt_dispatch_needs_master_enable() {
    let mut int = InterruptHandler::new();
    int.set_enabled(0x04);
    int.set_requested(0x04);
    assert!(int.is_interrupt_pending());
    assert_eq!(int.handle_interrupts(), None);
    assert_eq!(int.requested(), 0x04);
}

#[test]
fn interrupt_vectors() {
    assert_eq!(Interrupt::VBlank.address(), 0x40);
    assert_eq!(Interrupt::LcdStat.address(), 0x48);
    assert_eq!(Interrupt::Timer.address(), 0x50);
    assert_eq!(Interrupt::Serial.address(), 0x58);
    assert_eq!(Interrupt::Joypad.address(), 0x60);
}

#[test]
fn dma_copies_all_bytes() {
    let mut bus = make_bus(blank_rom());
    for i in 0..160u16 {
        bus.write(0xC000 + i, (0x30 + (i % 97)) as u8);
    }
    // Start a transfer from 0xC000 and give it its 2 delay cycles plus 160
    // copy cycles.
    bus.write(0xFF46, 0xC0);
    assert!(bus.dma.is_active());
    assert_eq!(bus.read(0xFF46), 0xFF);
    for _ in 0..162 {
        bus.tick();
    }
    assert!(!bus.dma.is_active());
    assert_eq!(bus.read(0xFF46), 0xC0);
    for i in 0..160u16 {
        assert_eq!(bus.read(0xFE00 + i), bus.read(0xC000 + i));
    }
}

#[test]
fn cartridge_header_parsing() {
    let mut rom = blank_rom();
    let title = b"TESTTITLE";
    rom[0x134..0x134 + title.len()].copy_from_slice(title);
    rom[0x147] = 0;
    rom[0x148] = 2;
    rom[0x149] = 3;
    let cart = Cartridge::from_bytes(rom).unwrap();
    assert_eq!(cart.title, title.to_vec());
    assert_eq!(cart.mbc, MemoryBankController::RomOnly);
    assert_eq!(cart.rom_banks, 4);
    assert_eq!(cart.ram_banks, 4);
}

#[test]
fn cartridge_truncated_header() {
    assert!(matches!(
        Cartridge::from_bytes(vec![0u8; 0x14F]),
        Err(CartridgeError::TruncatedHeader)
    ));
}

#[test]
fn cartridge_invalid_rom_size() {
    let mut rom = blank_rom();
    rom[0x148] = 8;
    assert!(matches!(
        Cartridge::from_bytes(rom),
        Err(CartridgeError::InvalidRomSize)
    ));
}

#[test]
fn cartridge_invalid_ram_size() {
    let mut rom = blank_rom();
    rom[0x149] = 6;
    assert!(matches!(
        Cartridge::from_bytes(rom),
        Err(CartridgeError::InvalidRamSize)
    ));
}

#[test]
fn cartridge_read_out_of_range_is_zero() {
    let mut rom = blank_rom();
    rom[0x42] = 0xAA;
    let cart = Cartridge::from_bytes(rom).unwrap();
    assert_eq!(cart.read(0x42), 0xAA);
    assert_eq!(cart.read(0x9000), 0);
}

#[test]
fn bus_routing_and_dirty_flag() {
    let mut rom = blank_rom();
    rom[0x1234] = 0x77;
    let mut bus = make_bus(rom);
    // ROM reads through the cartridge; writes are ignored by the ROM-only
    // mapper.
    assert_eq!(bus.read(0x1234), 0x77);
    bus.write(0x1234, 0x99);
    assert_eq!(bus.read(0x1234), 0x77);
    // VRAM writes stick and mark the dirty flag.
    assert!(!bus.v_ram_dirty);
    bus.write(0x8123, 0x5A);
    assert_eq!(bus.read(0x8123), 0x5A);
    assert!(bus.v_ram_dirty);
    // WRAM, HRAM, OAM.
    bus.write(0xC001, 0x11);
    assert_eq!(bus.read(0xC001), 0x11);
    bus.write(0xFF80, 0x22);
    assert_eq!(bus.read(0xFF80), 0x22);
    bus.write(0xFE05, 0x33);
    assert_eq!(bus.read(0xFE05), 0x33);
    // IE keeps its low five bits.
    bus.write(0xFFFF, 0xFF);
    assert_eq!(bus.read(0xFFFF), 0x1F);
    // Unmapped addresses read 0 and ignore writes.
    bus.write(0xE123, 0x44);
    assert_eq!(bus.read(0xE123), 0);
    assert_eq!(bus.read(0xA000), 0);
}

#[test]
fn bus_io_registers() {
    let mut bus = make_bus(blank_rom());
    bus.write(0xFF06, 0x7E);
    assert_eq!(bus.read(0xFF06), 0x7E);
    bus.write(0xFF07, 0b110);
    assert_eq!(bus.read(0xFF07), 0b110);
    bus.write(0xFF42, 0x13);
    assert_eq!(bus.read(0xFF42), 0x13);
    bus.write(0xFF0F, 0xFF);
    assert_eq!(bus.read(0xFF0F), 0x1F);
    // LY reads the stored register normally, the doctor constant in doctor
    // mode.
    bus.write(0xFF44, 0x17);
    assert_eq!(bus.read(0xFF44), 0x17);
    bus.doctor_ly = true;
    assert_eq!(bus.read(0xFF44), 0x90);
    // Object palettes mask their transparent color bits.
    bus.write(0xFF48, 0xFF);
    assert_eq!(bus.read(0xFF48), 0xFC);
    // Unmapped IO offsets read 0.
    assert_eq!(bus.read(0xFF01), 0);
}
