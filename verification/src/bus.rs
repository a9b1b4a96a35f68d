//! The memory bus: address decoding over the cartridge ROM, VRAM, WRAM, OAM,
//! the memory-mapped I/O registers, HRAM and the interrupt-enable byte. The
//! bus owns every subsystem the address space reaches, and its `tick`
//! advances them all by one machine cycle.
use vstd::prelude::*;

use crate::cartridge::Cartridge;
use crate::cartridge::spec_cart_read;
use crate::dma::Dma;
use crate::dma::dma_wf;
use crate::helper::lemma_u16_bytes;
use crate::interrupts::Interrupt;
use crate::interrupts::InterruptHandler;
use crate::interrupts::int_wf;
use crate::lcd::Lcd;
use crate::oam::Oam;
use crate::timer::Timer;
use crate::timer::spec_mask_for;
use crate::timer::spec_timer_next;
use crate::timer::spec_timer_overflow;
use crate::timer::timer_wf;

verus! {

pub struct Bus {
    pub cartridge: Cartridge,
    pub lcd: Lcd,
    pub timer: Timer,
    pub int: InterruptHandler,
    pub dma: Dma,
    pub oam: Oam,
    pub v_ram: Vec<u8>,
    pub w_ram: Vec<u8>,
    pub h_ram: Vec<u8>,
    /// Set by any VRAM write; the rendering collaborator clears it after
    /// drawing.
    pub v_ram_dirty: bool,
    /// When set, reads of LY (0xFF44) return the constant 0x90 that the
    /// Gameboy Doctor trace harness expects instead of the stored register.
    pub doctor_ly: bool,
}

/// The bus as the contracts see it: the raw contents of each region plus the
/// subsystem register blocks.
#[verifier::ext_equal]
pub struct BusView {
    pub cart: Seq<u8>,
    pub lcd: Lcd,
    pub timer: Timer,
    pub int: InterruptHandler,
    pub dma: Dma,
    pub oam: Seq<u8>,
    pub v_ram: Seq<u8>,
    pub w_ram: Seq<u8>,
    pub h_ram: Seq<u8>,
    pub v_ram_dirty: bool,
    pub doctor_ly: bool,
}

impl View for Bus {
    type V = BusView;

    open spec fn view(&self) -> BusView {
        BusView {
            cart: self.cartridge.data@,
            lcd: self.lcd,
            timer: self.timer,
            int: self.int,
            dma: self.dma,
            oam: self.oam@,
            v_ram: self.v_ram@,
            w_ram: self.w_ram@,
            h_ram: self.h_ram@,
            v_ram_dirty: self.v_ram_dirty,
            doctor_ly: self.doctor_ly,
        }
    }
}

/// The regions have their fixed sizes and every subsystem is internally
/// consistent.
pub open spec fn bus_wf(b: BusView) -> bool {
    &&& b.oam.len() == 160
    &&& b.v_ram.len() == 8192
    &&& b.w_ram.len() == 8192
    &&& b.h_ram.len() == 127
    &&& timer_wf(b.timer)
    &&& int_wf(b.int)
    &&& dma_wf(b.dma)
}

/// A read of the I/O register selected by the low byte of an 0xFF00-0xFF70
/// address. Unmapped offsets read 0; DMA (0xFF46) reads 0xFF while a
/// transfer runs, else the last written source page; LY (0xFF44) reads the
/// doctor constant 0x90 when that mode is on.
pub open spec fn spec_io_read(b: BusView, offset: u8) -> u8 {
    if offset == 0x04 {
        (b.timer.divider >> 8) as u8
    } else if offset == 0x05 {
        b.timer.counter
    } else if offset == 0x06 {
        b.timer.modulo
    } else if offset == 0x07 {
        b.timer.control
    } else if offset == 0x0F {
        b.int.requested
    } else if offset == 0x40 {
        b.lcd.control
    } else if offset == 0x41 {
        b.lcd.status
    } else if offset == 0x42 {
        b.lcd.scroll_y
    } else if offset == 0x43 {
        b.lcd.scroll_x
    } else if offset == 0x44 {
        if b.doctor_ly {
            0x90
        } else {
            b.lcd.ly
        }
    } else if offset == 0x45 {
        b.lcd.ly_compare
    } else if offset == 0x46 {
        if b.dma.is_active {
            0xFF
        } else {
            b.dma.upper
        }
    } else if offset == 0x47 {
        b.lcd.bg_palette
    } else if offset == 0x48 {
        b.lcd.obj_palette_0
    } else if offset == 0x49 {
        b.lcd.obj_palette_1
    } else if offset == 0x4A {
        b.lcd.win_y
    } else if offset == 0x4B {
        b.lcd.win_x
    } else {
        0
    }
}

/// A read of the full address space. Cartridge ROM below 0x8000, the three
/// RAM regions and OAM at their ranges, I/O by low byte, IE at 0xFFFF;
/// unmapped addresses read 0.
pub open spec fn spec_bus_read(b: BusView, addr: u16) -> u8 {
    if addr < 0x8000 {
        spec_cart_read(b.cart, addr as int)
    } else if addr <= 0x9FFF {
        b.v_ram[addr - 0x8000]
    } else if 0xC000 <= addr <= 0xDFFF {
        b.w_ram[addr - 0xC000]
    } else if 0xFE00 <= addr <= 0xFE9F {
        b.oam[addr - 0xFE00]
    } else if 0xFF00 <= addr <= 0xFF70 {
        spec_io_read(b, (addr & 0xFF) as u8)
    } else if 0xFF80 <= addr <= 0xFFFE {
        b.h_ram[addr - 0xFF80]
    } else if addr == 0xFFFF {
        b.int.enabled
    } else {
        0
    }
}

/// A write to the I/O register selected by the low byte: timer and
/// interrupt registers go through their masking rules, 0xFF46 starts a DMA
/// transfer, the palettes mask their transparent bits, and unmapped offsets
/// ignore the write.
pub open spec fn spec_io_write(b: BusView, offset: u8, data: u8) -> BusView {
    if offset == 0x04 {
        BusView { timer: Timer { divider: 0, ..b.timer }, ..b }
    } else if offset == 0x05 {
        BusView { timer: Timer { counter: data, ..b.timer }, ..b }
    } else if offset == 0x06 {
        BusView { timer: Timer { modulo: data, ..b.timer }, ..b }
    } else if offset == 0x07 {
        BusView {
            timer: Timer {
                control: data,
                is_enabled: data & 4 != 0,
                mask: spec_mask_for(data),
                ..b.timer
            },
            ..b
        }
    } else if offset == 0x0F {
        BusView { int: InterruptHandler { requested: (data & 0x1F) as u8, ..b.int }, ..b }
    } else if offset == 0x40 {
        BusView { lcd: Lcd { control: data, ..b.lcd }, ..b }
    } else if offset == 0x41 {
        BusView { lcd: Lcd { status: data, ..b.lcd }, ..b }
    } else if offset == 0x42 {
        BusView { lcd: Lcd { scroll_y: data, ..b.lcd }, ..b }
    } else if offset == 0x43 {
        BusView { lcd: Lcd { scroll_x: data, ..b.lcd }, ..b }
    } else if offset == 0x44 {
        BusView { lcd: Lcd { ly: data, ..b.lcd }, ..b }
    } else if offset == 0x45 {
        BusView { lcd: Lcd { ly_compare: data, ..b.lcd }, ..b }
    } else if offset == 0x46 {
        BusView { dma: Dma { is_active: true, upper: data, lower: 0, start_delay: 2 }, ..b }
    } else if offset == 0x47 {
        BusView { lcd: Lcd { bg_palette: data, ..b.lcd }, ..b }
    } else if offset == 0x48 {
        BusView { lcd: Lcd { obj_palette_0: (data & 0xFC) as u8, ..b.lcd }, ..b }
    } else if offset == 0x49 {
        BusView { lcd: Lcd { obj_palette_1: (data & 0xFC) as u8, ..b.lcd }, ..b }
    } else if offset == 0x4A {
        BusView { lcd: Lcd { win_y: data, ..b.lcd }, ..b }
    } else if offset == 0x4B {
        BusView { lcd: Lcd { win_x: data, ..b.lcd }, ..b }
    } else {
        b
    }
}

/// A write to the full address space. Writes into the ROM range go to the
/// mapper, which ignores them for ROM-only cartridges; VRAM writes mark the
/// dirty flag; IE keeps its low five bits; unmapped addresses ignore the
/// write.
pub open spec fn spec_bus_write(b: BusView, addr: u16, data: u8) -> BusView {
    if addr < 0x8000 {
        b
    } else if addr <= 0x9FFF {
        BusView { v_ram: b.v_ram.update(addr - 0x8000, data), v_ram_dirty: true, ..b }
    } else if 0xC000 <= addr <= 0xDFFF {
        BusView { w_ram: b.w_ram.update(addr - 0xC000, data), ..b }
    } else if 0xFE00 <= addr <= 0xFE9F {
        BusView { oam: b.oam.update(addr - 0xFE00, data), ..b }
    } else if 0xFF00 <= addr <= 0xFF70 {
        spec_io_write(b, (addr & 0xFF) as u8, data)
    } else if 0xFF80 <= addr <= 0xFFFE {
        BusView { h_ram: b.h_ram.update(addr - 0xFF80, data), ..b }
    } else if addr == 0xFFFF {
        BusView { int: InterruptHandler { enabled: (data & 0x1F) as u8, ..b.int }, ..b }
    } else {
        b
    }
}

/// One machine cycle of the DMA engine: idle when inactive, else the start
/// delay counts down, else one byte moves from the source page into OAM and
/// the transfer ends once all 160 bytes have moved.
pub open spec fn spec_dma_step(b: BusView) -> BusView {
    if !b.dma.is_active {
        b
    } else if b.dma.start_delay > 0 {
        BusView { dma: Dma { start_delay: (b.dma.start_delay - 1) as u8, ..b.dma }, ..b }
    } else {
        let addr = ((b.dma.upper as u16) << 8 | (b.dma.lower as u16)) as u16;
        let data = spec_bus_read(b, addr);
        let next = (b.dma.lower + 1) as u8;
        BusView {
            oam: b.oam.update(b.dma.lower as int, data),
            dma: Dma { lower: next, is_active: next < 160, ..b.dma },
            ..b
        }
    }
}

/// One machine cycle of the whole bus: the timer advances four T-cycles,
/// requesting a Timer interrupt exactly when TIMA overflowed, and the DMA
/// engine moves one step.
pub open spec fn spec_bus_tick(b: BusView) -> BusView {
    let t2 = spec_timer_next(b.timer, 4);
    let i2 = if spec_timer_overflow(b.timer, 4) {
        InterruptHandler { requested: (b.int.requested | 4) as u8, ..b.int }
    } else {
        b.int
    };
    spec_dma_step(BusView { timer: t2, int: i2, ..b })
}

/// The bus after `n` machine cycles in which the CPU makes no access: the
/// timer, interrupt requests, DMA and OAM advance, nothing else moves.
pub open spec fn spec_bus_ticks(b: BusView, n: nat) -> BusView
    decreases n,
{
    if n == 0 {
        b
    } else {
        spec_bus_tick(spec_bus_ticks(b, (n - 1) as nat))
    }
}

/// One machine cycle keeps the bus well-formed.
pub proof fn lemma_bus_tick_wf(b: BusView)
    requires
        bus_wf(b),
    ensures
        bus_wf(spec_bus_tick(b)),
{
    let q = b.int.requested;
    assert(q < 32 ==> (q | 4) < 32) by (bit_vector);
}

impl Bus {
    /// A bus over the given cartridge, every subsystem at its power-on
    /// state, all RAM zeroed, doctor mode off.
    pub fn new(cartridge: Cartridge) -> (r: Bus)
        ensures
            r@ == (BusView {
                cart: cartridge.data@,
                lcd: Lcd {
                    control: 0x91,
                    status: 0,
                    scroll_y: 0,
                    scroll_x: 0,
                    ly: 0,
                    ly_compare: 0,
                    bg_palette: 0xFC,
                    obj_palette_0: 0xFF,
                    obj_palette_1: 0xFF,
                    win_y: 0,
                    win_x: 0,
                },
                timer: Timer {
                    divider: 0,
                    counter: 0,
                    modulo: 0,
                    control: 5,
                    is_enabled: true,
                    mask: 0xFFF0,
                },
                int: InterruptHandler { master_enabled: false, enabled: 0, requested: 0 },
                dma: Dma { is_active: false, upper: 0, lower: 0, start_delay: 0 },
                oam: Seq::new(160, |i: int| 0u8),
                v_ram: Seq::new(8192, |i: int| 0u8),
                w_ram: Seq::new(8192, |i: int| 0u8),
                h_ram: Seq::new(127, |i: int| 0u8),
                v_ram_dirty: false,
                doctor_ly: false,
            }),
            bus_wf(r@),
    {
        let r = Bus {
            cartridge,
            lcd: Lcd::new(),
            timer: Timer::new(),
            int: InterruptHandler::new(),
            dma: Dma::new(),
            oam: Oam::new(),
            v_ram: crate::helper::zero_vec(8192),
            w_ram: crate::helper::zero_vec(8192),
            h_ram: crate::helper::zero_vec(127),
            v_ram_dirty: false,
            doctor_ly: false,
        };
        proof {
            assert(r@ =~= (BusView {
                cart: r.cartridge.data@,
                lcd: r.lcd,
                timer: r.timer,
                int: r.int,
                dma: r.dma,
                oam: r.oam@,
                v_ram: r.v_ram@,
                w_ram: r.w_ram@,
                h_ram: r.h_ram@,
                v_ram_dirty: false,
                doctor_ly: false,
            }));
        }
        r
    }

    fn read_mapped_io_register(&self, offset: u8) -> (r: u8)
        ensures
            r == spec_io_read(self@, offset),
    {
        if offset == 0x04 {
            self.timer.divider()
        } else if offset == 0x05 {
            self.timer.counter()
        } else if offset == 0x06 {
            self.timer.modulo()
        } else if offset == 0x07 {
            self.timer.control()
        } else if offset == 0x0F {
            self.int.requested()
        } else if offset == 0x40 {
            self.lcd.control
        } else if offset == 0x41 {
            self.lcd.status
        } else if offset == 0x42 {
            self.lcd.scroll_y
        } else if offset == 0x43 {
            self.lcd.scroll_x
        } else if offset == 0x44 {
            if self.doctor_ly {
                0x90
            } else {
                self.lcd.ly
            }
        } else if offset == 0x45 {
            self.lcd.ly_compare
        } else if offset == 0x46 {
            if self.dma.is_active() {
                0xFF
            } else {
                self.dma.upper
            }
        } else if offset == 0x47 {
            self.lcd.bg_palette
        } else if offset == 0x48 {
            self.lcd.obj_palette_0
        } else if offset == 0x49 {
            self.lcd.obj_palette_1
        } else if offset == 0x4A {
            self.lcd.win_y
        } else if offset == 0x4B {
            self.lcd.win_x
        } else {
            0
        }
    }

    /// Reads one byte anywhere in the address space.
    pub fn read(&self, address: u16) -> (r: u8)
        requires
            bus_wf(self@),
        ensures
            r == spec_bus_read(self@, address),
    {
        proof {
            lemma_u16_bytes(address);
        }
        if address < 0x8000 {
            self.cartridge.read(address as usize)
        } else if address <= 0x9FFF {
            self.v_ram[(address - 0x8000) as usize]
        } else if 0xC000 <= address && address <= 0xDFFF {
            self.w_ram[(address - 0xC000) as usize]
        } else if 0xFE00 <= address && address <= 0xFE9F {
            self.oam.read((address - 0xFE00) as u8)
        } else if 0xFF00 <= address && address <= 0xFF70 {
            self.read_mapped_io_register((address & 0xFF) as u8)
        } else if 0xFF80 <= address && address <= 0xFFFE {
            self.h_ram[(address - 0xFF80) as usize]
        } else if address == 0xFFFF {
            self.int.enabled()
        } else {
            0
        }
    }

    fn write_mapped_io_register(&mut self, offset: u8, data: u8)
        requires
            bus_wf(old(self)@),
        ensures
            final(self)@ == spec_io_write(old(self)@, offset, data),
            bus_wf(final(self)@),
    {
        if offset == 0x04 {
            self.timer.reset_divider();
        } else if offset == 0x05 {
            self.timer.set_counter(data);
        } else if offset == 0x06 {
            self.timer.set_modulo(data);
        } else if offset == 0x07 {
            self.timer.set_control(data);
        } else if offset == 0x0F {
            self.int.set_requested(data);
        } else if offset == 0x40 {
            self.lcd.control = data;
        } else if offset == 0x41 {
            self.lcd.status = data;
        } else if offset == 0x42 {
            self.lcd.scroll_y = data;
        } else if offset == 0x43 {
            self.lcd.scroll_x = data;
        } else if offset == 0x44 {
            self.lcd.ly = data;
        } else if offset == 0x45 {
            self.lcd.ly_compare = data;
        } else if offset == 0x46 {
            self.dma.start(data);
        } else if offset == 0x47 {
            self.lcd.update_palette(data, crate::lcd::Palette::Background);
        } else if offset == 0x48 {
            self.lcd.update_palette(data, crate::lcd::Palette::Obj0);
        } else if offset == 0x49 {
            self.lcd.update_palette(data, crate::lcd::Palette::Obj1);
        } else if offset == 0x4A {
            self.lcd.win_y = data;
        } else if offset == 0x4B {
            self.lcd.win_x = data;
        }
        proof {
            assert(self@ =~= spec_io_write(old(self)@, offset, data));
        }
    }

    /// Writes one byte anywhere in the address space.
    pub fn write(&mut self, address: u16, data: u8)
        requires
            bus_wf(old(self)@),
        ensures
            final(self)@ == spec_bus_write(old(self)@, address, data),
            bus_wf(final(self)@),
    {
        proof {
            lemma_u16_bytes(address);
        }
        if address < 0x8000 {
            self.cartridge.write(address, data);
        } else if address <= 0x9FFF {
            self.v_ram.set((address - 0x8000) as usize, data);
            self.v_ram_dirty = true;
        } else if 0xC000 <= address && address <= 0xDFFF {
            self.w_ram.set((address - 0xC000) as usize, data);
        } else if 0xFE00 <= address && address <= 0xFE9F {
            self.oam.write((address - 0xFE00) as u8, data);
        } else if 0xFF00 <= address && address <= 0xFF70 {
            self.write_mapped_io_register((address & 0xFF) as u8, data);
        } else if 0xFF80 <= address && address <= 0xFFFE {
            self.h_ram.set((address - 0xFF80) as usize, data);
        } else if address == 0xFFFF {
            self.int.set_enabled(data);
        }
        proof {
            assert(self@ =~= spec_bus_write(old(self)@, address, data));
        }
    }

    /// One machine cycle: four timer T-cycles, with any TIMA overflow turned
    /// into a Timer interrupt request, then one DMA step.
    pub fn tick(&mut self)
        requires
            bus_wf(old(self)@),
        ensures
            final(self)@ == spec_bus_tick(old(self)@),
            bus_wf(final(self)@),
    {
        let overflow = self.timer.tick_timer(4);
        if overflow {
            self.int.request_interrupt(Interrupt::Timer);
        }
        Dma::tick(self);
    }
}

} // verus!
