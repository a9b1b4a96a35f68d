//! The CPU core: fetch, decode and execute over the bus, with every bus
//! access paired with one machine cycle of peripheral time, followed by the
//! post-instruction interrupt dispatch. The whole step is specified by
//! `spec_step`, built from one model function per instruction.
use vstd::prelude::*;

use crate::bus::Bus;
use crate::bus::BusView;
use crate::bus::bus_wf;
use crate::bus::spec_bus_read;
use crate::bus::spec_bus_tick;
use crate::bus::spec_bus_write;
use crate::helper::combine_to_u16;
use crate::helper::split_u16;
use crate::helper::w16;
use crate::helper::w64;
use crate::instruction::Cond;
use crate::instruction::Inst;
use crate::instruction::Operand;
use crate::instruction::Reg16;
use crate::instruction::Reg8;
use crate::instruction::Rotation;
use crate::instruction::ShiftType;
use crate::registers::Registers;
use crate::registers::f_with_flag;
use crate::registers::half_carry_flag_of;
use crate::registers::lemma_spec_flags;
use crate::registers::lemma_flag_chains;
use crate::registers::spec_flags;
use crate::registers::spec_flags_nh;
use crate::registers::spec_flags_nhc;
use crate::registers::spec_flags_zh;
use crate::registers::spec_flags_znh;
use crate::registers::subtraction_flag_of;
use crate::registers::af_of;
use crate::registers::bc_of;
use crate::registers::carry_flag_of;
use crate::registers::de_of;
use crate::registers::hl_of;
use crate::registers::with_af;
use crate::registers::with_bc;
use crate::registers::with_de;
use crate::registers::with_hl;
use crate::registers::zero_flag_of;

verus! {

pub struct Cpu {
    pub regs: Registers,
    pub bus: Bus,
    pub is_halted: bool,
    /// Instructions retired, for tracing.
    pub counter: u64,
    /// T-cycles since the host last reset the count.
    pub cycles: u64,
}

/// The CPU as the contracts see it.
#[verifier::ext_equal]
pub struct CpuView {
    pub regs: Registers,
    pub bus: BusView,
    pub is_halted: bool,
    pub counter: u64,
    pub cycles: u64,
}

impl View for Cpu {
    type V = CpuView;

    open spec fn view(&self) -> CpuView {
        CpuView {
            regs: self.regs,
            bus: self.bus@,
            is_halted: self.is_halted,
            counter: self.counter,
            cycles: self.cycles,
        }
    }
}

/// The bus is well-formed and the low nibble of `F` is zero, as every flag
/// write keeps it.
pub open spec fn cpu_wf(c: CpuView) -> bool {
    &&& bus_wf(c.bus)
    &&& c.regs.f & 0x0F == 0
}

/// The CPU after `n` machine cycles of peripheral time: each advances the
/// whole bus one machine cycle and the T-cycle count by four.
pub open spec fn spec_tick(c: CpuView, n: nat) -> CpuView
    decreases n,
{
    if n == 0 {
        c
    } else {
        let p = spec_tick(c, (n - 1) as nat);
        CpuView { bus: spec_bus_tick(p.bus), cycles: w64(p.cycles + 4), ..p }
    }
}

/// An instruction byte fetched at PC: PC advances with wraparound and one
/// machine cycle passes.
pub open spec fn spec_read_next8(c: CpuView) -> (u8, CpuView) {
    let data = spec_bus_read(c.bus, c.regs.pc);
    let c2 = CpuView { regs: Registers { pc: w16(c.regs.pc + 1), ..c.regs }, ..c };
    (data, spec_tick(c2, 1))
}

/// A 16-bit immediate fetched at PC, low byte first.
pub open spec fn spec_read_next16(c: CpuView) -> (u16, CpuView) {
    let (low, c1) = spec_read_next8(c);
    let (high, c2) = spec_read_next8(c1);
    ((((high as u16) << 8) | (low as u16)) as u16, c2)
}

/// A data byte read through the bus, with its machine cycle.
pub open spec fn spec_read8(c: CpuView, addr: u16) -> (u8, CpuView) {
    (spec_bus_read(c.bus, addr), spec_tick(c, 1))
}

/// A data byte written through the bus, with its machine cycle.
pub open spec fn spec_write8(c: CpuView, addr: u16, data: u8) -> CpuView {
    spec_tick(CpuView { bus: spec_bus_write(c.bus, addr, data), ..c }, 1)
}

/// A 16-bit value written as two consecutive bytes, low first, with one
/// machine cycle after the pair.
pub open spec fn spec_write16(c: CpuView, addr: u16, data: u16) -> CpuView {
    let b1 = spec_bus_write(c.bus, addr, (data & 0xFF) as u8);
    let b2 = spec_bus_write(b1, w16(addr + 1), (data >> 8) as u8);
    spec_tick(CpuView { bus: b2, ..c }, 1)
}

/// The value of one 8-bit register.
pub open spec fn spec_get_reg8(r: Registers, reg: Reg8) -> u8 {
    match reg {
        Reg8::A => r.a,
        Reg8::B => r.b,
        Reg8::C => r.c,
        Reg8::D => r.d,
        Reg8::E => r.e,
        Reg8::H => r.h,
        Reg8::L => r.l,
    }
}

/// One 8-bit register replaced.
pub open spec fn spec_set_reg8(r: Registers, reg: Reg8, data: u8) -> Registers {
    match reg {
        Reg8::A => Registers { a: data, ..r },
        Reg8::B => Registers { b: data, ..r },
        Reg8::C => Registers { c: data, ..r },
        Reg8::D => Registers { d: data, ..r },
        Reg8::E => Registers { e: data, ..r },
        Reg8::H => Registers { h: data, ..r },
        Reg8::L => Registers { l: data, ..r },
    }
}

/// The value of one 16-bit register, with the register file after the read:
/// the post-increment and post-decrement views of HL return the old HL and
/// move it.
pub open spec fn spec_get_reg16(r: Registers, reg: Reg16) -> (u16, Registers) {
    match reg {
        Reg16::Af => (af_of(r), r),
        Reg16::Bc => (bc_of(r), r),
        Reg16::De => (de_of(r), r),
        Reg16::Hl => (hl_of(r), r),
        Reg16::HlIncr => (hl_of(r), with_hl(r, w16(hl_of(r) + 1))),
        Reg16::HlDecr => (hl_of(r), with_hl(r, w16(hl_of(r) + 0x10000 - 1))),
        Reg16::Sp => (r.sp, r),
        Reg16::Pc => (r.pc, r),
    }
}

/// One 16-bit register replaced; writing `AF` keeps the low nibble of `F`
/// zero. The post-increment and post-decrement views are never written.
pub open spec fn spec_set_reg16(r: Registers, reg: Reg16, data: u16) -> Registers {
    match reg {
        Reg16::Af => with_af(r, data),
        Reg16::Bc => with_bc(r, data),
        Reg16::De => with_de(r, data),
        Reg16::Hl => with_hl(r, data),
        Reg16::HlIncr => r,
        Reg16::HlDecr => r,
        Reg16::Sp => Registers { sp: data, ..r },
        Reg16::Pc => Registers { pc: data, ..r },
    }
}

/// Whether a jump condition holds of the flags.
pub open spec fn spec_check_cond(r: Registers, cond: Cond) -> bool {
    match cond {
        Cond::Always => true,
        Cond::Zero => zero_flag_of(r),
        Cond::NotZero => !zero_flag_of(r),
        Cond::Carry => carry_flag_of(r),
        Cond::NotCarry => !carry_flag_of(r),
    }
}

/// An 8-bit immediate interpreted as a signed offset and widened to 16 bits.
pub open spec fn spec_sign_extend(n: u8) -> u16 {
    if n < 0x80 {
        n as u16
    } else {
        (n + 0xFF00) as u16
    }
}

impl Cpu {
    /// A CPU over the given bus, registers at their power-on values, not
    /// halted, counters cleared.
    pub fn new(bus: Bus) -> (r: Cpu)
        ensures
            r@ == (CpuView {
                regs: Registers {
                    a: 0x01,
                    f: 0xB0,
                    b: 0x00,
                    c: 0x13,
                    d: 0x00,
                    e: 0xD8,
                    h: 0x01,
                    l: 0x4D,
                    sp: 0xFFFE,
                    pc: 0x0100,
                },
                bus: bus@,
                is_halted: false,
                counter: 0,
                cycles: 0,
            }),
            bus_wf(bus@) ==> cpu_wf(r@),
    {
        proof {
            assert(0xB0u8 & 0x0F == 0) by (bit_vector);
        }
        Cpu { regs: Registers::new(), bus, is_halted: false, counter: 0, cycles: 0 }
    }

    /// `machine_cycles` machine cycles of peripheral time: the bus (timer,
    /// interrupt requests, DMA) advances in lockstep, four T-cycles each.
    fn tick(&mut self, machine_cycles: u8)
        requires
            bus_wf(old(self)@.bus),
        ensures
            final(self)@ == spec_tick(old(self)@, machine_cycles as nat),
            bus_wf(final(self)@.bus),
            final(self)@.regs == old(self)@.regs,
            final(self)@.is_halted == old(self)@.is_halted,
            final(self)@.counter == old(self)@.counter,
    {
        let mut i: u8 = 0;
        while i < machine_cycles
            invariant
                i <= machine_cycles,
                self@ == spec_tick(old(self)@, i as nat),
                bus_wf(self@.bus),
                self@.regs == old(self)@.regs,
                self@.is_halted == old(self)@.is_halted,
                self@.counter == old(self)@.counter,
            decreases machine_cycles - i,
        {
            let ghost prev = self@;
            self.bus.tick();
            self.cycles = self.cycles.wrapping_add(4);
            i = i + 1;
            proof {
                assert(self@ =~= (CpuView {
                    bus: spec_bus_tick(prev.bus),
                    cycles: w64(prev.cycles + 4),
                    ..prev
                }));
            }
        }
    }

    /// Fetches the byte at PC, advancing PC with wraparound; one machine
    /// cycle.
    fn read_next_8bit(&mut self) -> (r: u8)
        requires
            bus_wf(old(self)@.bus),
        ensures
            r == spec_read_next8(old(self)@).0,
            final(self)@ == spec_read_next8(old(self)@).1,
            bus_wf(final(self)@.bus),
            final(self)@.regs.f == old(self)@.regs.f,
    {
        let ghost c0 = self@;
        let data = self.bus.read(self.regs.pc);
        self.regs.pc = self.regs.pc.wrapping_add(1);
        proof {
            assert(self@ =~= (CpuView {
                regs: Registers { pc: w16(c0.regs.pc + 1), ..c0.regs },
                ..c0
            }));
        }
        self.tick(1);
        data
    }

    /// Fetches a 16-bit immediate at PC, low byte first; two machine cycles.
    fn read_next_16bit(&mut self) -> (r: u16)
        requires
            bus_wf(old(self)@.bus),
        ensures
            r == spec_read_next16(old(self)@).0,
            final(self)@ == spec_read_next16(old(self)@).1,
            bus_wf(final(self)@.bus),
            final(self)@.regs.f == old(self)@.regs.f,
    {
        let low = self.read_next_8bit();
        let high = self.read_next_8bit();
        combine_to_u16(high, low)
    }

    /// Reads one data byte; one machine cycle.
    fn read_8bit(&mut self, addr: u16) -> (r: u8)
        requires
            bus_wf(old(self)@.bus),
        ensures
            r == spec_read8(old(self)@, addr).0,
            final(self)@ == spec_read8(old(self)@, addr).1,
            bus_wf(final(self)@.bus),
            final(self)@.regs == old(self)@.regs,
    {
        let data = self.bus.read(addr);
        self.tick(1);
        data
    }

    /// Writes one data byte; one machine cycle.
    fn write_8bit(&mut self, addr: u16, data: u8)
        requires
            bus_wf(old(self)@.bus),
        ensures
            final(self)@ == spec_write8(old(self)@, addr, data),
            bus_wf(final(self)@.bus),
            final(self)@.regs == old(self)@.regs,
    {
        let ghost c0 = self@;
        self.bus.write(addr, data);
        proof {
            assert(self@ =~= (CpuView { bus: spec_bus_write(c0.bus, addr, data), ..c0 }));
        }
        self.tick(1);
    }

    /// Writes a 16-bit value as two consecutive bytes, low first; one
    /// machine cycle after the pair.
    fn write_16bit(&mut self, addr: u16, data: u16)
        requires
            bus_wf(old(self)@.bus),
        ensures
            final(self)@ == spec_write16(old(self)@, addr, data),
            bus_wf(final(self)@.bus),
            final(self)@.regs == old(self)@.regs,
    {
        let ghost c0 = self@;
        let (high, low) = split_u16(data);
        self.bus.write(addr, low);
        self.bus.write(addr.wrapping_add(1), high);
        proof {
            assert(self@ =~= (CpuView {
                bus: spec_bus_write(
                    spec_bus_write(c0.bus, addr, (data & 0xFF) as u8),
                    w16(addr + 1),
                    (data >> 8) as u8,
                ),
                ..c0
            }));
        }
        self.tick(1);
    }

    fn get_reg8(&self, reg: &Reg8) -> (r: u8)
        ensures
            r == spec_get_reg8(self@.regs, *reg),
    {
        match reg {
            Reg8::A => self.regs.a,
            Reg8::B => self.regs.b,
            Reg8::C => self.regs.c,
            Reg8::D => self.regs.d,
            Reg8::E => self.regs.e,
            Reg8::H => self.regs.h,
            Reg8::L => self.regs.l,
        }
    }

    fn set_reg8(&mut self, reg: &Reg8, data: u8)
        ensures
            final(self)@ == (CpuView { regs: spec_set_reg8(old(self)@.regs, *reg, data), ..old(self)@ }),
    {
        match reg {
            Reg8::A => self.regs.a = data,
            Reg8::B => self.regs.b = data,
            Reg8::C => self.regs.c = data,
            Reg8::D => self.regs.d = data,
            Reg8::E => self.regs.e = data,
            Reg8::H => self.regs.h = data,
            Reg8::L => self.regs.l = data,
        };
        proof {
            assert(self@ =~= (CpuView {
                regs: spec_set_reg8(old(self)@.regs, *reg, data),
                ..old(self)@
            }));
        }
    }

    fn set_reg16(&mut self, reg: &Reg16, data: u16)
        requires
            !(*reg matches Reg16::HlIncr),
            !(*reg matches Reg16::HlDecr),
        ensures
            final(self)@ == (CpuView { regs: spec_set_reg16(old(self)@.regs, *reg, data), ..old(self)@ }),
    {
        match reg {
            Reg16::Af => self.regs.set_af(data),
            Reg16::Bc => self.regs.set_bc(data),
            Reg16::De => self.regs.set_de(data),
            Reg16::Hl => self.regs.set_hl(data),
            Reg16::Sp => self.regs.sp = data,
            Reg16::Pc => self.regs.pc = data,
            Reg16::HlIncr | Reg16::HlDecr => unreached(),
        };
        proof {
            assert(self@ =~= (CpuView {
                regs: spec_set_reg16(old(self)@.regs, *reg, data),
                ..old(self)@
            }));
        }
    }

    fn get_reg16(&mut self, reg: &Reg16) -> (r: u16)
        ensures
            r == spec_get_reg16(old(self)@.regs, *reg).0,
            final(self)@ == (CpuView { regs: spec_get_reg16(old(self)@.regs, *reg).1, ..old(self)@ }),
            final(self)@.regs.f == old(self)@.regs.f,
    {
        let r = match reg {
            Reg16::Af => self.regs.af(),
            Reg16::Bc => self.regs.bc(),
            Reg16::De => self.regs.de(),
            Reg16::Hl => self.regs.hl(),
            Reg16::HlIncr => {
                let hl = self.regs.hl();
                self.regs.incr_hl();
                hl
            },
            Reg16::HlDecr => {
                let hl = self.regs.hl();
                self.regs.decr_hl();
                hl
            },
            Reg16::Sp => self.regs.sp,
            Reg16::Pc => self.regs.pc,
        };
        proof {
            assert(self@ =~= (CpuView {
                regs: spec_get_reg16(old(self)@.regs, *reg).1,
                ..old(self)@
            }));
        }
        r
    }

    fn check_cond(&self, cond: &Cond) -> (r: bool)
        ensures
            r == spec_check_cond(self@.regs, *cond),
    {
        match cond {
            Cond::Always => true,
            Cond::Zero => self.regs.zero_flag(),
            Cond::NotZero => !(self.regs.zero_flag()),
            Cond::Carry => self.regs.carry_flag(),
            Cond::NotCarry => !(self.regs.carry_flag()),
        }
    }

    /// Widens an immediate byte to its signed 16-bit offset value.
    fn sign_extend_offset(&self, n: u8) -> (r: u16)
        ensures
            r == spec_sign_extend(n),
    {
        if n < 0x80 {
            n as u16
        } else {
            n as u16 + 0xFF00
        }
    }
}

/// An operand an 8-bit value can be read from: an immediate byte, an 8-bit
/// register, or memory through a 16-bit register.
pub open spec fn is_operand8(o: Operand) -> bool {
    o matches Operand::D8 || o matches Operand::R8(_) || o matches Operand::IndR16(_)
}

/// An operand an 8-bit value can be written back to.
pub open spec fn is_operand8_dest(o: Operand) -> bool {
    o matches Operand::R8(_) || o matches Operand::IndR16(_)
}

/// The 8-bit value of an operand, with the CPU after reading it: an
/// immediate costs a fetch cycle, memory through a register costs a read
/// cycle (moving HL for its post-increment and post-decrement views), a
/// register costs nothing.
pub open spec fn spec_get_8bit_operand(c: CpuView, o: Operand) -> (u8, CpuView) {
    match o {
        Operand::D8 => spec_read_next8(c),
        Operand::R8(r) => (spec_get_reg8(c.regs, r), c),
        Operand::IndR16(rr) => {
            let (addr, regs2) = spec_get_reg16(c.regs, rr);
            spec_read8(CpuView { regs: regs2, ..c }, addr)
        },
        _ => (0, c),
    }
}

/// An 8-bit value stored to an operand: a register directly, or memory
/// through a 16-bit register with its write cycle.
pub open spec fn spec_set_8bit_operand(c: CpuView, o: Operand, data: u8) -> CpuView {
    match o {
        Operand::R8(r) => CpuView { regs: spec_set_reg8(c.regs, r, data), ..c },
        Operand::IndR16(rr) => {
            let (addr, regs2) = spec_get_reg16(c.regs, rr);
            spec_write8(CpuView { regs: regs2, ..c }, addr, data)
        },
        _ => c,
    }
}

/// `ADD A` / `ADC A`: the operand (plus the old carry for ADC) is added into
/// A; `Z` from the result, `N` clear, `H` from bit 3, `C` from bit 7.
pub open spec fn spec_add_a(c: CpuView, o: Operand, with_carry: bool) -> CpuView {
    let left = c.regs.a as u16;
    let (data, c1) = spec_get_8bit_operand(c, o);
    let right = data as u16;
    let cv: u16 = if with_carry && crate::registers::carry_flag_of(c1.regs) {
        1
    } else {
        0
    };
    let sum = (left + right + cv) as u16;
    let result = (sum & 0xFF) as u8;
    CpuView {
        regs: Registers {
            a: result,
            f: spec_flags(
                c1.regs.f,
                result == 0,
                false,
                (left & 0xF) + (right & 0xF) + cv > 0xF,
                sum > 0xFF,
            ),
            ..c1.regs
        },
        ..c1
    }
}

/// `SUB A` / `SBC A` / `CP`: the operand (plus the old carry for SBC) is
/// subtracted from A, written back unless this is a compare; `Z` from the
/// result, `N` set, `H` and `C` from the borrows.
pub open spec fn spec_sub_a(c: CpuView, o: Operand, with_carry: bool, save_back: bool) -> CpuView {
    let left = c.regs.a as u16;
    let (data, c1) = spec_get_8bit_operand(c, o);
    let right = data as u16;
    let cv: u16 = if with_carry && crate::registers::carry_flag_of(c1.regs) {
        1
    } else {
        0
    };
    let diff = ((left + 0x200 - right - cv) as u16 & 0xFF) as u8;
    CpuView {
        regs: Registers {
            a: if save_back {
                diff
            } else {
                c1.regs.a
            },
            f: spec_flags(
                c1.regs.f,
                diff == 0,
                true,
                (left & 0xF) < (right & 0xF) + cv,
                left < right + cv,
            ),
            ..c1.regs
        },
        ..c1
    }
}

/// `AND A`: bitwise and into A; `Z` from the result, `H` set, `N` and `C`
/// clear.
pub open spec fn spec_and(c: CpuView, o: Operand) -> CpuView {
    let (data, c1) = spec_get_8bit_operand(c, o);
    let result = c1.regs.a & data;
    CpuView {
        regs: Registers {
            a: result,
            f: spec_flags(c1.regs.f, result == 0, false, true, false),
            ..c1.regs
        },
        ..c1
    }
}

/// `XOR A`: bitwise exclusive or into A; `Z` from the result, the other
/// flags clear.
pub open spec fn spec_xor(c: CpuView, o: Operand) -> CpuView {
    let (data, c1) = spec_get_8bit_operand(c, o);
    let result = c1.regs.a ^ data;
    CpuView {
        regs: Registers {
            a: result,
            f: spec_flags(c1.regs.f, result == 0, false, false, false),
            ..c1.regs
        },
        ..c1
    }
}

/// `OR A`: bitwise or into A; `Z` from the result, the other flags clear.
pub open spec fn spec_or(c: CpuView, o: Operand) -> CpuView {
    let (data, c1) = spec_get_8bit_operand(c, o);
    let result = c1.regs.a | data;
    CpuView {
        regs: Registers {
            a: result,
            f: spec_flags(c1.regs.f, result == 0, false, false, false),
            ..c1.regs
        },
        ..c1
    }
}

/// `INC` (8-bit): the operand steps with wraparound; `Z` and `H` from the
/// result, `N` clear, `C` untouched.
pub open spec fn spec_inc8(c: CpuView, o: Operand) -> CpuView {
    let (data, c1) = spec_get_8bit_operand(c, o);
    let result = crate::helper::w8(data + 1);
    let c2 = CpuView {
        regs: Registers {
            f: spec_flags_znh(c1.regs.f, result == 0, false, (data & 0x0F) + 1 > 0x0F),
            ..c1.regs
        },
        ..c1
    };
    spec_set_8bit_operand(c2, o, result)
}

/// `DEC` (8-bit): the operand steps down with wraparound; `Z` and `H` from
/// the result, `N` set, `C` untouched.
pub open spec fn spec_dec8(c: CpuView, o: Operand) -> CpuView {
    let (data, c1) = spec_get_8bit_operand(c, o);
    let result = crate::helper::w8(data + 0xFF);
    let c2 = CpuView {
        regs: Registers {
            f: spec_flags_znh(c1.regs.f, result == 0, true, data & 0x0F == 0),
            ..c1.regs
        },
        ..c1
    };
    spec_set_8bit_operand(c2, o, result)
}

/// The zero-page address `0xFF00 | low`.
pub open spec fn spec_high_addr(low: u8) -> u16 {
    ((0xFFu16) << 8 | (low as u16)) as u16
}

/// The operand shapes an 8-bit load can use: every operand but an immediate
/// or register 16-bit value, and no immediate as the destination.
pub open spec fn ld8_wf(dest: Operand, source: Operand) -> bool {
    &&& !(source matches Operand::D16)
    &&& !(source matches Operand::R16(_))
    &&& !(dest matches Operand::D16)
    &&& !(dest matches Operand::D8)
    &&& !(dest matches Operand::R16(_))
}

/// The operand shapes a 16-bit load can use.
pub open spec fn ld16_wf(dest: Operand, source: Operand) -> bool {
    &&& (source matches Operand::D16 || source matches Operand::R16(_))
    &&& match dest {
        Operand::A8 => true,
        Operand::A16 => true,
        Operand::R16(r) => !(r matches Reg16::HlIncr) && !(r matches Reg16::HlDecr),
        _ => false,
    }
}

/// An 8-bit load: the source value moves to the destination, with one
/// machine cycle for every immediate fetch and memory access.
pub open spec fn spec_load8(c: CpuView, dest: Operand, source: Operand) -> CpuView {
    let (data, c1) = match source {
        Operand::D8 => spec_read_next8(c),
        Operand::A8 => {
            let (n, ca) = spec_read_next8(c);
            spec_read8(ca, spec_high_addr(n))
        },
        Operand::A16 => {
            let (nn, ca) = spec_read_next16(c);
            spec_read8(ca, nn)
        },
        Operand::IndHighPlusC => spec_read8(c, spec_high_addr(c.regs.c)),
        Operand::IndR16(reg) => {
            let (addr, regs2) = spec_get_reg16(c.regs, reg);
            spec_read8(CpuView { regs: regs2, ..c }, addr)
        },
        Operand::R8(reg) => (spec_get_reg8(c.regs, reg), c),
        _ => (0, c),
    };
    match dest {
        Operand::A8 => {
            let (n, c2) = spec_read_next8(c1);
            spec_write8(c2, spec_high_addr(n), data)
        },
        Operand::A16 => {
            let (nn, c2) = spec_read_next16(c1);
            spec_write8(c2, nn, data)
        },
        Operand::IndHighPlusC => spec_write8(c1, spec_high_addr(c1.regs.c), data),
        Operand::IndR16(reg) => spec_set_8bit_operand(c1, Operand::IndR16(reg), data),
        Operand::R8(reg) => CpuView { regs: spec_set_reg8(c1.regs, reg, data), ..c1 },
        _ => c1,
    }
}

/// A 16-bit load: an immediate or register pair value moves to a register
/// pair or to memory as two bytes; reading a register source costs one
/// internal machine cycle.
pub open spec fn spec_load16(c: CpuView, dest: Operand, source: Operand) -> CpuView {
    let (data, c1) = match source {
        Operand::D16 => spec_read_next16(c),
        Operand::R16(reg) => {
            let (v, regs2) = spec_get_reg16(c.regs, reg);
            (v, spec_tick(CpuView { regs: regs2, ..c }, 1))
        },
        _ => (0, c),
    };
    match dest {
        Operand::A8 => {
            let (n, c2) = spec_read_next8(c1);
            spec_write16(c2, spec_high_addr(n), data)
        },
        Operand::A16 => {
            let (nn, c2) = spec_read_next16(c1);
            spec_write16(c2, nn, data)
        },
        Operand::R16(reg) => CpuView { regs: spec_set_reg16(c1.regs, reg, data), ..c1 },
        _ => c1,
    }
}

/// `LD HL, SP + d8`: HL takes SP plus the signed immediate; `Z` and `N`
/// clear, `H` and `C` from bits 3 and 7 of the low-byte sum; one internal
/// machine cycle.
pub open spec fn spec_ld_hl_sp(c: CpuView) -> CpuView {
    let (n, c1) = spec_read_next8(c);
    let sp = c1.regs.sp;
    let result = w16(sp + spec_sign_extend(n));
    let regs2 = with_hl(c1.regs, result);
    let f2 = spec_flags(
        regs2.f,
        false,
        false,
        (sp & 0xF) + ((n & 0xF) as u16) > 0xF,
        (sp & 0xFF) + (n as u16) > 0xFF,
    );
    spec_tick(CpuView { regs: Registers { f: f2, ..regs2 }, ..c1 }, 1)
}

/// A 16-bit value pushed: SP steps down before each of the two byte writes,
/// high byte first, then one internal machine cycle.
pub open spec fn spec_push_value(c: CpuView, v: u16) -> CpuView {
    let sp1 = w16(c.regs.sp + 0x10000 - 1);
    let ca = spec_write8(
        CpuView { regs: Registers { sp: sp1, ..c.regs }, ..c },
        sp1,
        (v >> 8) as u8,
    );
    let sp2 = w16(ca.regs.sp + 0x10000 - 1);
    let cb = spec_write8(
        CpuView { regs: Registers { sp: sp2, ..ca.regs }, ..ca },
        sp2,
        (v & 0xFF) as u8,
    );
    spec_tick(cb, 1)
}

/// `PUSH`: the register pair's value goes onto the stack.
pub open spec fn spec_push_stack(c: CpuView, reg: Reg16) -> CpuView {
    let (v, regs2) = spec_get_reg16(c.regs, reg);
    spec_push_value(CpuView { regs: regs2, ..c }, v)
}

/// `POP`: two bytes come off the stack, low first, SP stepping up after
/// each; popping into `AF` keeps the low nibble of `F` zero.
pub open spec fn spec_pop_stack(c: CpuView, reg: Reg16) -> CpuView {
    let (low, c1) = spec_read8(c, c.regs.sp);
    let c1b = CpuView { regs: Registers { sp: w16(c1.regs.sp + 1), ..c1.regs }, ..c1 };
    let (high, c2) = spec_read8(c1b, c1b.regs.sp);
    let c2b = CpuView { regs: Registers { sp: w16(c2.regs.sp + 1), ..c2.regs }, ..c2 };
    let value = (((high as u16) << 8) | (low as u16)) as u16;
    CpuView { regs: spec_set_reg16(c2b.regs, reg, value), ..c2b }
}

/// `JP`: the 16-bit target is always read; the jump itself, taken only when
/// the condition holds, costs one internal machine cycle.
pub open spec fn spec_jump_address(c: CpuView, cond: Cond) -> CpuView {
    let (addr, c1) = spec_read_next16(c);
    if spec_check_cond(c1.regs, cond) {
        spec_tick(CpuView { regs: Registers { pc: addr, ..c1.regs }, ..c1 }, 1)
    } else {
        c1
    }
}

/// `JP (HL)`: PC takes HL, with no cycles beyond the fetch.
pub open spec fn spec_jump_hl(c: CpuView) -> CpuView {
    CpuView { regs: Registers { pc: hl_of(c.regs), ..c.regs }, ..c }
}

/// `JR`: the signed offset is always read; a taken jump adds it to PC and
/// costs one internal machine cycle.
pub open spec fn spec_jump_relative(c: CpuView, cond: Cond) -> CpuView {
    let (n, c1) = spec_read_next8(c);
    if spec_check_cond(c1.regs, cond) {
        let pc2 = w16(c1.regs.pc + spec_sign_extend(n));
        spec_tick(CpuView { regs: Registers { pc: pc2, ..c1.regs }, ..c1 }, 1)
    } else {
        c1
    }
}

/// The current PC pushed and control moved to `address`: the shape shared by
/// `CALL`, `RST` and the interrupt dispatch.
pub open spec fn spec_push_and_set_pc(c: CpuView, address: u16) -> CpuView {
    let c1 = spec_push_stack(c, Reg16::Pc);
    CpuView { regs: Registers { pc: address, ..c1.regs }, ..c1 }
}

/// `CALL`: the 16-bit target is always read; only a taken call pushes the
/// return address and jumps.
pub open spec fn spec_call(c: CpuView, cond: Cond) -> CpuView {
    let (addr, c1) = spec_read_next16(c);
    if spec_check_cond(c1.regs, cond) {
        spec_push_and_set_pc(c1, addr)
    } else {
        c1
    }
}

/// `RET`: one internal machine cycle always; a taken return pops PC, and a
/// taken conditional return costs one more internal cycle.
pub open spec fn spec_ret(c: CpuView, cond: Cond) -> CpuView {
    let c1 = spec_tick(c, 1);
    if spec_check_cond(c1.regs, cond) {
        let c2 = spec_pop_stack(c1, Reg16::Pc);
        if !(cond matches Cond::Always) {
            spec_tick(c2, 1)
        } else {
            c2
        }
    } else {
        c1
    }
}

/// `RETI`: an unconditional return, then `IME` is set.
pub open spec fn spec_reti(c: CpuView) -> CpuView {
    let c1 = spec_ret(c, Cond::Always);
    CpuView {
        bus: BusView {
            int: crate::interrupts::InterruptHandler { master_enabled: true, ..c1.bus.int },
            ..c1.bus
        },
        ..c1
    }
}

/// `ADD HL, rr`: 16-bit addition into HL; `Z` untouched, `N` clear, `H` from
/// bit 11, `C` from bit 15; one internal machine cycle.
pub open spec fn spec_add_hl(c: CpuView, reg: Reg16) -> CpuView {
    let (data, regs2) = spec_get_reg16(c.regs, reg);
    let c1 = CpuView { regs: regs2, ..c };
    let d = data as u32;
    let hl = hl_of(c1.regs) as u32;
    let sum = (d + hl) as u32;
    let result = (sum & 0xFFFF) as u16;
    let regs3 = with_hl(c1.regs, result);
    let f3 = spec_flags_nhc(regs3.f, false, (d & 0xFFF) + (hl & 0xFFF) > 0xFFF, sum > 0xFFFF);
    spec_tick(CpuView { regs: Registers { f: f3, ..regs3 }, ..c1 }, 1)
}

/// `ADD SP, d8`: SP takes the signed immediate; `Z` and `N` clear, `H` and
/// `C` from bits 3 and 7 of the low-byte sum; two internal machine cycles.
pub open spec fn spec_add_sp(c: CpuView) -> CpuView {
    let (n, c1) = spec_read_next8(c);
    let sp = c1.regs.sp;
    let result = w16(sp + spec_sign_extend(n));
    let f2 = spec_flags(
        c1.regs.f,
        false,
        false,
        (sp & 0xF) + ((n & 0xF) as u16) > 0xF,
        (sp & 0xFF) + (n as u16) > 0xFF,
    );
    spec_tick(CpuView { regs: Registers { sp: result, f: f2, ..c1.regs }, ..c1 }, 2)
}

/// `INC rr`: the pair steps with wraparound; no flags; one internal machine
/// cycle.
pub open spec fn spec_inc16(c: CpuView, reg: Reg16) -> CpuView {
    let (data, regs2) = spec_get_reg16(c.regs, reg);
    let c1 = CpuView { regs: regs2, ..c };
    spec_tick(CpuView { regs: spec_set_reg16(c1.regs, reg, w16(data + 1)), ..c1 }, 1)
}

/// `DEC rr`: the pair steps down with wraparound; no flags; one internal
/// machine cycle.
pub open spec fn spec_dec16(c: CpuView, reg: Reg16) -> CpuView {
    let (data, regs2) = spec_get_reg16(c.regs, reg);
    let c1 = CpuView { regs: regs2, ..c };
    spec_tick(CpuView { regs: spec_set_reg16(c1.regs, reg, w16(data + 0x10000 - 1)), ..c1 }, 1)
}

/// The rotated byte and the bit that leaves, by rotation kind; the
/// through-carry forms shift the old carry in.
pub open spec fn spec_rotate_result(data: u8, old_carry: bool, rot: Rotation) -> (u8, bool) {
    match rot {
        Rotation::LeftThroughCarry => (
            if old_carry {
                ((data << 1) | 1) as u8
            } else {
                (data << 1) as u8
            },
            data & 0x80 != 0,
        ),
        Rotation::LeftCircular => (((data << 1) | (data >> 7)) as u8, data & 0x80 != 0),
        Rotation::RightThroughCarry => (
            if old_carry {
                ((data >> 1) | 0x80) as u8
            } else {
                (data >> 1) as u8
            },
            data & 1 != 0,
        ),
        Rotation::RightCircular => (((data >> 1) | (data << 7)) as u8, data & 1 != 0),
    }
}

/// A rotate: the operand turns by one bit, `C` takes the bit that left, `N`
/// and `H` clear; `Z` is computed only for the CB-prefixed forms and forced
/// clear for the A-only forms.
pub open spec fn spec_rotate(c: CpuView, rot: Rotation, o: Operand, set_zero: bool) -> CpuView {
    let (data, c1) = spec_get_8bit_operand(c, o);
    let pair = spec_rotate_result(data, crate::registers::carry_flag_of(c1.regs), rot);
    let result = pair.0;
    let c2 = CpuView {
        regs: Registers {
            f: spec_flags(c1.regs.f, set_zero && result == 0, false, false, pair.1),
            ..c1.regs
        },
        ..c1
    };
    spec_set_8bit_operand(c2, o, result)
}

/// The shifted byte and the bit that leaves, by shift kind; the arithmetic
/// right shift keeps the sign bit.
pub open spec fn spec_shift_result(data: u8, st: ShiftType) -> (u8, bool) {
    match st {
        ShiftType::LeftArithmetic => ((data << 1) as u8, data & 0x80 != 0),
        ShiftType::RightArithmetic => (((data >> 1) | (data & 0x80)) as u8, data & 1 != 0),
        ShiftType::RightLogic => ((data >> 1) as u8, data & 1 != 0),
    }
}

/// A shift: the operand shifts by one bit, `C` takes the bit that left, `Z`
/// from the result, `N` and `H` clear.
pub open spec fn spec_shift(c: CpuView, st: ShiftType, o: Operand) -> CpuView {
    let (data, c1) = spec_get_8bit_operand(c, o);
    let pair = spec_shift_result(data, st);
    let result = pair.0;
    let c2 = CpuView {
        regs: Registers {
            f: spec_flags(c1.regs.f, result == 0, false, false, pair.1),
            ..c1.regs
        },
        ..c1
    };
    spec_set_8bit_operand(c2, o, result)
}

/// `SWAP`: the operand's nibbles trade places; `Z` from the result, the
/// other flags clear.
pub open spec fn spec_swap(c: CpuView, o: Operand) -> CpuView {
    let (data, c1) = spec_get_8bit_operand(c, o);
    let result = ((data >> 4) | (data << 4)) as u8;
    let c2 = CpuView {
        regs: Registers {
            f: spec_flags(c1.regs.f, result == 0, false, false, false),
            ..c1.regs
        },
        ..c1
    };
    spec_set_8bit_operand(c2, o, result)
}

/// `BIT n`: `Z` is the complement of the tested bit, `N` clear, `H` set,
/// `C` untouched; nothing is written back.
pub open spec fn spec_test_bit(c: CpuView, index: u8, o: Operand) -> CpuView {
    let (data, c1) = spec_get_8bit_operand(c, o);
    CpuView {
        regs: Registers {
            f: spec_flags_znh(c1.regs.f, data & (1u8 << index) == 0, false, true),
            ..c1.regs
        },
        ..c1
    }
}

/// `RES n`: the bit is cleared; no flags.
pub open spec fn spec_reset_bit(c: CpuView, index: u8, o: Operand) -> CpuView {
    let (data, c1) = spec_get_8bit_operand(c, o);
    spec_set_8bit_operand(c1, o, data & !(1u8 << index))
}

/// `SET n`: the bit is set; no flags.
pub open spec fn spec_set_bit(c: CpuView, index: u8, o: Operand) -> CpuView {
    let (data, c1) = spec_get_8bit_operand(c, o);
    spec_set_8bit_operand(c1, o, data | (1u8 << index))
}

/// `DAA`: A is adjusted to valid packed BCD after an addition or a
/// subtraction, consulting `N`, `H` and `C`; `Z` from the result, `H`
/// cleared, `C` set when the additive adjustment overflowed the high digit.
pub open spec fn spec_daa(c: CpuView) -> CpuView {
    let r = c.regs;
    if subtraction_flag_of(r) {
        let a1 = if crate::registers::carry_flag_of(r) {
            crate::helper::w8(r.a + 0xA0)
        } else {
            r.a
        };
        let a2 = if half_carry_flag_of(r) {
            crate::helper::w8(a1 + 0xFA)
        } else {
            a1
        };
        CpuView { regs: Registers { a: a2, f: spec_flags_zh(r.f, a2 == 0, false), ..r }, ..c }
    } else {
        let cond1 = crate::registers::carry_flag_of(r) || r.a > 0x99;
        let a1 = if cond1 {
            crate::helper::w8(r.a + 0x60)
        } else {
            r.a
        };
        let f1 = if cond1 {
            f_with_flag(r.f, 0x10, true)
        } else {
            r.f
        };
        let cond2 = (f1 & 0x20 != 0) || (a1 & 0x0F) > 0x09;
        let a2 = if cond2 {
            crate::helper::w8(a1 + 6)
        } else {
            a1
        };
        CpuView { regs: Registers { a: a2, f: spec_flags_zh(f1, a2 == 0, false), ..r }, ..c }
    }
}

/// `CPL`: A is complemented; `N` and `H` set, `Z` and `C` untouched.
pub open spec fn spec_complement_a(c: CpuView) -> CpuView {
    CpuView { regs: Registers { a: !c.regs.a, f: spec_flags_nh(c.regs.f, true, true), ..c.regs }, ..c }
}

/// `SCF`: `C` set, `N` and `H` clear, `Z` untouched.
pub open spec fn spec_scf(c: CpuView) -> CpuView {
    CpuView { regs: Registers { f: spec_flags_nhc(c.regs.f, false, false, true), ..c.regs }, ..c }
}

/// `CCF`: `C` complemented, `N` and `H` clear, `Z` untouched.
pub open spec fn spec_ccf(c: CpuView) -> CpuView {
    let f1 = spec_flags_nh(c.regs.f, false, false);
    CpuView { regs: Registers { f: f_with_flag(f1, 0x10, f1 & 0x10 == 0), ..c.regs }, ..c }
}

/// `DI` / `EI`: the master-enable latch moves at once. Real hardware delays
/// the effect of `EI` until after the next instruction retires; this core
/// takes the immediate-enable approximation, which trades that one-
/// instruction window for a simpler latch.
pub open spec fn spec_set_ime(c: CpuView, value: bool) -> CpuView {
    CpuView {
        bus: BusView {
            int: crate::interrupts::InterruptHandler { master_enabled: value, ..c.bus.int },
            ..c.bus
        },
        ..c
    }
}

impl Cpu {
    /// Reads the byte behind the address in a 16-bit register; one machine
    /// cycle.
    fn load_indr(&mut self, reg: &Reg16) -> (r: u8)
        requires
            bus_wf(old(self)@.bus),
        ensures
            r == spec_get_8bit_operand(old(self)@, Operand::IndR16(*reg)).0,
            final(self)@ == spec_get_8bit_operand(old(self)@, Operand::IndR16(*reg)).1,
            bus_wf(final(self)@.bus),
            final(self)@.regs.f == old(self)@.regs.f,
    {
        let addr = self.get_reg16(reg);
        self.read_8bit(addr)
    }

    /// Writes a byte behind the address in a 16-bit register; one machine
    /// cycle.
    fn save_indr(&mut self, reg: &Reg16, data: u8)
        requires
            bus_wf(old(self)@.bus),
        ensures
            final(self)@ == spec_set_8bit_operand(old(self)@, Operand::IndR16(*reg), data),
            bus_wf(final(self)@.bus),
            final(self)@.regs.f == old(self)@.regs.f,
    {
        let addr = self.get_reg16(reg);
        self.write_8bit(addr, data);
    }

    fn get_8bit_operand(&mut self, operand: &Operand) -> (r: u8)
        requires
            bus_wf(old(self)@.bus),
            is_operand8(*operand),
        ensures
            r == spec_get_8bit_operand(old(self)@, *operand).0,
            final(self)@ == spec_get_8bit_operand(old(self)@, *operand).1,
            bus_wf(final(self)@.bus),
            final(self)@.regs.f == old(self)@.regs.f,
    {
        match operand {
            Operand::D8 => self.read_next_8bit(),
            Operand::R8(reg) => self.get_reg8(reg),
            Operand::IndR16(reg) => self.load_indr(reg),
            _ => unreached(),
        }
    }

    fn set_8bit_operand(&mut self, operand: &Operand, data: u8)
        requires
            bus_wf(old(self)@.bus),
            is_operand8_dest(*operand),
        ensures
            final(self)@ == spec_set_8bit_operand(old(self)@, *operand, data),
            bus_wf(final(self)@.bus),
            final(self)@.regs.f == old(self)@.regs.f,
    {
        match operand {
            Operand::R8(reg) => self.set_reg8(reg, data),
            Operand::IndR16(reg) => {
                let addr = self.get_reg16(reg);
                self.write_8bit(addr, data);
            },
            _ => unreached(),
        }
    }

    fn add_a(&mut self, operand: Operand, with_carry: bool)
        requires
            bus_wf(old(self)@.bus),
            is_operand8(operand),
        ensures
            final(self)@ == spec_add_a(old(self)@, operand, with_carry),
            bus_wf(final(self)@.bus),
            final(self)@.regs.f & 0x0F == old(self)@.regs.f & 0x0F,
    {
        let left = self.regs.a as u16;
        let right = self.get_8bit_operand(&operand) as u16;
        let c: u16 = if with_carry && self.regs.carry_flag() {
            1
        } else {
            0
        };
        let sum = left + right + c;
        proof {
            crate::helper::lemma_u16_bytes(sum);
            crate::helper::lemma_nibble_bounds(left, 0);
            crate::helper::lemma_nibble_bounds(right, 0);
        }
        let result = (sum & 0xFF) as u8;
        self.regs.a = result;
        self.regs.set_flag_zero(result == 0);
        self.regs.set_flag_subtract(false);
        self.regs.set_flag_half_carry((left & 0xF) + (right & 0xF) + c > 0xF);
        self.regs.set_flag_carry(sum > 0xFF);
        proof {
            lemma_spec_flags(
                old(self)@.regs.f,
                result == 0,
                false,
                (left & 0xF) + (right & 0xF) + c > 0xF,
                sum > 0xFF,
            );
            assert(self@ =~= spec_add_a(old(self)@, operand, with_carry));
        }
    }

    fn sub_a(&mut self, operand: Operand, with_carry: bool, save_back: bool)
        requires
            bus_wf(old(self)@.bus),
            is_operand8(operand),
        ensures
            final(self)@ == spec_sub_a(old(self)@, operand, with_carry, save_back),
            bus_wf(final(self)@.bus),
            final(self)@.regs.f & 0x0F == old(self)@.regs.f & 0x0F,
    {
        let left = self.regs.a as u16;
        let right = self.get_8bit_operand(&operand) as u16;
        let c: u16 = if with_carry && self.regs.carry_flag() {
            1
        } else {
            0
        };
        proof {
            crate::helper::lemma_nibble_bounds(left, 0);
            crate::helper::lemma_nibble_bounds(right, 0);
        }
        let diff = left + 0x200 - right - c;
        proof {
            crate::helper::lemma_u16_bytes(diff);
        }
        let result = (diff & 0xFF) as u8;
        self.regs.set_flag_zero(result == 0);
        self.regs.set_flag_subtract(true);
        self.regs.set_flag_half_carry((left & 0xF) < (right & 0xF) + c);
        self.regs.set_flag_carry(left < right + c);
        if save_back {
            self.regs.a = result;
        }
        proof {
            lemma_spec_flags(
                old(self)@.regs.f,
                result == 0,
                true,
                (left & 0xF) < (right & 0xF) + c,
                left < right + c,
            );
            assert(self@ =~= spec_sub_a(old(self)@, operand, with_carry, save_back));
        }
    }

    fn and(&mut self, operand: Operand)
        requires
            bus_wf(old(self)@.bus),
            is_operand8(operand),
        ensures
            final(self)@ == spec_and(old(self)@, operand),
            bus_wf(final(self)@.bus),
            final(self)@.regs.f & 0x0F == old(self)@.regs.f & 0x0F,
    {
        let data = self.get_8bit_operand(&operand);
        self.regs.a = self.regs.a & data;
        let z = self.regs.a == 0;
        self.regs.set_flag_zero(z);
        self.regs.set_flag_subtract(false);
        self.regs.set_flag_half_carry(true);
        self.regs.set_flag_carry(false);
        proof {
            lemma_spec_flags(old(self)@.regs.f, z, false, true, false);
            assert(self@ =~= spec_and(old(self)@, operand));
        }
    }

    fn xor(&mut self, operand: Operand)
        requires
            bus_wf(old(self)@.bus),
            is_operand8(operand),
        ensures
            final(self)@ == spec_xor(old(self)@, operand),
            bus_wf(final(self)@.bus),
            final(self)@.regs.f & 0x0F == old(self)@.regs.f & 0x0F,
    {
        let data = self.get_8bit_operand(&operand);
        self.regs.a = self.regs.a ^ data;
        let z = self.regs.a == 0;
        self.regs.set_flag_zero(z);
        self.regs.set_flag_subtract(false);
        self.regs.set_flag_half_carry(false);
        self.regs.set_flag_carry(false);
        proof {
            lemma_spec_flags(old(self)@.regs.f, z, false, false, false);
            assert(self@ =~= spec_xor(old(self)@, operand));
        }
    }

    fn or(&mut self, operand: Operand)
        requires
            bus_wf(old(self)@.bus),
            is_operand8(operand),
        ensures
            final(self)@ == spec_or(old(self)@, operand),
            bus_wf(final(self)@.bus),
            final(self)@.regs.f & 0x0F == old(self)@.regs.f & 0x0F,
    {
        let data = self.get_8bit_operand(&operand);
        self.regs.a = self.regs.a | data;
        let z = self.regs.a == 0;
        self.regs.set_flag_zero(z);
        self.regs.set_flag_subtract(false);
        self.regs.set_flag_half_carry(false);
        self.regs.set_flag_carry(false);
        proof {
            lemma_spec_flags(old(self)@.regs.f, z, false, false, false);
            assert(self@ =~= spec_or(old(self)@, operand));
        }
    }

    fn inc8(&mut self, operand: Operand)
        requires
            bus_wf(old(self)@.bus),
            is_operand8_dest(operand),
        ensures
            final(self)@ == spec_inc8(old(self)@, operand),
            bus_wf(final(self)@.bus),
            final(self)@.regs.f & 0x0F == old(self)@.regs.f & 0x0F,
    {
        let data = self.get_8bit_operand(&operand);
        let result = data.wrapping_add(1);
        proof {
            crate::helper::lemma_nibble_bounds(0, data);
        }
        let h = (data & 0x0F) + 1 > 0x0F;
        self.regs.set_flag_zero(result == 0);
        self.regs.set_flag_subtract(false);
        self.regs.set_flag_half_carry(h);
        proof {
            lemma_flag_chains(old(self)@.regs.f, result == 0, false, h, false);
        }
        self.set_8bit_operand(&operand, result);
        proof {
            assert(self@ =~= spec_inc8(old(self)@, operand));
        }
    }

    fn dec8(&mut self, operand: Operand)
        requires
            bus_wf(old(self)@.bus),
            is_operand8_dest(operand),
        ensures
            final(self)@ == spec_dec8(old(self)@, operand),
            bus_wf(final(self)@.bus),
            final(self)@.regs.f & 0x0F == old(self)@.regs.f & 0x0F,
    {
        let data = self.get_8bit_operand(&operand);
        let result = data.wrapping_sub(1);
        let h = data & 0x0F == 0;
        self.regs.set_flag_zero(result == 0);
        self.regs.set_flag_subtract(true);
        self.regs.set_flag_half_carry(h);
        proof {
            lemma_flag_chains(old(self)@.regs.f, result == 0, true, h, false);
        }
        self.set_8bit_operand(&operand, result);
        proof {
            assert(self@ =~= spec_dec8(old(self)@, operand));
        }
    }
}

impl Cpu {
    fn load8(&mut self, dest: Operand, source: Operand)
        requires
            bus_wf(old(self)@.bus),
            ld8_wf(dest, source),
        ensures
            final(self)@ == spec_load8(old(self)@, dest, source),
            bus_wf(final(self)@.bus),
            final(self)@.regs.f == old(self)@.regs.f,
    {
        let data = match source {
            Operand::D8 => self.read_next_8bit(),
            Operand::A8 => {
                let n = self.read_next_8bit();
                let addr = combine_to_u16(0xFF, n);
                self.read_8bit(addr)
            },
            Operand::A16 => {
                let addr = self.read_next_16bit();
                self.read_8bit(addr)
            },
            Operand::IndHighPlusC => {
                let addr = combine_to_u16(0xFF, self.regs.c);
                self.read_8bit(addr)
            },
            Operand::IndR16(reg) => self.load_indr(&reg),
            Operand::R8(reg) => self.get_reg8(&reg),
            _ => unreached(),
        };
        match dest {
            Operand::A8 => {
                let n = self.read_next_8bit();
                let addr = combine_to_u16(0xFF, n);
                self.write_8bit(addr, data);
            },
            Operand::A16 => {
                let addr = self.read_next_16bit();
                self.write_8bit(addr, data);
            },
            Operand::IndHighPlusC => {
                let addr = combine_to_u16(0xFF, self.regs.c);
                self.write_8bit(addr, data);
            },
            Operand::IndR16(reg) => self.save_indr(&reg, data),
            Operand::R8(reg) => self.set_reg8(&reg, data),
            _ => unreached(),
        };
    }

    fn load16(&mut self, dest: Operand, source: Operand)
        requires
            bus_wf(old(self)@.bus),
            ld16_wf(dest, source),
        ensures
            final(self)@ == spec_load16(old(self)@, dest, source),
            bus_wf(final(self)@.bus),
            old(self)@.regs.f & 0x0F == 0 ==> final(self)@.regs.f & 0x0F == 0,
    {
        let data = match source {
            Operand::D16 => self.read_next_16bit(),
            Operand::R16(reg) => {
                let result = self.get_reg16(&reg);
                self.tick(1);
                result
            },
            _ => unreached(),
        };
        match dest {
            Operand::A8 => {
                let n = self.read_next_8bit();
                let addr = combine_to_u16(0xFF, n);
                self.write_16bit(addr, data);
            },
            Operand::A16 => {
                let addr = self.read_next_16bit();
                self.write_16bit(addr, data);
            },
            Operand::R16(reg) => {
                self.set_reg16(&reg, data);
                proof {
                    if old(self)@.regs.f & 0x0F == 0 {
                        crate::registers::lemma_af_low_nibble(data);
                    }
                }
            },
            _ => unreached(),
        };
    }

    fn ld_hl_sp_plus_offset(&mut self)
        requires
            bus_wf(old(self)@.bus),
        ensures
            final(self)@ == spec_ld_hl_sp(old(self)@),
            bus_wf(final(self)@.bus),
            final(self)@.regs.f & 0x0F == old(self)@.regs.f & 0x0F,
    {
        let n = self.read_next_8bit();
        let offset = self.sign_extend_offset(n);
        let sp = self.regs.sp;
        let result = sp.wrapping_add(offset);
        self.regs.set_hl(result);
        proof {
            crate::helper::lemma_nibble_bounds(sp, n);
            assert((n & 0xF) <= 0xF) by (bit_vector);
            crate::helper::lemma_u16_bytes(sp);
        }
        self.regs.set_flag_zero(false);
        self.regs.set_flag_subtract(false);
        self.regs.set_flag_half_carry((sp & 0xF) + ((n & 0xF) as u16) > 0xF);
        self.regs.set_flag_carry((sp & 0xFF) + (n as u16) > 0xFF);
        proof {
            lemma_spec_flags(
                old(self)@.regs.f,
                false,
                false,
                (sp & 0xF) + ((n & 0xF) as u16) > 0xF,
                (sp & 0xFF) + (n as u16) > 0xFF,
            );
        }
        self.tick(1);
        proof {
            assert(self@ =~= spec_ld_hl_sp(old(self)@));
        }
    }

    #[verifier::rlimit(30)]
    fn push_stack(&mut self, reg: Reg16)
        requires
            bus_wf(old(self)@.bus),
        ensures
            final(self)@ == spec_push_stack(old(self)@, reg),
            bus_wf(final(self)@.bus),
            final(self)@.regs.f == old(self)@.regs.f,
    {
        let value = self.get_reg16(&reg);
        let ghost cg = self@;
        let (high, low) = split_u16(value);
        self.regs.sp = self.regs.sp.wrapping_sub(1);
        proof {
            assert(self@ =~= (CpuView {
                regs: Registers { sp: w16(cg.regs.sp + 0x10000 - 1), ..cg.regs },
                ..cg
            }));
        }
        self.write_8bit(self.regs.sp, high);
        let ghost ca = self@;
        self.regs.sp = self.regs.sp.wrapping_sub(1);
        proof {
            assert(self@ =~= (CpuView {
                regs: Registers { sp: w16(ca.regs.sp + 0x10000 - 1), ..ca.regs },
                ..ca
            }));
        }
        self.write_8bit(self.regs.sp, low);
        self.tick(1);
        proof {
            assert(self@ =~= spec_push_stack(old(self)@, reg));
        }
    }

    fn pop_stack(&mut self, reg: Reg16)
        requires
            bus_wf(old(self)@.bus),
            !(reg matches Reg16::HlIncr),
            !(reg matches Reg16::HlDecr),
        ensures
            final(self)@ == spec_pop_stack(old(self)@, reg),
            bus_wf(final(self)@.bus),
            !(reg matches Reg16::Af) ==> final(self)@.regs.f == old(self)@.regs.f,
            old(self)@.regs.f & 0x0F == 0 ==> final(self)@.regs.f & 0x0F == 0,
    {
        let low = self.read_8bit(self.regs.sp);
        self.regs.sp = self.regs.sp.wrapping_add(1);
        let high = self.read_8bit(self.regs.sp);
        self.regs.sp = self.regs.sp.wrapping_add(1);
        let value = combine_to_u16(high, low);
        self.set_reg16(&reg, value);
        proof {
            crate::registers::lemma_af_low_nibble(value);
            assert(self@ =~= spec_pop_stack(old(self)@, reg));
        }
    }

    fn jump_address(&mut self, cond: Cond)
        requires
            bus_wf(old(self)@.bus),
        ensures
            final(self)@ == spec_jump_address(old(self)@, cond),
            bus_wf(final(self)@.bus),
            final(self)@.regs.f == old(self)@.regs.f,
    {
        let addr = self.read_next_16bit();
        if self.check_cond(&cond) {
            self.regs.pc = addr;
            self.tick(1);
        }
    }

    fn jump_hl(&mut self)
        ensures
            final(self)@ == spec_jump_hl(old(self)@),
            final(self)@.regs.f == old(self)@.regs.f,
    {
        self.regs.pc = self.regs.hl();
        proof {
            assert(self@ =~= spec_jump_hl(old(self)@));
        }
    }

    fn jump_relative(&mut self, cond: Cond)
        requires
            bus_wf(old(self)@.bus),
        ensures
            final(self)@ == spec_jump_relative(old(self)@, cond),
            bus_wf(final(self)@.bus),
            final(self)@.regs.f == old(self)@.regs.f,
    {
        let n = self.read_next_8bit();
        if self.check_cond(&cond) {
            let offset = self.sign_extend_offset(n);
            self.regs.pc = self.regs.pc.wrapping_add(offset);
            self.tick(1);
        }
    }

    fn push_and_set_pc(&mut self, address: u16)
        requires
            bus_wf(old(self)@.bus),
        ensures
            final(self)@ == spec_push_and_set_pc(old(self)@, address),
            bus_wf(final(self)@.bus),
            final(self)@.regs.f == old(self)@.regs.f,
    {
        self.push_stack(Reg16::Pc);
        self.regs.pc = address;
        proof {
            assert(self@ =~= spec_push_and_set_pc(old(self)@, address));
        }
    }

    fn call(&mut self, cond: Cond)
        requires
            bus_wf(old(self)@.bus),
        ensures
            final(self)@ == spec_call(old(self)@, cond),
            bus_wf(final(self)@.bus),
            final(self)@.regs.f == old(self)@.regs.f,
    {
        let new_address = self.read_next_16bit();
        if self.check_cond(&cond) {
            self.push_and_set_pc(new_address);
        }
    }

    fn ret(&mut self, cond: Cond)
        requires
            bus_wf(old(self)@.bus),
        ensures
            final(self)@ == spec_ret(old(self)@, cond),
            bus_wf(final(self)@.bus),
            final(self)@.regs.f == old(self)@.regs.f,
    {
        self.tick(1);
        if self.check_cond(&cond) {
            self.pop_stack(Reg16::Pc);
            if !matches!(cond, Cond::Always) {
                self.tick(1);
            }
        }
    }

    fn reti(&mut self)
        requires
            bus_wf(old(self)@.bus),
        ensures
            final(self)@ == spec_reti(old(self)@),
            bus_wf(final(self)@.bus),
            final(self)@.regs.f == old(self)@.regs.f,
    {
        self.ret(Cond::Always);
        self.bus.int.master_enabled = true;
        proof {
            assert(self@ =~= spec_reti(old(self)@));
        }
    }

    fn rst(&mut self, offset: u8)
        requires
            bus_wf(old(self)@.bus),
        ensures
            final(self)@ == spec_push_and_set_pc(old(self)@, offset as u16),
            bus_wf(final(self)@.bus),
            final(self)@.regs.f == old(self)@.regs.f,
    {
        self.push_and_set_pc(offset as u16);
    }

    fn add_hl(&mut self, reg: Reg16)
        requires
            bus_wf(old(self)@.bus),
        ensures
            final(self)@ == spec_add_hl(old(self)@, reg),
            bus_wf(final(self)@.bus),
            final(self)@.regs.f & 0x0F == old(self)@.regs.f & 0x0F,
    {
        let data = self.get_reg16(&reg) as u32;
        let hl = self.regs.hl() as u32;
        let sum = hl + data;
        proof {
            crate::helper::lemma_u32_halves(sum);
            crate::helper::lemma_u32_halves(data);
            crate::helper::lemma_u32_halves(hl);
        }
        let (carry, result) = crate::helper::split_u32(sum);
        self.regs.set_hl(result as u16);
        self.regs.set_flag_subtract(false);
        self.regs.set_flag_half_carry((data & 0xFFF) + (hl & 0xFFF) > 0xFFF);
        self.regs.set_flag_carry(carry > 0);
        proof {
            lemma_flag_chains(
                old(self)@.regs.f,
                false,
                false,
                (data & 0xFFF) + (hl & 0xFFF) > 0xFFF,
                sum > 0xFFFF,
            );
        }
        self.tick(1);
        proof {
            assert(self@ =~= spec_add_hl(old(self)@, reg));
        }
    }

    fn add_sp(&mut self)
        requires
            bus_wf(old(self)@.bus),
        ensures
            final(self)@ == spec_add_sp(old(self)@),
            bus_wf(final(self)@.bus),
            final(self)@.regs.f & 0x0F == old(self)@.regs.f & 0x0F,
    {
        let n = self.read_next_8bit();
        let offset = self.sign_extend_offset(n);
        let sp = self.regs.sp;
        let result = sp.wrapping_add(offset);
        self.regs.sp = result;
        proof {
            crate::helper::lemma_nibble_bounds(sp, n);
            assert((n & 0xF) <= 0xF) by (bit_vector);
            crate::helper::lemma_u16_bytes(sp);
        }
        self.regs.set_flag_zero(false);
        self.regs.set_flag_subtract(false);
        self.regs.set_flag_half_carry((sp & 0xF) + ((n & 0xF) as u16) > 0xF);
        self.regs.set_flag_carry((sp & 0xFF) + (n as u16) > 0xFF);
        proof {
            lemma_spec_flags(
                old(self)@.regs.f,
                false,
                false,
                (sp & 0xF) + ((n & 0xF) as u16) > 0xF,
                (sp & 0xFF) + (n as u16) > 0xFF,
            );
        }
        self.tick(2);
        proof {
            assert(self@ =~= spec_add_sp(old(self)@));
        }
    }

    fn inc16(&mut self, reg: Reg16)
        requires
            bus_wf(old(self)@.bus),
            !(reg matches Reg16::HlIncr),
            !(reg matches Reg16::HlDecr),
        ensures
            final(self)@ == spec_inc16(old(self)@, reg),
            bus_wf(final(self)@.bus),
            old(self)@.regs.f & 0x0F == 0 ==> final(self)@.regs.f & 0x0F == 0,
    {
        let data = self.get_reg16(&reg);
        let sum = data.wrapping_add(1);
        self.set_reg16(&reg, sum);
        proof {
            crate::registers::lemma_af_low_nibble(sum);
        }
        self.tick(1);
        proof {
            assert(self@ =~= spec_inc16(old(self)@, reg));
        }
    }

    fn dec16(&mut self, reg: Reg16)
        requires
            bus_wf(old(self)@.bus),
            !(reg matches Reg16::HlIncr),
            !(reg matches Reg16::HlDecr),
        ensures
            final(self)@ == spec_dec16(old(self)@, reg),
            bus_wf(final(self)@.bus),
            old(self)@.regs.f & 0x0F == 0 ==> final(self)@.regs.f & 0x0F == 0,
    {
        let data = self.get_reg16(&reg);
        let result = data.wrapping_sub(1);
        self.set_reg16(&reg, result);
        proof {
            crate::registers::lemma_af_low_nibble(result);
        }
        self.tick(1);
        proof {
            assert(self@ =~= spec_dec16(old(self)@, reg));
        }
    }

    fn rotate(&mut self, direction: Rotation, operand: Operand, set_zero: bool)
        requires
            bus_wf(old(self)@.bus),
            is_operand8_dest(operand),
        ensures
            final(self)@ == spec_rotate(old(self)@, direction, operand, set_zero),
            bus_wf(final(self)@.bus),
            final(self)@.regs.f & 0x0F == old(self)@.regs.f & 0x0F,
    {
        let data = self.get_8bit_operand(&operand);
        let (result, carry) = match direction {
            Rotation::LeftThroughCarry => {
                let carry = data & 0x80 != 0;
                let rotated = if self.regs.carry_flag() {
                    (data << 1) | 1
                } else {
                    data << 1
                };
                (rotated, carry)
            },
            Rotation::LeftCircular => ((data << 1) | (data >> 7), data & 0x80 != 0),
            Rotation::RightThroughCarry => {
                let carry = data & 1 != 0;
                let rotated = if self.regs.carry_flag() {
                    (data >> 1) | 0x80
                } else {
                    data >> 1
                };
                (rotated, carry)
            },
            Rotation::RightCircular => ((data >> 1) | (data << 7), data & 1 != 0),
        };
        self.regs.set_flag_zero(set_zero && result == 0);
        self.regs.set_flag_subtract(false);
        self.regs.set_flag_half_carry(false);
        self.regs.set_flag_carry(carry);
        proof {
            lemma_spec_flags(old(self)@.regs.f, set_zero && result == 0, false, false, carry);
        }
        self.set_8bit_operand(&operand, result);
        proof {
            assert(self@ =~= spec_rotate(old(self)@, direction, operand, set_zero));
        }
    }

    fn shift(&mut self, shift: ShiftType, operand: Operand)
        requires
            bus_wf(old(self)@.bus),
            is_operand8_dest(operand),
        ensures
            final(self)@ == spec_shift(old(self)@, shift, operand),
            bus_wf(final(self)@.bus),
            final(self)@.regs.f & 0x0F == old(self)@.regs.f & 0x0F,
    {
        let data = self.get_8bit_operand(&operand);
        let (result, carry) = match shift {
            ShiftType::LeftArithmetic => (data << 1, data & 0x80 != 0),
            ShiftType::RightArithmetic => ((data >> 1) | (data & 0x80), data & 1 != 0),
            ShiftType::RightLogic => (data >> 1, data & 1 != 0),
        };
        self.regs.set_flag_zero(result == 0);
        self.regs.set_flag_subtract(false);
        self.regs.set_flag_half_carry(false);
        self.regs.set_flag_carry(carry);
        proof {
            lemma_spec_flags(old(self)@.regs.f, result == 0, false, false, carry);
        }
        self.set_8bit_operand(&operand, result);
        proof {
            assert(self@ =~= spec_shift(old(self)@, shift, operand));
        }
    }

    fn swap(&mut self, operand: Operand)
        requires
            bus_wf(old(self)@.bus),
            is_operand8_dest(operand),
        ensures
            final(self)@ == spec_swap(old(self)@, operand),
            bus_wf(final(self)@.bus),
            final(self)@.regs.f & 0x0F == old(self)@.regs.f & 0x0F,
    {
        let data = self.get_8bit_operand(&operand);
        let result = (data >> 4) | (data << 4);
        self.regs.set_flag_zero(result == 0);
        self.regs.set_flag_subtract(false);
        self.regs.set_flag_half_carry(false);
        self.regs.set_flag_carry(false);
        proof {
            lemma_spec_flags(old(self)@.regs.f, result == 0, false, false, false);
        }
        self.set_8bit_operand(&operand, result);
        proof {
            assert(self@ =~= spec_swap(old(self)@, operand));
        }
    }

    fn test_bit(&mut self, index: u8, operand: Operand)
        requires
            bus_wf(old(self)@.bus),
            is_operand8(operand),
            index < 8,
        ensures
            final(self)@ == spec_test_bit(old(self)@, index, operand),
            bus_wf(final(self)@.bus),
            final(self)@.regs.f & 0x0F == old(self)@.regs.f & 0x0F,
    {
        let data = self.get_8bit_operand(&operand);
        let result = data & (1 << index);
        self.regs.set_flag_zero(result == 0);
        self.regs.set_flag_subtract(false);
        self.regs.set_flag_half_carry(true);
        proof {
            lemma_flag_chains(old(self)@.regs.f, result == 0, false, true, false);
            assert(self@ =~= spec_test_bit(old(self)@, index, operand));
        }
    }

    fn reset_bit(&mut self, index: u8, operand: Operand)
        requires
            bus_wf(old(self)@.bus),
            is_operand8_dest(operand),
            index < 8,
        ensures
            final(self)@ == spec_reset_bit(old(self)@, index, operand),
            bus_wf(final(self)@.bus),
            final(self)@.regs.f == old(self)@.regs.f,
    {
        let data = self.get_8bit_operand(&operand);
        let result = data & !(1 << index);
        self.set_8bit_operand(&operand, result);
        proof {
            assert(self@ =~= spec_reset_bit(old(self)@, index, operand));
        }
    }

    fn set_bit(&mut self, index: u8, operand: Operand)
        requires
            bus_wf(old(self)@.bus),
            is_operand8_dest(operand),
            index < 8,
        ensures
            final(self)@ == spec_set_bit(old(self)@, index, operand),
            bus_wf(final(self)@.bus),
            final(self)@.regs.f == old(self)@.regs.f,
    {
        let data = self.get_8bit_operand(&operand);
        let result = data | (1 << index);
        self.set_8bit_operand(&operand, result);
        proof {
            assert(self@ =~= spec_set_bit(old(self)@, index, operand));
        }
    }

    #[verifier::rlimit(100)]
    #[verifier::spinoff_prover]
    fn decimal_adjust_a(&mut self)
        ensures
            final(self)@ == spec_daa(old(self)@),
            final(self)@.regs.f & 0x0F == old(self)@.regs.f & 0x0F,
    {
        if self.regs.subtraction_flag() {
            if self.regs.carry_flag() {
                self.regs.a = self.regs.a.wrapping_sub(0x60);
            }
            if self.regs.half_carry_flag() {
                self.regs.a = self.regs.a.wrapping_sub(0x6);
            }
        } else {
            if self.regs.carry_flag() || self.regs.a > 0x99 {
                self.regs.a = self.regs.a.wrapping_add(0x60);
                self.regs.set_flag_carry(true);
            }
            if self.regs.half_carry_flag() || (self.regs.a & 0x0F) > 0x09 {
                self.regs.a = self.regs.a.wrapping_add(0x6);
            }
        }
        let z = self.regs.a == 0;
        self.regs.set_flag_zero(z);
        self.regs.set_flag_half_carry(false);
        proof {
            lemma_flag_chains(old(self)@.regs.f, z, false, false, true);
            lemma_flag_chains(f_with_flag(old(self)@.regs.f, 0x10, true), z, false, false, true);
            assert(self@ =~= spec_daa(old(self)@));
        }
    }

    fn complement_a(&mut self)
        ensures
            final(self)@ == spec_complement_a(old(self)@),
            final(self)@.regs.f & 0x0F == old(self)@.regs.f & 0x0F,
    {
        self.regs.a = !self.regs.a;
        self.regs.set_flag_subtract(true);
        self.regs.set_flag_half_carry(true);
        proof {
            lemma_flag_chains(old(self)@.regs.f, false, true, true, false);
            assert(self@ =~= spec_complement_a(old(self)@));
        }
    }

    fn set_flag_carry(&mut self)
        ensures
            final(self)@ == spec_scf(old(self)@),
            final(self)@.regs.f & 0x0F == old(self)@.regs.f & 0x0F,
    {
        self.regs.set_flag_subtract(false);
        self.regs.set_flag_half_carry(false);
        self.regs.set_flag_carry(true);
        proof {
            lemma_flag_chains(old(self)@.regs.f, false, false, false, true);
            assert(self@ =~= spec_scf(old(self)@));
        }
    }

    fn complement_carry_flag(&mut self)
        ensures
            final(self)@ == spec_ccf(old(self)@),
            final(self)@.regs.f & 0x0F == old(self)@.regs.f & 0x0F,
    {
        self.regs.set_flag_subtract(false);
        self.regs.set_flag_half_carry(false);
        let not_carry = !self.regs.carry_flag();
        self.regs.set_flag_carry(not_carry);
        proof {
            lemma_flag_chains(old(self)@.regs.f, false, false, false, not_carry);
            lemma_flag_chains(
                crate::registers::spec_flags_nh(old(self)@.regs.f, false, false),
                false,
                false,
                false,
                not_carry,
            );
            assert(self@ =~= spec_ccf(old(self)@));
        }
    }

    /// Enters the halted state; the next steps tick idle machine cycles
    /// until an interrupt is pending.
    fn halt(&mut self)
        ensures
            final(self)@ == (CpuView { is_halted: true, ..old(self)@ }),
    {
        self.is_halted = true;
        proof {
            assert(self@ =~= (CpuView { is_halted: true, ..old(self)@ }));
        }
    }

    /// `STOP` is not needed by the software this core targets; it is left as
    /// a no-op rather than a trap, since the verified core never panics.
    fn stop(&self)
    {
    }

    fn disable_int(&mut self)
        ensures
            final(self)@ == spec_set_ime(old(self)@, false),
    {
        self.bus.int.master_enabled = false;
        proof {
            assert(self@ =~= spec_set_ime(old(self)@, false));
        }
    }

    fn enable_int(&mut self)
        ensures
            final(self)@ == spec_set_ime(old(self)@, true),
    {
        self.bus.int.master_enabled = true;
        proof {
            assert(self@ =~= spec_set_ime(old(self)@, true));
        }
    }
}



/// The operand shapes the decoder can produce for each instruction: what the
/// execution engine is defined on.
pub open spec fn inst_wf(i: Inst) -> bool {
    match i {
        Inst::Ld8(d, so) => ld8_wf(d, so),
        Inst::Ld16(d, so) => ld16_wf(d, so),
        Inst::Push(r) => !(r matches Reg16::HlIncr) && !(r matches Reg16::HlDecr),
        Inst::Pop(r) => !(r matches Reg16::HlIncr) && !(r matches Reg16::HlDecr),
        Inst::Inc16(r) => !(r matches Reg16::HlIncr) && !(r matches Reg16::HlDecr),
        Inst::Dec16(r) => !(r matches Reg16::HlIncr) && !(r matches Reg16::HlDecr),
        Inst::Add(o) => is_operand8(o),
        Inst::Adc(o) => is_operand8(o),
        Inst::Sub(o) => is_operand8(o),
        Inst::Sbc(o) => is_operand8(o),
        Inst::And(o) => is_operand8(o),
        Inst::Xor(o) => is_operand8(o),
        Inst::Or(o) => is_operand8(o),
        Inst::Cp(o) => is_operand8(o),
        Inst::Inc8(o) => is_operand8_dest(o),
        Inst::Dec8(o) => is_operand8_dest(o),
        Inst::Rotate(_, o, _) => is_operand8_dest(o),
        Inst::Shift(_, o) => is_operand8_dest(o),
        Inst::Swap(o) => is_operand8_dest(o),
        Inst::TestBit(n, o) => n < 8 && is_operand8(o),
        Inst::ResetBit(n, o) => n < 8 && is_operand8_dest(o),
        Inst::SetBit(n, o) => n < 8 && is_operand8_dest(o),
        _ => true,
    }
}

/// Both decoder tables only produce instructions the execution engine is
/// defined on, and only the unprefixed table produces the prefix sentinel.
pub proof fn lemma_decode_wf(op: u8)
    ensures
        inst_wf(crate::decode::spec_decode_unprefixed(op)),
        inst_wf(crate::decode::spec_decode_prefixed(op)),
        !(crate::decode::spec_decode_prefixed(op) matches Inst::Prefix),
{
    let x = op >> 6;
    let y = (op & 0x38) >> 3;
    let z = op & 0x07;
    let p = y >> 1;
    let q = y & 1;
    assert(x < 4 && y < 8 && z < 8 && p < 4 && q < 2) by (bit_vector)
        requires
            x == op >> 6 && y == (op & 0x38) >> 3 && z == (op & 0x07) && p == y >> 1 && q == y
                & 1,
    ;
}

/// One instruction executed against the state after its fetch.
pub open spec fn spec_execute(c: CpuView, inst: Inst) -> CpuView {
    match inst {
        Inst::Prefix => c,
        Inst::NoOp => c,
        Inst::Halt => CpuView { is_halted: true, ..c },
        Inst::Stop => c,
        Inst::Di => spec_set_ime(c, false),
        Inst::Ei => spec_set_ime(c, true),
        Inst::Ld8(dest, source) => spec_load8(c, dest, source),
        Inst::Ld16(dest, source) => spec_load16(c, dest, source),
        Inst::LdHlSp => spec_ld_hl_sp(c),
        Inst::Push(reg) => spec_push_stack(c, reg),
        Inst::Pop(reg) => spec_pop_stack(c, reg),
        Inst::JumpAddr(cond) => spec_jump_address(c, cond),
        Inst::JumpHl => spec_jump_hl(c),
        Inst::JumpRelative(cond) => spec_jump_relative(c, cond),
        Inst::Call(cond) => spec_call(c, cond),
        Inst::Ret(cond) => spec_ret(c, cond),
        Inst::Reti => spec_reti(c),
        Inst::Rst(offset) => spec_push_and_set_pc(c, offset as u16),
        Inst::Add(o) => spec_add_a(c, o, false),
        Inst::AddHl(reg) => spec_add_hl(c, reg),
        Inst::AddSp => spec_add_sp(c),
        Inst::Adc(o) => spec_add_a(c, o, true),
        Inst::Sub(o) => spec_sub_a(c, o, false, true),
        Inst::Sbc(o) => spec_sub_a(c, o, true, true),
        Inst::And(o) => spec_and(c, o),
        Inst::Xor(o) => spec_xor(c, o),
        Inst::Or(o) => spec_or(c, o),
        Inst::Cp(o) => spec_sub_a(c, o, false, false),
        Inst::Inc8(o) => spec_inc8(c, o),
        Inst::Inc16(reg) => spec_inc16(c, reg),
        Inst::Dec8(o) => spec_dec8(c, o),
        Inst::Dec16(reg) => spec_dec16(c, reg),
        Inst::Rotate(rot, o, set_zero) => spec_rotate(c, rot, o, set_zero),
        Inst::Shift(st, o) => spec_shift(c, st, o),
        Inst::Swap(o) => spec_swap(c, o),
        Inst::TestBit(n, o) => spec_test_bit(c, n, o),
        Inst::ResetBit(n, o) => spec_reset_bit(c, n, o),
        Inst::SetBit(n, o) => spec_set_bit(c, n, o),
        Inst::DecimalAdjustA => spec_daa(c),
        Inst::ComplementA => spec_complement_a(c),
        Inst::SetCarryFlag => spec_scf(c),
        Inst::ComplementCarryFlag => spec_ccf(c),
    }
}

/// The fetch: one opcode byte, and a second one after the 0xCB prefix,
/// decoded to the instruction to run.
pub open spec fn spec_fetch(c: CpuView) -> (Inst, CpuView) {
    let (op, c1) = spec_read_next8(c);
    let i = crate::decode::spec_decode_unprefixed(op);
    match i {
        Inst::Prefix => {
            let (op2, c2) = spec_read_next8(c1);
            (crate::decode::spec_decode_prefixed(op2), c2)
        },
        _ => (i, c1),
    }
}

/// One full CPU step: a halted CPU idles one machine cycle, a running one
/// fetches and executes one instruction; the retired-instruction counter
/// steps; then any pending interrupt wakes a halted CPU, and with `IME` set
/// the highest-priority pending source is dispatched: its request bit and
/// `IME` clear, PC is pushed and takes the handler address, and two more
/// machine cycles pass.
pub open spec fn spec_step(c: CpuView) -> CpuView {
    let c1 = if c.is_halted {
        spec_tick(c, 1)
    } else {
        let (i, ca) = spec_fetch(c);
        spec_execute(ca, i)
    };
    let c2 = CpuView { counter: w64(c1.counter + 1), ..c1 };
    if crate::interrupts::spec_pending(c2.bus.int) != 0 {
        let c3 = CpuView { is_halted: false, ..c2 };
        let disp = crate::interrupts::spec_dispatch(c3.bus.int);
        match disp.1 {
            Some(interrupt) => {
                let c4 = CpuView { bus: BusView { int: disp.0, ..c3.bus }, ..c3 };
                let c5 = spec_push_and_set_pc(c4, interrupt.spec_address());
                let c6 = spec_tick(c5, 2);
                CpuView {
                    bus: BusView {
                        int: crate::interrupts::InterruptHandler {
                            master_enabled: false,
                            ..c6.bus.int
                        },
                        ..c6.bus
                    },
                    ..c6
                }
            },
            None => c3,
        }
    } else {
        c2
    }
}

impl Cpu {
    /// Fetches and decodes the instruction at PC, reading a second byte when
    /// the first is the 0xCB prefix.
    fn fetch(&mut self) -> (r: Inst)
        requires
            bus_wf(old(self)@.bus),
        ensures
            r == spec_fetch(old(self)@).0,
            final(self)@ == spec_fetch(old(self)@).1,
            bus_wf(final(self)@.bus),
            final(self)@.regs.f == old(self)@.regs.f,
            inst_wf(r),
            !(r matches Inst::Prefix),
    {
        let fetched = self.read_next_8bit();
        let inst = crate::decode::decode_unprefixed(fetched);
        proof {
            lemma_decode_wf(fetched);
        }
        if inst == Inst::Prefix {
            let fetched2 = self.read_next_8bit();
            proof {
                lemma_decode_wf(fetched2);
            }
            crate::decode::decode_prefixed(fetched2)
        } else {
            inst
        }
    }

    /// The control and load rows of the dispatch: no-ops, IME moves, halt, and every 8- and 16-bit load and stack operation.
    #[verifier::rlimit(100)]
    fn execute_control_load(&mut self, inst: Inst)
        requires
            bus_wf(old(self)@.bus),
            inst_wf(inst),
            inst matches Inst::NoOp || inst matches Inst::Halt || inst matches Inst::Stop || inst matches Inst::Di || inst matches Inst::Ei || inst matches Inst::Ld8(..) || inst matches Inst::Ld16(..) || inst matches Inst::LdHlSp || inst matches Inst::Push(..) || inst matches Inst::Pop(..),
        ensures
            final(self)@ == spec_execute(old(self)@, inst),
            bus_wf(final(self)@.bus),
            old(self)@.regs.f & 0x0F == 0 ==> final(self)@.regs.f & 0x0F == 0,
    {
        match inst {
            Inst::NoOp => {
                proof {
                    assert(spec_execute(old(self)@, inst) == old(self)@);
                }
            },
            Inst::Halt => {
                self.halt();
                proof {
                    assert(spec_execute(old(self)@, inst) == (CpuView { is_halted: true, ..old(self)@ }));
                }
            },
            Inst::Stop => {
                self.stop();
                proof {
                    assert(spec_execute(old(self)@, inst) == old(self)@);
                }
            },
            Inst::Di => {
                self.disable_int();
                proof {
                    assert(spec_execute(old(self)@, inst) == spec_set_ime(old(self)@, false));
                }
            },
            Inst::Ei => {
                self.enable_int();
                proof {
                    assert(spec_execute(old(self)@, inst) == spec_set_ime(old(self)@, true));
                }
            },
            Inst::Ld8(dest, source) => {
                self.load8(dest, source);
                proof {
                    assert(spec_execute(old(self)@, inst) == spec_load8(old(self)@, dest, source));
                }
            },
            Inst::Ld16(dest, source) => {
                self.load16(dest, source);
                proof {
                    assert(spec_execute(old(self)@, inst) == spec_load16(old(self)@, dest, source));
                }
            },
            Inst::LdHlSp => {
                self.ld_hl_sp_plus_offset();
                proof {
                    assert(spec_execute(old(self)@, inst) == spec_ld_hl_sp(old(self)@));
                }
            },
            Inst::Push(reg) => {
                self.push_stack(reg);
                proof {
                    assert(spec_execute(old(self)@, inst) == spec_push_stack(old(self)@, reg));
                }
            },
            Inst::Pop(reg) => {
                self.pop_stack(reg);
                proof {
                    assert(spec_execute(old(self)@, inst) == spec_pop_stack(old(self)@, reg));
                }
            },
            _ => unreached(),
        }
    }

    /// The control-flow rows of the dispatch: jumps, calls and returns.
    #[verifier::rlimit(100)]
    fn execute_flow(&mut self, inst: Inst)
        requires
            bus_wf(old(self)@.bus),
            inst_wf(inst),
            inst matches Inst::JumpAddr(..) || inst matches Inst::JumpHl || inst matches Inst::JumpRelative(..) || inst matches Inst::Call(..) || inst matches Inst::Ret(..) || inst matches Inst::Reti || inst matches Inst::Rst(..),
        ensures
            final(self)@ == spec_execute(old(self)@, inst),
            bus_wf(final(self)@.bus),
            old(self)@.regs.f & 0x0F == 0 ==> final(self)@.regs.f & 0x0F == 0,
    {
        match inst {
            Inst::JumpAddr(cond) => {
                self.jump_address(cond);
                proof {
                    assert(spec_execute(old(self)@, inst) == spec_jump_address(old(self)@, cond));
                }
            },
            Inst::JumpHl => {
                self.jump_hl();
                proof {
                    assert(spec_execute(old(self)@, inst) == spec_jump_hl(old(self)@));
                }
            },
            Inst::JumpRelative(cond) => {
                self.jump_relative(cond);
                proof {
                    assert(spec_execute(old(self)@, inst) == spec_jump_relative(old(self)@, cond));
                }
            },
            Inst::Call(cond) => {
                self.call(cond);
                proof {
                    assert(spec_execute(old(self)@, inst) == spec_call(old(self)@, cond));
                }
            },
            Inst::Ret(cond) => {
                self.ret(cond);
                proof {
                    assert(spec_execute(old(self)@, inst) == spec_ret(old(self)@, cond));
                }
            },
            Inst::Reti => {
                self.reti();
                proof {
                    assert(spec_execute(old(self)@, inst) == spec_reti(old(self)@));
                }
            },
            Inst::Rst(offset) => {
                self.rst(offset);
                proof {
                    assert(spec_execute(old(self)@, inst) == spec_push_and_set_pc(old(self)@, offset as u16));
                }
            },
            _ => unreached(),
        }
    }

    /// The arithmetic rows of the dispatch: the accumulator group and the 16-bit adds, increments and decrements.
    #[verifier::rlimit(100)]
    fn execute_arithmetic(&mut self, inst: Inst)
        requires
            bus_wf(old(self)@.bus),
            inst_wf(inst),
            inst matches Inst::Add(..) || inst matches Inst::AddHl(..) || inst matches Inst::AddSp || inst matches Inst::Adc(..) || inst matches Inst::Sub(..) || inst matches Inst::Sbc(..) || inst matches Inst::And(..) || inst matches Inst::Xor(..) || inst matches Inst::Or(..) || inst matches Inst::Cp(..) || inst matches Inst::Inc8(..) || inst matches Inst::Inc16(..) || inst matches Inst::Dec8(..) || inst matches Inst::Dec16(..),
        ensures
            final(self)@ == spec_execute(old(self)@, inst),
            bus_wf(final(self)@.bus),
            old(self)@.regs.f & 0x0F == 0 ==> final(self)@.regs.f & 0x0F == 0,
    {
        match inst {
            Inst::Add(operand) => {
                self.add_a(operand, false);
                proof {
                    assert(spec_execute(old(self)@, inst) == spec_add_a(old(self)@, operand, false));
                }
            },
            Inst::AddHl(reg) => {
                self.add_hl(reg);
                proof {
                    assert(spec_execute(old(self)@, inst) == spec_add_hl(old(self)@, reg));
                }
            },
            Inst::AddSp => {
                self.add_sp();
                proof {
                    assert(spec_execute(old(self)@, inst) == spec_add_sp(old(self)@));
                }
            },
            Inst::Adc(operand) => {
                self.add_a(operand, true);
                proof {
                    assert(spec_execute(old(self)@, inst) == spec_add_a(old(self)@, operand, true));
                }
            },
            Inst::Sub(operand) => {
                self.sub_a(operand, false, true);
                proof {
                    assert(spec_execute(old(self)@, inst) == spec_sub_a(old(self)@, operand, false, true));
                }
            },
            Inst::Sbc(operand) => {
                self.sub_a(operand, true, true);
                proof {
                    assert(spec_execute(old(self)@, inst) == spec_sub_a(old(self)@, operand, true, true));
                }
            },
            Inst::And(operand) => {
                self.and(operand);
                proof {
                    assert(spec_execute(old(self)@, inst) == spec_and(old(self)@, operand));
                }
            },
            Inst::Xor(operand) => {
                self.xor(operand);
                proof {
                    assert(spec_execute(old(self)@, inst) == spec_xor(old(self)@, operand));
                }
            },
            Inst::Or(operand) => {
                self.or(operand);
                proof {
                    assert(spec_execute(old(self)@, inst) == spec_or(old(self)@, operand));
                }
            },
            Inst::Cp(operand) => {
                self.sub_a(operand, false, false);
                proof {
                    assert(spec_execute(old(self)@, inst) == spec_sub_a(old(self)@, operand, false, false));
                }
            },
            Inst::Inc8(operand) => {
                self.inc8(operand);
                proof {
                    assert(spec_execute(old(self)@, inst) == spec_inc8(old(self)@, operand));
                }
            },
            Inst::Inc16(reg) => {
                self.inc16(reg);
                proof {
                    assert(spec_execute(old(self)@, inst) == spec_inc16(old(self)@, reg));
                }
            },
            Inst::Dec8(operand) => {
                self.dec8(operand);
                proof {
                    assert(spec_execute(old(self)@, inst) == spec_dec8(old(self)@, operand));
                }
            },
            Inst::Dec16(reg) => {
                self.dec16(reg);
                proof {
                    assert(spec_execute(old(self)@, inst) == spec_dec16(old(self)@, reg));
                }
            },
            _ => unreached(),
        }
    }

    /// The rotate, shift, bit and accumulator-adjust rows of the dispatch.
    #[verifier::rlimit(100)]
    fn execute_bits(&mut self, inst: Inst)
        requires
            bus_wf(old(self)@.bus),
            inst_wf(inst),
            inst matches Inst::Rotate(..) || inst matches Inst::Shift(..) || inst matches Inst::Swap(..) || inst matches Inst::TestBit(..) || inst matches Inst::ResetBit(..) || inst matches Inst::SetBit(..) || inst matches Inst::DecimalAdjustA || inst matches Inst::ComplementA || inst matches Inst::SetCarryFlag || inst matches Inst::ComplementCarryFlag,
        ensures
            final(self)@ == spec_execute(old(self)@, inst),
            bus_wf(final(self)@.bus),
            old(self)@.regs.f & 0x0F == 0 ==> final(self)@.regs.f & 0x0F == 0,
    {
        match inst {
            Inst::Rotate(rot, operand, set_zero) => {
                self.rotate(rot, operand, set_zero);
                proof {
                    assert(spec_execute(old(self)@, inst) == spec_rotate(old(self)@, rot, operand, set_zero));
                }
            },
            Inst::Shift(st, operand) => {
                self.shift(st, operand);
                proof {
                    assert(spec_execute(old(self)@, inst) == spec_shift(old(self)@, st, operand));
                }
            },
            Inst::Swap(operand) => {
                self.swap(operand);
                proof {
                    assert(spec_execute(old(self)@, inst) == spec_swap(old(self)@, operand));
                }
            },
            Inst::TestBit(index, operand) => {
                self.test_bit(index, operand);
                proof {
                    assert(spec_execute(old(self)@, inst) == spec_test_bit(old(self)@, index, operand));
                }
            },
            Inst::ResetBit(index, operand) => {
                self.reset_bit(index, operand);
                proof {
                    assert(spec_execute(old(self)@, inst) == spec_reset_bit(old(self)@, index, operand));
                }
            },
            Inst::SetBit(index, operand) => {
                self.set_bit(index, operand);
                proof {
                    assert(spec_execute(old(self)@, inst) == spec_set_bit(old(self)@, index, operand));
                }
            },
            Inst::DecimalAdjustA => {
                self.decimal_adjust_a();
                proof {
                    assert(spec_execute(old(self)@, inst) == spec_daa(old(self)@));
                }
            },
            Inst::ComplementA => {
                self.complement_a();
                proof {
                    assert(spec_execute(old(self)@, inst) == spec_complement_a(old(self)@));
                }
            },
            Inst::SetCarryFlag => {
                self.set_flag_carry();
                proof {
                    assert(spec_execute(old(self)@, inst) == spec_scf(old(self)@));
                }
            },
            Inst::ComplementCarryFlag => {
                self.complement_carry_flag();
                proof {
                    assert(spec_execute(old(self)@, inst) == spec_ccf(old(self)@));
                }
            },
            _ => unreached(),
        }
    }

    /// Runs one decoded instruction: the dispatch from the tagged variant to
    /// its handler.
    pub fn execute(&mut self, inst: Inst)
        requires
            bus_wf(old(self)@.bus),
            inst_wf(inst),
            !(inst matches Inst::Prefix),
        ensures
            final(self)@ == spec_execute(old(self)@, inst),
            bus_wf(final(self)@.bus),
            old(self)@.regs.f & 0x0F == 0 ==> final(self)@.regs.f & 0x0F == 0,
    {
        match inst {
            Inst::Prefix => unreached(),
            Inst::NoOp | Inst::Halt | Inst::Stop | Inst::Di | Inst::Ei | Inst::Ld8(..)
                | Inst::Ld16(..) | Inst::LdHlSp | Inst::Push(..) | Inst::Pop(..) => {
                self.execute_control_load(inst)
            },
            Inst::JumpAddr(..) | Inst::JumpHl | Inst::JumpRelative(..) | Inst::Call(..)
                | Inst::Ret(..) | Inst::Reti | Inst::Rst(..) => self.execute_flow(inst),
            Inst::Add(..) | Inst::AddHl(..) | Inst::AddSp | Inst::Adc(..) | Inst::Sub(..)
                | Inst::Sbc(..) | Inst::And(..) | Inst::Xor(..) | Inst::Or(..) | Inst::Cp(..)
                | Inst::Inc8(..) | Inst::Inc16(..) | Inst::Dec8(..) | Inst::Dec16(..) => {
                self.execute_arithmetic(inst)
            },
            Inst::Rotate(..) | Inst::Shift(..) | Inst::Swap(..) | Inst::TestBit(..)
                | Inst::ResetBit(..) | Inst::SetBit(..) | Inst::DecimalAdjustA
                | Inst::ComplementA | Inst::SetCarryFlag | Inst::ComplementCarryFlag => {
                self.execute_bits(inst)
            },
        }
    }

    /// One step of the machine: one instruction (or one halted machine
    /// cycle), then the post-instruction interrupt check and dispatch.
    #[verifier::rlimit(100)]
    pub fn fetch_and_execute(&mut self)
        requires
            cpu_wf(old(self)@),
        ensures
            final(self)@ == spec_step(old(self)@),
            cpu_wf(final(self)@),
    {
        if self.is_halted {
            self.tick(1);
        } else {
            let inst = self.fetch();
            self.execute(inst);
        }
        self.counter = self.counter.wrapping_add(1);
        let ghost c2 = self@;
        if self.bus.int.is_interrupt_pending() {
            self.is_halted = false;
            proof {
                assert(self@ =~= (CpuView { is_halted: false, ..c2 }));
            }
            let ghost c3 = self@;
            let maybe_interrupt = self.bus.int.handle_interrupts();
            proof {
                assert(self@ =~= (CpuView {
                    bus: BusView { int: crate::interrupts::spec_dispatch(c3.bus.int).0, ..c3.bus },
                    ..c3
                }));
            }
            if let Some(interrupt) = maybe_interrupt {
                let jump_address = interrupt.address();
                self.push_and_set_pc(jump_address);
                self.tick(2);
                let ghost c6 = self@;
                self.bus.int.master_enabled = false;
                proof {
                    assert(self@ =~= (CpuView {
                        bus: BusView {
                            int: crate::interrupts::InterruptHandler {
                                master_enabled: false,
                                ..c6.bus.int
                            },
                            ..c6.bus
                        },
                        ..c6
                    }));
                }
            }
        }
        proof {
            assert(final(self)@ =~= spec_step(old(self)@));
        }
    }
}


/// One uppercase hexadecimal digit, as its ASCII byte.
pub open spec fn spec_hex_digit(n: u8) -> u8 {
    if n < 10 {
        (0x30 + n) as u8
    } else {
        (0x37 + n) as u8
    }
}

/// A byte as two uppercase hexadecimal ASCII digits.
pub open spec fn spec_hex8(x: u8) -> Seq<u8> {
    seq![spec_hex_digit(x >> 4), spec_hex_digit(x & 0xF)]
}

/// A 16-bit value as four uppercase hexadecimal ASCII digits.
pub open spec fn spec_hex16(x: u16) -> Seq<u8> {
    spec_hex8((x >> 8) as u8) + spec_hex8((x & 0xFF) as u8)
}

/// The register snapshot in the Gameboy Doctor trace format, as ASCII bytes:
/// every 8-bit register as two uppercase hex digits, `SP` and `PC` as four,
/// and the four bytes visible at PC, with no trailing whitespace. The label
/// bytes are spelled as ASCII codes: "A:", " F:", and so on through
/// " PCMEM:", with commas between the probe bytes.
pub open spec fn spec_doctor_line(c: CpuView) -> Seq<u8> {
    spec_doctor_regs(c) + seq![0x20u8, 0x53u8, 0x50u8, 0x3Au8] + spec_hex16(c.regs.sp) + seq![
        0x20u8,
        0x50u8,
        0x43u8,
        0x3Au8,
    ] + spec_hex16(c.regs.pc) + seq![0x20u8, 0x50u8, 0x43u8, 0x4Du8, 0x45u8, 0x4Du8, 0x3Au8]
        + spec_hex8(spec_bus_read(c.bus, c.regs.pc)) + seq![0x2Cu8] + spec_hex8(
        spec_bus_read(c.bus, w16(c.regs.pc + 1)),
    ) + seq![0x2Cu8] + spec_hex8(spec_bus_read(c.bus, w16(c.regs.pc + 2))) + seq![0x2Cu8]
        + spec_hex8(spec_bus_read(c.bus, w16(c.regs.pc + 3)))
}

/// One uppercase hexadecimal digit.
fn hex_digit(n: u8) -> (r: u8)
    requires
        n < 16,
    ensures
        r == spec_hex_digit(n),
{
    if n < 10 {
        0x30 + n
    } else {
        0x37 + n
    }
}

/// Appends a byte as two uppercase hexadecimal digits.
fn push_hex8(out: &mut Vec<u8>, x: u8)
    ensures
        final(out)@ == old(out)@ + spec_hex8(x),
{
    proof {
        assert(x >> 4 < 16 && x & 0xF < 16) by (bit_vector);
    }
    out.push(hex_digit(x >> 4));
    out.push(hex_digit(x & 0xF));
    proof {
        assert(out@ =~= old(out)@ + spec_hex8(x));
    }
}

/// Appends a 16-bit value as four uppercase hexadecimal digits.
fn push_hex16(out: &mut Vec<u8>, x: u16)
    ensures
        final(out)@ == old(out)@ + spec_hex16(x),
{
    proof {
        crate::helper::lemma_u16_bytes(x);
    }
    push_hex8(out, (x >> 8) as u8);
    push_hex8(out, (x & 0xFF) as u8);
    proof {
        assert(out@ =~= old(out)@ + spec_hex16(x));
    }
}

/// The register half of the doctor line: the eight 8-bit registers with
/// their labels.
pub open spec fn spec_doctor_regs(c: CpuView) -> Seq<u8> {
    seq![0x41u8, 0x3Au8] + spec_hex8(c.regs.a) + seq![0x20u8, 0x46u8, 0x3Au8] + spec_hex8(
        c.regs.f,
    ) + seq![0x20u8, 0x42u8, 0x3Au8] + spec_hex8(c.regs.b) + seq![0x20u8, 0x43u8, 0x3Au8]
        + spec_hex8(c.regs.c) + seq![0x20u8, 0x44u8, 0x3Au8] + spec_hex8(c.regs.d) + seq![
        0x20u8,
        0x45u8,
        0x3Au8,
    ] + spec_hex8(c.regs.e) + seq![0x20u8, 0x48u8, 0x3Au8] + spec_hex8(c.regs.h) + seq![
        0x20u8,
        0x4Cu8,
        0x3Au8,
    ] + spec_hex8(c.regs.l)
}

impl Cpu {
    /// Builds the register half of the doctor line.
    #[verifier::rlimit(100)]
    fn doctor_regs(&self) -> (r: Vec<u8>)
        ensures
            r@ == spec_doctor_regs(self@),
    {
        let mut out: Vec<u8> = Vec::new();
        out.push(0x41);
        out.push(0x3A);
        push_hex8(&mut out, self.regs.a);
        out.push(0x20);
        out.push(0x46);
        out.push(0x3A);
        push_hex8(&mut out, self.regs.f);
        out.push(0x20);
        out.push(0x42);
        out.push(0x3A);
        push_hex8(&mut out, self.regs.b);
        out.push(0x20);
        out.push(0x43);
        out.push(0x3A);
        push_hex8(&mut out, self.regs.c);
        out.push(0x20);
        out.push(0x44);
        out.push(0x3A);
        push_hex8(&mut out, self.regs.d);
        out.push(0x20);
        out.push(0x45);
        out.push(0x3A);
        push_hex8(&mut out, self.regs.e);
        out.push(0x20);
        out.push(0x48);
        out.push(0x3A);
        push_hex8(&mut out, self.regs.h);
        out.push(0x20);
        out.push(0x4C);
        out.push(0x3A);
        push_hex8(&mut out, self.regs.l);
        proof {
            assert(out@ =~= spec_doctor_regs(self@));
        }
        out
    }

    /// The one-line register snapshot in the Gameboy Doctor format, as ASCII
    /// bytes, for the host to emit once per retired instruction.
    #[verifier::rlimit(100)]
    pub fn debug_line(&self) -> (r: Vec<u8>)
        requires
            bus_wf(self@.bus),
        ensures
            r@ == spec_doctor_line(self@),
    {
        let p0 = self.bus.read(self.regs.pc);
        let p1 = self.bus.read(self.regs.pc.wrapping_add(1));
        let p2 = self.bus.read(self.regs.pc.wrapping_add(2));
        let p3 = self.bus.read(self.regs.pc.wrapping_add(3));
        let mut out = self.doctor_regs();
        out.push(0x20);
        out.push(0x53);
        out.push(0x50);
        out.push(0x3A);
        push_hex16(&mut out, self.regs.sp);
        out.push(0x20);
        out.push(0x50);
        out.push(0x43);
        out.push(0x3A);
        push_hex16(&mut out, self.regs.pc);
        out.push(0x20);
        out.push(0x50);
        out.push(0x43);
        out.push(0x4D);
        out.push(0x45);
        out.push(0x4D);
        out.push(0x3A);
        push_hex8(&mut out, p0);
        out.push(0x2C);
        push_hex8(&mut out, p1);
        out.push(0x2C);
        push_hex8(&mut out, p2);
        out.push(0x2C);
        push_hex8(&mut out, p3);
        proof {
            assert(out@ =~= spec_doctor_line(self@));
        }
        out
    }
}

/// Peripheral time never touches the halted latch.
pub proof fn lemma_tick_keeps_halted(c: CpuView, n: nat)
    ensures
        spec_tick(c, n).is_halted == c.is_halted,
    decreases n,
{
    if n > 0 {
        lemma_tick_keeps_halted(c, (n - 1) as nat);
    }
}

/// HALT wakeup: a halted CPU with any source both requested and enabled
/// (whatever `IME` holds) is running again after one step; the idle machine
/// cycle can only add requests, never remove them.
pub proof fn lemma_halt_wakeup(c: CpuView)
    requires
        c.is_halted,
        crate::interrupts::spec_pending(c.bus.int) != 0,
    ensures
        !spec_step(c).is_halted,
{
    assert forall|x: CpuView, n: nat| #[trigger] spec_tick(x, n).is_halted == x.is_halted by {
        lemma_tick_keeps_halted(x, n);
    }
    assert(spec_tick(c, 0) == c);
    assert(spec_tick(c, 1) == (CpuView { bus: spec_bus_tick(c.bus), cycles: w64(c.cycles + 4), ..c }));
    let e = c.bus.int.enabled;
    let q = c.bus.int.requested;
    assert((e & q & 0x1F != 0) ==> (e & (q | 4) & 0x1F != 0)) by (bit_vector);
}

/// `LD A,(HL+)`: the byte at HL moves into A and HL steps by one with
/// wraparound; PC and the flags do not move (the opcode byte itself was
/// already consumed by the fetch).
pub proof fn lemma_ld_a_hl_incr(c: CpuView)
    ensures
        spec_execute(
            c,
            Inst::Ld8(Operand::R8(Reg8::A), Operand::IndR16(Reg16::HlIncr)),
        ).regs.a == spec_bus_read(c.bus, hl_of(c.regs)),
        hl_of(
            spec_execute(c, Inst::Ld8(Operand::R8(Reg8::A), Operand::IndR16(Reg16::HlIncr))).regs,
        ) == w16(hl_of(c.regs) + 1),
        spec_execute(
            c,
            Inst::Ld8(Operand::R8(Reg8::A), Operand::IndR16(Reg16::HlIncr)),
        ).regs.pc == c.regs.pc,
        spec_execute(
            c,
            Inst::Ld8(Operand::R8(Reg8::A), Operand::IndR16(Reg16::HlIncr)),
        ).regs.f == c.regs.f,
{
    assert(spec_tick(CpuView { regs: with_hl(c.regs, w16(hl_of(c.regs) + 1)), ..c }, 0)
        == (CpuView { regs: with_hl(c.regs, w16(hl_of(c.regs) + 1)), ..c }));
    crate::registers::lemma_pair_round_trip(c.regs, w16(hl_of(c.regs) + 1));
}


} // verus!
