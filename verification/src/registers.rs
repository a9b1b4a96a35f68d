//! The CPU register file: eight 8-bit registers `A,F,B,C,D,E,H,L` paired as
//! `AF,BC,DE,HL`, plus the 16-bit `SP` and `PC`. `F` carries the four flags
//! `Z,N,H,C` in its high nibble; its low nibble is kept at zero by every
//! composite setter.
use vstd::prelude::*;

verus! {

/// One of the four condition flags held in the high nibble of `F`.
pub enum Flag {
    Zero,
    Subtraction,
    HalfCarry,
    Carry,
}

impl Flag {
    /// The bit of `F` that carries this flag.
    pub fn mask(&self) -> (r: u8)
        ensures
            r == self.spec_mask(),
    {
        match self {
            Flag::Zero => 0x80,
            Flag::Subtraction => 0x40,
            Flag::HalfCarry => 0x20,
            Flag::Carry => 0x10,
        }
    }

    pub open spec fn spec_mask(&self) -> u8 {
        match self {
            Flag::Zero => 0x80,
            Flag::Subtraction => 0x40,
            Flag::HalfCarry => 0x20,
            Flag::Carry => 0x10,
        }
    }
}

#[derive(Clone, Copy)]
pub struct Registers {
    pub a: u8,
    pub f: u8,
    pub b: u8,
    pub c: u8,
    pub d: u8,
    pub e: u8,
    pub h: u8,
    pub l: u8,
    pub sp: u16,
    pub pc: u16,
}

/// The 16-bit value of the `AF` pair.
pub open spec fn af_of(r: Registers) -> u16 {
    ((r.a as u16) << 8 | (r.f as u16)) as u16
}

/// The 16-bit value of the `BC` pair.
pub open spec fn bc_of(r: Registers) -> u16 {
    ((r.b as u16) << 8 | (r.c as u16)) as u16
}

/// The 16-bit value of the `DE` pair.
pub open spec fn de_of(r: Registers) -> u16 {
    ((r.d as u16) << 8 | (r.e as u16)) as u16
}

/// The 16-bit value of the `HL` pair.
pub open spec fn hl_of(r: Registers) -> u16 {
    ((r.h as u16) << 8 | (r.l as u16)) as u16
}

/// The register file with `AF` set to `v`; the low nibble of `F` is masked
/// off, so only `v & 0xFFF0` is retained.
pub open spec fn with_af(r: Registers, v: u16) -> Registers {
    Registers { a: (v >> 8) as u8, f: (v & 0xF0) as u8, ..r }
}

/// The register file with `BC` set to `v`.
pub open spec fn with_bc(r: Registers, v: u16) -> Registers {
    Registers { b: (v >> 8) as u8, c: (v & 0xFF) as u8, ..r }
}

/// The register file with `DE` set to `v`.
pub open spec fn with_de(r: Registers, v: u16) -> Registers {
    Registers { d: (v >> 8) as u8, e: (v & 0xFF) as u8, ..r }
}

/// The register file with `HL` set to `v`.
pub open spec fn with_hl(r: Registers, v: u16) -> Registers {
    Registers { h: (v >> 8) as u8, l: (v & 0xFF) as u8, ..r }
}

/// The zero flag: bit 7 of `F`.
pub open spec fn zero_flag_of(r: Registers) -> bool {
    r.f & 0x80 != 0
}

/// The subtract flag: bit 6 of `F`.
pub open spec fn subtraction_flag_of(r: Registers) -> bool {
    r.f & 0x40 != 0
}

/// The half-carry flag: bit 5 of `F`.
pub open spec fn half_carry_flag_of(r: Registers) -> bool {
    r.f & 0x20 != 0
}

/// The carry flag: bit 4 of `F`.
pub open spec fn carry_flag_of(r: Registers) -> bool {
    r.f & 0x10 != 0
}

/// The `F` byte with the flag selected by `mask` set to `value` and every
/// other bit unchanged.
pub open spec fn f_with_flag(f: u8, mask: u8, value: bool) -> u8 {
    if value {
        f | mask
    } else {
        f & !mask
    }
}

/// The `F` byte after the four flag writes `Z`, `N`, `H`, `C`, in that
/// order — the shape every arithmetic instruction leaves `F` in.
pub open spec fn spec_flags(f: u8, z: bool, n: bool, h: bool, cy: bool) -> u8 {
    f_with_flag(f_with_flag(f_with_flag(f_with_flag(f, 0x80, z), 0x40, n), 0x20, h), 0x10, cy)
}

/// Writing all four flags sets exactly the four flag bits and keeps the low
/// nibble; over a clean `F` the result is the plain sum of the flag masks.
pub proof fn lemma_spec_flags(f: u8, z: bool, n: bool, h: bool, cy: bool)
    by (bit_vector)
    ensures
        spec_flags(f, z, n, h, cy) & 0x0F == f & 0x0F,
        (spec_flags(f, z, n, h, cy) & 0x80 != 0) == z,
        (spec_flags(f, z, n, h, cy) & 0x40 != 0) == n,
        (spec_flags(f, z, n, h, cy) & 0x20 != 0) == h,
        (spec_flags(f, z, n, h, cy) & 0x10 != 0) == cy,
        f & 0x0F == 0 ==> spec_flags(f, z, n, h, cy) == (if z {
            0x80u8
        } else {
            0u8
        }) | (if n {
            0x40u8
        } else {
            0u8
        }) | (if h {
            0x20u8
        } else {
            0u8
        }) | (if cy {
            0x10u8
        } else {
            0u8
        }),
{
}

/// The `F` byte after the three flag writes `Z`, `N`, `H`; `C` stays.
pub open spec fn spec_flags_znh(f: u8, z: bool, n: bool, h: bool) -> u8 {
    f_with_flag(f_with_flag(f_with_flag(f, 0x80, z), 0x40, n), 0x20, h)
}

/// The `F` byte after the three flag writes `N`, `H`, `C`; `Z` stays.
pub open spec fn spec_flags_nhc(f: u8, n: bool, h: bool, cy: bool) -> u8 {
    f_with_flag(f_with_flag(f_with_flag(f, 0x40, n), 0x20, h), 0x10, cy)
}

/// The `F` byte after the two flag writes `N`, `H`; `Z` and `C` stay.
pub open spec fn spec_flags_nh(f: u8, n: bool, h: bool) -> u8 {
    f_with_flag(f_with_flag(f, 0x40, n), 0x20, h)
}

/// The `F` byte after the two flag writes `Z`, `H`; `N` and `C` stay.
pub open spec fn spec_flags_zh(f: u8, z: bool, h: bool) -> u8 {
    f_with_flag(f_with_flag(f, 0x80, z), 0x20, h)
}

/// Every partial flag write keeps the low nibble of `F`, and keeps the flags
/// it does not name.
pub proof fn lemma_flag_chains(f: u8, z: bool, n: bool, h: bool, cy: bool)
    by (bit_vector)
    ensures
        spec_flags_znh(f, z, n, h) & 0x0F == f & 0x0F,
        spec_flags_znh(f, z, n, h) & 0x10 == f & 0x10,
        spec_flags_nhc(f, n, h, cy) & 0x0F == f & 0x0F,
        spec_flags_nhc(f, n, h, cy) & 0x80 == f & 0x80,
        spec_flags_nh(f, n, h) & 0x0F == f & 0x0F,
        spec_flags_nh(f, n, h) & 0x80 == f & 0x80,
        spec_flags_nh(f, n, h) & 0x10 == f & 0x10,
        spec_flags_zh(f, z, h) & 0x0F == f & 0x0F,
        spec_flags_zh(f, z, h) & 0x40 == f & 0x40,
        spec_flags_zh(f, z, h) & 0x10 == f & 0x10,
        f_with_flag(f, 0x10, cy) & 0x0F == f & 0x0F,
{
}

/// The new `F` after writing one flag bit: the written flag reads back as the
/// written value, every other bit of `F` (the other three flags and the low
/// nibble) is untouched.
pub proof fn lemma_flag_write_isolated(f: u8, m: u8, n: u8, v: bool)
    by (bit_vector)
    requires
        n & m == 0,
    ensures
        (f_with_flag(f, m, v) & m != 0) == (v && m != 0),
        f_with_flag(f, m, v) & n == f & n,
{
}

/// A 16-bit value stored into `AF` leaves the low nibble of `F` zero.
pub proof fn lemma_af_low_nibble(v: u16)
    by (bit_vector)
    ensures
        ((v & 0xF0) as u8) & 0x0F == 0,
{
}

/// Register pair round-trip: storing `v` into `BC`, `DE` or `HL` reads back
/// as `v` exactly; storing into `AF` reads back as `v & 0xFFF0`, because the
/// low nibble of `F` is forced to zero.
pub proof fn lemma_pair_round_trip(r: Registers, v: u16)
    ensures
        bc_of(with_bc(r, v)) == v,
        de_of(with_de(r, v)) == v,
        hl_of(with_hl(r, v)) == v,
        af_of(with_af(r, v)) == v & 0xFFF0,
{
    assert((((v >> 8) as u8 as u16) << 8 | (v & 0xFF) as u8 as u16) == v) by (bit_vector);
    assert((((v >> 8) as u8 as u16) << 8 | (v & 0xF0) as u8 as u16) == v & 0xFFF0)
        by (bit_vector);
}

impl Registers {
    /// The power-on register file at entry `PC = 0x0100`.
    pub fn new() -> (r: Registers)
        ensures
            r == (Registers {
                a: 0x01,
                f: 0xB0,
                b: 0x00,
                c: 0x13,
                d: 0x00,
                e: 0xD8,
                h: 0x01,
                l: 0x4D,
                sp: 0xFFFE,
                pc: 0x0100,
            }),
    {
        Registers {
            a: 0x01,
            f: 0xB0,
            b: 0x00,
            c: 0x13,
            d: 0x00,
            e: 0xD8,
            h: 0x01,
            l: 0x4D,
            sp: 0xFFFE,
            pc: 0x0100,
        }
    }

    /// Writes `F`; only the four flag bits can be set, the low nibble is
    /// forced to zero.
    pub fn set_f(&mut self, value: u8)
        ensures
            *final(self) == (Registers { f: (value & 0xF0) as u8, ..*old(self) }),
    {
        self.f = value & 0xF0;
    }

    pub fn set_af(&mut self, value: u16)
        ensures
            *final(self) == with_af(*old(self), value),
    {
        let (a, f) = crate::helper::split_u16(value);
        self.a = a;
        self.set_f(f);
        proof {
            assert((value & 0xFF) as u8 & 0xF0 == (value & 0xF0) as u8) by (bit_vector);
        }
    }

    pub fn set_bc(&mut self, value: u16)
        ensures
            *final(self) == with_bc(*old(self), value),
    {
        let (b, c) = crate::helper::split_u16(value);
        self.b = b;
        self.c = c;
    }

    pub fn set_de(&mut self, value: u16)
        ensures
            *final(self) == with_de(*old(self), value),
    {
        let (d, e) = crate::helper::split_u16(value);
        self.d = d;
        self.e = e;
    }

    pub fn set_hl(&mut self, value: u16)
        ensures
            *final(self) == with_hl(*old(self), value),
    {
        let (h, l) = crate::helper::split_u16(value);
        self.h = h;
        self.l = l;
    }

    pub fn af(&self) -> (r: u16)
        ensures
            r == af_of(*self),
    {
        crate::helper::combine_to_u16(self.a, self.f)
    }

    pub fn bc(&self) -> (r: u16)
        ensures
            r == bc_of(*self),
    {
        crate::helper::combine_to_u16(self.b, self.c)
    }

    pub fn de(&self) -> (r: u16)
        ensures
            r == de_of(*self),
    {
        crate::helper::combine_to_u16(self.d, self.e)
    }

    pub fn hl(&self) -> (r: u16)
        ensures
            r == hl_of(*self),
    {
        crate::helper::combine_to_u16(self.h, self.l)
    }

    /// Advances `HL` by one with wraparound; no other register changes.
    pub fn incr_hl(&mut self)
        ensures
            *final(self) == with_hl(*old(self), ((hl_of(*old(self)) + 1) % 0x10000) as u16),
    {
        let hl = self.hl();
        self.set_hl(hl.wrapping_add(1));
    }

    /// Decrements `HL` by one with wraparound; no other register changes.
    pub fn decr_hl(&mut self)
        ensures
            *final(self) == with_hl(
                *old(self),
                ((hl_of(*old(self)) + 0x10000 - 1) % 0x10000) as u16,
            ),
    {
        let hl = self.hl();
        self.set_hl(hl.wrapping_sub(1));
    }

    pub fn zero_flag(&self) -> (r: bool)
        ensures
            r == zero_flag_of(*self),
    {
        self.f & 0x80 != 0
    }

    pub fn subtraction_flag(&self) -> (r: bool)
        ensures
            r == subtraction_flag_of(*self),
    {
        self.f & 0x40 != 0
    }

    pub fn half_carry_flag(&self) -> (r: bool)
        ensures
            r == half_carry_flag_of(*self),
    {
        self.f & 0x20 != 0
    }

    pub fn carry_flag(&self) -> (r: bool)
        ensures
            r == carry_flag_of(*self),
    {
        self.f & 0x10 != 0
    }

    pub fn set_flag_zero(&mut self, zero: bool)
        ensures
            *final(self) == (Registers { f: f_with_flag(old(self).f, 0x80, zero), ..*old(self) }),
    {
        if zero {
            self.f = self.f | 0x80;
        } else {
            self.f = self.f & !0x80;
        }
    }

    pub fn set_flag_subtract(&mut self, subtract: bool)
        ensures
            *final(self) == (Registers {
                f: f_with_flag(old(self).f, 0x40, subtract),
                ..*old(self)
            }),
    {
        if subtract {
            self.f = self.f | 0x40;
        } else {
            self.f = self.f & !0x40;
        }
    }

    pub fn set_flag_half_carry(&mut self, half_carry: bool)
        ensures
            *final(self) == (Registers {
                f: f_with_flag(old(self).f, 0x20, half_carry),
                ..*old(self)
            }),
    {
        if half_carry {
            self.f = self.f | 0x20;
        } else {
            self.f = self.f & !0x20;
        }
    }

    pub fn set_flag_carry(&mut self, carry: bool)
        ensures
            *final(self) == (Registers { f: f_with_flag(old(self).f, 0x10, carry), ..*old(self) }),
    {
        if carry {
            self.f = self.f | 0x10;
        } else {
            self.f = self.f & !0x10;
        }
    }
}

} // verus!
