//! Small bit-manipulation helpers shared by the register file, the bus and
//! the peripheral subsystems.
use vstd::prelude::*;

verus! {

/// Splits a 16-bit value into its high and low bytes.
pub fn split_u16(value: u16) -> (r: (u8, u8))
    ensures
        r.0 == value >> 8,
        r.1 == value & 0xFF,
{
    proof {
        assert(((value >> 8) as u8) == value >> 8 && ((value & 0xFF) as u8) == value & 0xFF)
            by (bit_vector);
    }
    let high = (value >> 8) as u8;
    let low = (value & 0xFF) as u8;
    (high, low)
}

/// Splits a 32-bit value into its high and low 16-bit halves.
pub fn split_u32(value: u32) -> (r: (u16, u16))
    ensures
        r.0 == value >> 16,
        r.1 == value & 0xFFFF,
{
    proof {
        assert(((value >> 16) as u16) == value >> 16 && ((value & 0xFFFF) as u16) == value
            & 0xFFFF) by (bit_vector);
    }
    let high = (value >> 16) as u16;
    let low = (value & 0xFFFF) as u16;
    (high, low)
}

/// Joins a high and a low byte into one 16-bit value.
pub fn combine_to_u16(high: u8, low: u8) -> (r: u16)
    ensures
        r == ((high as u16) << 8 | low as u16),
        r >> 8 == high,
        r & 0xFF == low,
{
    let r = (high as u16) << 8 | low as u16;
    proof {
        assert(r >> 8 == high && r & 0xFF == low) by (bit_vector)
            requires
                r == ((high as u16) << 8 | low as u16),
        ;
    }
    r
}

/// Whether bit `index` of `data` is set.
pub fn is_bit_set(data: u8, index: u8) -> (r: bool)
    requires
        index < 8,
    ensures
        r == (data & (1u8 << index) != 0),
{
    data & (1 << index) != 0
}

/// Returns `data` with bit `index` additionally set when `value` is true;
/// when `value` is false the byte is returned unchanged (no bit is cleared).
pub fn set_bit(data: u8, index: u8, value: bool) -> (r: u8)
    requires
        index < 8,
    ensures
        value ==> r == (data | (1u8 << index)),
        !value ==> r == data,
{
    let r = (if value { 1u8 } else { 0u8 } << index) | data;
    proof {
        assert((0u8 << index) | data == data) by (bit_vector);
        assert((1u8 << index) | data == data | (1u8 << index)) by (bit_vector);
    }
    r
}

/// A nonnegative value reduced to 8 bits.
pub open spec fn w8(x: int) -> u8 {
    (x % 0x100) as u8
}

/// A nonnegative value reduced to 16 bits.
pub open spec fn w16(x: int) -> u16 {
    (x % 0x10000) as u16
}

/// A nonnegative value reduced to 64 bits.
pub open spec fn w64(x: int) -> u64 {
    (x % 0x10000000000000000) as u64
}

/// The values of the eight single-bit masks of a byte.
pub proof fn lemma_bit_masks()
    by (bit_vector)
    ensures
        1u8 << 0 == 1,
        1u8 << 1 == 2,
        1u8 << 2 == 4,
        1u8 << 3 == 8,
        1u8 << 4 == 16,
        1u8 << 5 == 32,
        1u8 << 6 == 64,
        1u8 << 7 == 128,
{
}

/// Masked values stay under their mask: the bounds the carry and half-carry
/// computations need.
pub proof fn lemma_nibble_bounds(x: u16, y: u8)
    by (bit_vector)
    ensures
        x & 0xF <= 0xF,
        x & 0xFF <= 0xFF,
        y & 0x0F <= 0x0F,
{
}

/// The two bytes of a 16-bit value, as shifts and as arithmetic.
pub proof fn lemma_u16_bytes(x: u16)
    by (bit_vector)
    ensures
        x & 0xFF == x % 0x100,
        x >> 8 == x / 0x100,
{
}

/// The two halves of a 32-bit value, as shifts and as arithmetic, with the
/// bounds of its masked parts.
pub proof fn lemma_u32_halves(x: u32)
    by (bit_vector)
    ensures
        x & 0xFFFF == x % 0x10000,
        x >> 16 == x / 0x10000,
        x & 0xFFF <= 0xFFF,
        x & 0xFFFF <= 0xFFFF,
{
}

/// A vector of `n` zero bytes, the initial content of every RAM region.
pub fn zero_vec(n: usize) -> (r: Vec<u8>)
    ensures
        r@ == Seq::new(n as nat, |i: int| 0u8),
{
    let mut r: Vec<u8> = Vec::new();
    let mut i: usize = 0;
    while i < n
        invariant
            i <= n,
            r@ == Seq::new(i as nat, |j: int| 0u8),
        decreases n - i,
    {
        r.push(0);
        i = i + 1;
        proof {
            assert(r@ =~= Seq::new(i as nat, |j: int| 0u8));
        }
    }
    r
}

} // verus!
