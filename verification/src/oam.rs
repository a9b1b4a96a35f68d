//! Object attribute memory: the 160-byte sprite table that the DMA engine
//! fills and the pixel pipeline reads.
use vstd::prelude::*;

use crate::helper::zero_vec;

verus! {

pub const OAM_SIZE: usize = 160;

pub struct Oam {
    data: Vec<u8>,
}

impl View for Oam {
    type V = Seq<u8>;

    closed spec fn view(&self) -> Seq<u8> {
        self.data@
    }
}

impl Oam {
    /// 160 bytes, all zero.
    pub fn new() -> (r: Oam)
        ensures
            r@ == Seq::new(160, |i: int| 0u8),
            r@.len() == 160,
    {
        Oam { data: zero_vec(OAM_SIZE) }
    }

    pub fn read(&self, offset: u8) -> (r: u8)
        requires
            self@.len() == 160,
            offset < 160,
        ensures
            r == self@[offset as int],
    {
        self.data[offset as usize]
    }

    pub fn write(&mut self, offset: u8, data: u8)
        requires
            old(self)@.len() == 160,
            offset < 160,
        ensures
            final(self)@ == old(self)@.update(offset as int, data),
    {
        self.data.set(offset as usize, data);
    }
}

} // verus!
