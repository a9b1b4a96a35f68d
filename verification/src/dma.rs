//! The OAM DMA engine: once started it copies, after a short delay, one byte
//! per machine cycle from a page-aligned source into OAM, 160 bytes in all.
use vstd::prelude::*;

verus! {

#[derive(Debug, Clone, Copy)]
pub struct Dma {
    pub is_active: bool,
    /// The high byte of the source: the transfer reads 0xXX00-0xXX9F.
    pub upper: u8,
    /// The current offset, 0 to 159 while the transfer runs.
    pub lower: u8,
    /// Machine cycles left before the first byte copies.
    pub start_delay: u8,
}

/// While a transfer runs, the offset stays inside OAM.
pub open spec fn dma_wf(d: Dma) -> bool {
    d.is_active ==> d.lower < 160
}

/// The source address of transfer byte `i`: `(upper << 8) | i`.
pub open spec fn dma_source_addr(upper: u8, i: int) -> u16 {
    ((upper as u16) << 8 | i as u16) as u16
}

/// A bus read below OAM depends only on the ROM image, VRAM and WRAM.
proof fn lemma_read_stable(a: crate::bus::BusView, b: crate::bus::BusView, addr: u16)
    requires
        addr < 0xFE00,
        a.cart == b.cart,
        a.v_ram == b.v_ram,
        a.w_ram == b.w_ram,
    ensures
        crate::bus::spec_bus_read(a, addr) == crate::bus::spec_bus_read(b, addr),
{
}

/// DMA transfer law: from a state whose transfer is running with its start
/// delay elapsed and no byte yet moved, `k <= 160` idle machine cycles move
/// the first `k` source bytes into OAM, sampled at transfer time; the source
/// page, being below OAM, reads the same throughout. After 160 such cycles
/// the transfer is over and all of OAM holds the source page.
pub proof fn lemma_dma_transfer(b0: crate::bus::BusView, k: nat)
    requires
        crate::bus::bus_wf(b0),
        b0.dma.is_active,
        b0.dma.start_delay == 0,
        b0.dma.lower == 0,
        b0.dma.upper <= 0xFD,
        k <= 160,
    ensures
        crate::bus::bus_wf(crate::bus::spec_bus_ticks(b0, k)),
        crate::bus::spec_bus_ticks(b0, k).cart == b0.cart,
        crate::bus::spec_bus_ticks(b0, k).v_ram == b0.v_ram,
        crate::bus::spec_bus_ticks(b0, k).w_ram == b0.w_ram,
        crate::bus::spec_bus_ticks(b0, k).dma.upper == b0.dma.upper,
        crate::bus::spec_bus_ticks(b0, k).dma.start_delay == 0,
        k < 160 ==> crate::bus::spec_bus_ticks(b0, k).dma.is_active && crate::bus::spec_bus_ticks(
            b0,
            k,
        ).dma.lower == k,
        k == 160 ==> !crate::bus::spec_bus_ticks(b0, k).dma.is_active,
        forall|i: int|
            0 <= i < k ==> crate::bus::spec_bus_ticks(b0, k).oam[i] == crate::bus::spec_bus_read(
                b0,
                dma_source_addr(b0.dma.upper, i),
            ),
    decreases k,
{
    if k == 0 {
    } else {
        lemma_dma_transfer(b0, (k - 1) as nat);
        let p = crate::bus::spec_bus_ticks(b0, (k - 1) as nat);
        crate::bus::lemma_bus_tick_wf(p);
        let lower = p.dma.lower;
        let upper = p.dma.upper;
        assert(((upper as u16) << 8 | lower as u16) < 0xFE00) by (bit_vector)
            requires
                upper <= 0xFD,
        ;
        let mid = crate::bus::BusView {
            timer: crate::timer::spec_timer_next(p.timer, 4),
            int: if crate::timer::spec_timer_overflow(p.timer, 4) {
                crate::interrupts::InterruptHandler {
                    requested: (p.int.requested | 4) as u8,
                    ..p.int
                }
            } else {
                p.int
            },
            ..p
        };
        lemma_read_stable(mid, b0, dma_source_addr(b0.dma.upper, lower as int));
        assert(crate::bus::spec_bus_ticks(b0, k) == crate::bus::spec_bus_tick(p));
    }
}

impl Dma {
    /// The engine at power-on: idle.
    pub fn new() -> (r: Dma)
        ensures
            r == (Dma { is_active: false, upper: 0, lower: 0, start_delay: 0 }),
    {
        Dma { is_active: false, upper: 0, lower: 0, start_delay: 0 }
    }

    /// Begins a transfer from `(upper << 8)`: offset cleared, two machine
    /// cycles of start delay.
    pub fn start(&mut self, upper: u8)
        ensures
            *final(self) == (Dma { is_active: true, upper, lower: 0, start_delay: 2 }),
    {
        self.is_active = true;
        self.start_delay = 2;
        self.upper = upper;
        self.lower = 0;
    }

    pub fn is_active(&self) -> (r: bool)
        ensures
            r == self.is_active,
    {
        self.is_active
    }

    /// One machine cycle of the engine, against the bus that owns it: idle
    /// when inactive; the start delay counts down first; then one byte moves
    /// from `(upper << 8) | lower` into `OAM[lower]` per cycle until all 160
    /// bytes have moved.
    pub fn tick(bus: &mut crate::bus::Bus)
        requires
            crate::bus::bus_wf(old(bus)@),
        ensures
            final(bus)@ == crate::bus::spec_dma_step(old(bus)@),
            crate::bus::bus_wf(final(bus)@),
    {
        if !bus.dma.is_active {
            return ;
        }
        if bus.dma.start_delay > 0 {
            bus.dma.start_delay = bus.dma.start_delay - 1;
            proof {
                assert(bus@ =~= crate::bus::spec_dma_step(old(bus)@));
            }
            return ;
        }
        let addr = crate::helper::combine_to_u16(bus.dma.upper, bus.dma.lower);
        let data = bus.read(addr);
        let offset = bus.dma.lower;
        bus.oam.write(offset, data);
        bus.dma.lower = bus.dma.lower + 1;
        bus.dma.is_active = bus.dma.lower < 160;
        proof {
            assert(bus@ =~= crate::bus::spec_dma_step(old(bus)@));
        }
    }
}

} // verus!
