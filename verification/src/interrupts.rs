//! The interrupt controller: the master-enable latch `IME`, the enable mask
//! `IE` (0xFFFF) and the request mask `IF` (0xFF0F). Five sources in
//! descending priority: VBlank, LCD-STAT, Timer, Serial, Joypad. Dispatch
//! hands out the highest-priority pending source, clears its request bit and
//! drops `IME`; the CPU performs the push-and-jump that follows.
use vstd::prelude::*;

verus! {

/// One of the five interrupt sources, in descending dispatch priority.
#[derive(PartialEq, Eq, Structural, Debug, Clone, Copy)]
pub enum Interrupt {
    VBlank,
    LcdStat,
    Timer,
    Serial,
    Joypad,
}

impl Interrupt {
    /// The bit this source occupies in `IE` and `IF`.
    pub open spec fn spec_bit(&self) -> u8 {
        match self {
            Interrupt::VBlank => 1,
            Interrupt::LcdStat => 2,
            Interrupt::Timer => 4,
            Interrupt::Serial => 8,
            Interrupt::Joypad => 16,
        }
    }

    /// The handler address the CPU jumps to for this source.
    pub open spec fn spec_address(&self) -> u16 {
        match self {
            Interrupt::VBlank => 0x40,
            Interrupt::LcdStat => 0x48,
            Interrupt::Timer => 0x50,
            Interrupt::Serial => 0x58,
            Interrupt::Joypad => 0x60,
        }
    }

    pub fn bit(&self) -> (r: u8)
        ensures
            r == self.spec_bit(),
    {
        match self {
            Interrupt::VBlank => 1,
            Interrupt::LcdStat => 2,
            Interrupt::Timer => 4,
            Interrupt::Serial => 8,
            Interrupt::Joypad => 16,
        }
    }

    pub fn address(&self) -> (r: u16)
        ensures
            r == self.spec_address(),
    {
        match self {
            Interrupt::VBlank => 0x40,
            Interrupt::LcdStat => 0x48,
            Interrupt::Timer => 0x50,
            Interrupt::Serial => 0x58,
            Interrupt::Joypad => 0x60,
        }
    }
}

pub struct InterruptHandler {
    /// IME: the single latch gating all dispatch.
    pub master_enabled: bool,
    /// IE: the enable mask, low 5 bits.
    pub enabled: u8,
    /// IF: the request mask, low 5 bits.
    pub requested: u8,
}

/// The two masks only ever hold their low 5 bits.
pub open spec fn int_wf(i: InterruptHandler) -> bool {
    i.enabled < 32 && i.requested < 32
}

/// The pending set: sources both requested and enabled.
pub open spec fn spec_pending(i: InterruptHandler) -> u8 {
    (i.enabled & i.requested & 0x1F) as u8
}

/// The highest-priority source in a non-empty pending set `p`.
pub open spec fn spec_highest(p: u8) -> Interrupt {
    if p & 1 != 0 {
        Interrupt::VBlank
    } else if p & 2 != 0 {
        Interrupt::LcdStat
    } else if p & 4 != 0 {
        Interrupt::Timer
    } else if p & 8 != 0 {
        Interrupt::Serial
    } else {
        Interrupt::Joypad
    }
}

/// The controller state after a dispatch attempt, paired with its outcome.
/// With `IME` clear or nothing pending the state is unchanged and no source
/// is handed out; otherwise the highest-priority pending source comes back,
/// its request bit is cleared, and `IME` drops.
pub open spec fn spec_dispatch(i: InterruptHandler) -> (InterruptHandler, Option<Interrupt>) {
    if i.master_enabled && spec_pending(i) != 0 {
        let source = spec_highest(spec_pending(i));
        (
            InterruptHandler {
                master_enabled: false,
                requested: (i.requested & !source.spec_bit()) as u8,
                ..i
            },
            Some(source),
        )
    } else {
        (i, None)
    }
}

/// Interrupt priority: with `IME` set and all five sources enabled and
/// requested, dispatch returns VBlank, clears exactly its request bit and
/// drops `IME`, leaving the enable mask alone.
pub proof fn lemma_interrupt_priority(i: InterruptHandler)
    requires
        i.master_enabled,
        i.enabled == 0x1F,
        i.requested == 0x1F,
    ensures
        spec_dispatch(i).1 == Some(Interrupt::VBlank),
        spec_dispatch(i).0.requested == 0x1E,
        !spec_dispatch(i).0.master_enabled,
        spec_dispatch(i).0.enabled == 0x1F,
{
    assert(0x1Fu8 & 0x1F & 0x1F == 0x1F && 0x1Fu8 & 1 != 0 && 0x1Fu8 & !1 == 0x1E)
        by (bit_vector);
}

impl InterruptHandler {
    /// The controller at power-on: `IME` clear, nothing enabled, nothing
    /// requested.
    pub fn new() -> (r: InterruptHandler)
        ensures
            r == (InterruptHandler { master_enabled: false, enabled: 0, requested: 0 }),
            int_wf(r),
    {
        InterruptHandler { master_enabled: false, enabled: 0, requested: 0 }
    }

    /// Attempts a dispatch: hands out the highest-priority pending source if
    /// `IME` is set and something is pending, clearing that source's request
    /// bit and dropping `IME`.
    pub fn handle_interrupts(&mut self) -> (r: Option<Interrupt>)
        requires
            int_wf(*old(self)),
        ensures
            *final(self) == spec_dispatch(*old(self)).0,
            r == spec_dispatch(*old(self)).1,
            int_wf(*final(self)),
    {
        proof {
            let e = self.enabled;
            let q = self.requested;
            assert((q & e != 0) == (e & q & 0x1F != 0) && (e & q & 0x1F) < 32) by (bit_vector)
                requires
                    e < 32 && q < 32,
            ;
        }
        if !(self.master_enabled && self.is_interrupt_pending()) {
            return None;
        }
        let pending = self.enabled & self.requested & 0x1F;
        proof {
            let p = pending;
            let q = self.requested;
            assert(p & 1 == 0 && p & 2 == 0 && p & 4 == 0 && p & 8 == 0 && p != 0 && p < 32 ==> p
                & 16 != 0) by (bit_vector);
            assert((q & !1) < 32 && (q & !2) < 32 && (q & !4) < 32 && (q & !8) < 32 && (q & !16)
                < 32) by (bit_vector)
                requires
                    q < 32,
            ;
        }
        let source = if pending & 1 != 0 {
            Interrupt::VBlank
        } else if pending & 2 != 0 {
            Interrupt::LcdStat
        } else if pending & 4 != 0 {
            Interrupt::Timer
        } else if pending & 8 != 0 {
            Interrupt::Serial
        } else {
            Interrupt::Joypad
        };
        self.handle_interrupt(&source)
    }

    /// Whether any source is both requested and enabled, regardless of
    /// `IME`. This is the HALT wakeup condition.
    pub fn is_interrupt_pending(&self) -> (r: bool)
        requires
            int_wf(*self),
        ensures
            r == (spec_pending(*self) != 0),
    {
        proof {
            let e = self.enabled;
            let q = self.requested;
            assert((q & e != 0) == (e & q & 0x1F != 0)) by (bit_vector)
                requires
                    e < 32 && q < 32,
            ;
        }
        self.requested & self.enabled != 0
    }

    /// Accepts one source for dispatch: clears its request bit and drops
    /// `IME`.
    fn handle_interrupt(&mut self, interrupt: &Interrupt) -> (r: Option<Interrupt>)
        ensures
            *final(self) == (InterruptHandler {
                master_enabled: false,
                requested: (old(self).requested & !interrupt.spec_bit()) as u8,
                ..*old(self)
            }),
            r == Some(*interrupt),
    {
        self.master_enabled = false;
        self.requested = self.requested & !interrupt.bit();
        Some(*interrupt)
    }

    /// The IE mask.
    pub fn enabled(&self) -> (r: u8)
        ensures
            r == self.enabled,
    {
        self.enabled
    }

    /// Writes IE, truncated to the low 5 bits.
    pub fn set_enabled(&mut self, data: u8)
        ensures
            *final(self) == (InterruptHandler { enabled: (data & 0x1F) as u8, ..*old(self) }),
            old(self).requested < 32 ==> int_wf(*final(self)),
    {
        proof {
            assert(data & 0x1F < 32) by (bit_vector);
        }
        self.enabled = data & 0x1F;
    }

    /// The IF mask.
    pub fn requested(&self) -> (r: u8)
        ensures
            r == self.requested,
    {
        self.requested
    }

    /// Writes IF, truncated to the low 5 bits.
    pub fn set_requested(&mut self, data: u8)
        ensures
            *final(self) == (InterruptHandler { requested: (data & 0x1F) as u8, ..*old(self) }),
            old(self).enabled < 32 ==> int_wf(*final(self)),
    {
        proof {
            assert(data & 0x1F < 32) by (bit_vector);
        }
        self.requested = data & 0x1F;
    }

    /// Raises the request bit of one source.
    pub fn request_interrupt(&mut self, interrupt: Interrupt)
        ensures
            *final(self) == (InterruptHandler {
                requested: (old(self).requested | interrupt.spec_bit()) as u8,
                ..*old(self)
            }),
            old(self).requested < 32 ==> final(self).requested < 32,
    {
        proof {
            let q = self.requested;
            let b = interrupt.spec_bit();
            assert(q < 32 && b < 32 ==> (q | b) < 32) by (bit_vector);
        }
        self.requested = self.requested | interrupt.bit();
    }
}

} // verus!
