//! The timer: a 16-bit free-running divider `DIV`, the 8-bit counter `TIMA`,
//! its reload value `TMA` and the control byte `TAC`. `TIMA` advances on each
//! falling edge of the divider bit selected by `TAC`; when it wraps past 0xFF
//! it reloads from `TMA` and requests a Timer interrupt.
use vstd::prelude::*;

verus! {

pub struct Timer {
    /// DIV: the internal 16-bit divider; the register exposes its high byte.
    pub divider: u16,
    /// TIMA: the timer counter.
    pub counter: u8,
    /// TMA: the reload value for TIMA.
    pub modulo: u8,
    /// TAC: bit 2 enables the counter, bits 1..0 select the speed.
    pub control: u8,
    /// Cached from TAC bit 2.
    pub is_enabled: bool,
    /// Cached from TAC bits 1..0: masks off the divider bits below (and
    /// including) the selected bit, so that a change under the mask is
    /// exactly a falling edge of the selected bit.
    pub mask: u16,
}

/// The divider mask selected by TAC bits 1..0: speed 0 samples bit 9
/// (every 1024 T-cycles), 1 samples bit 3 (16), 2 bit 5 (64), 3 bit 7 (256).
pub open spec fn spec_mask_for(control: u8) -> u16 {
    if control & 3 == 0 {
        0xFC00
    } else if control & 3 == 1 {
        0xFFF0
    } else if control & 3 == 2 {
        0xFFC0
    } else {
        0xFF00
    }
}

/// The cached enable and mask agree with the control byte.
pub open spec fn timer_wf(t: Timer) -> bool {
    &&& t.is_enabled == (t.control & 4 != 0)
    &&& t.mask == spec_mask_for(t.control)
}

/// The divider after `cycles` further T-cycles, with wraparound.
pub open spec fn spec_divider_next(t: Timer, cycles: u8) -> u16 {
    ((t.divider + cycles) % 0x10000) as u16
}

/// Whether advancing by `cycles` T-cycles produces an increment edge: the
/// timer is enabled and the masked part of the divider changes, that is the
/// selected bit sees a falling edge.
pub open spec fn spec_timer_edge(t: Timer, cycles: u8) -> bool {
    t.is_enabled && (spec_divider_next(t, cycles) & t.mask) != (t.divider & t.mask)
}

/// Whether advancing by `cycles` T-cycles overflows TIMA: an increment edge
/// arrives while TIMA is 0xFF. Exactly then a Timer interrupt is requested.
pub open spec fn spec_timer_overflow(t: Timer, cycles: u8) -> bool {
    spec_timer_edge(t, cycles) && t.counter == 0xFF
}

/// The timer state after `cycles` further T-cycles: the divider always
/// advances; on an increment edge TIMA steps, reloading from TMA on the wrap
/// past 0xFF.
pub open spec fn spec_timer_next(t: Timer, cycles: u8) -> Timer {
    Timer {
        divider: spec_divider_next(t, cycles),
        counter: if spec_timer_edge(t, cycles) {
            if t.counter == 0xFF {
                t.modulo
            } else {
                (t.counter + 1) as u8
            }
        } else {
            t.counter
        },
        ..t
    }
}

/// Timer overflow law: from any enabled configuration with `TIMA = 0xFF`,
/// the very next increment edge reports exactly one overflow (the request
/// for one Timer interrupt) and leaves `TIMA` equal to `TMA`; without an
/// edge, or from `TIMA != 0xFF`, no overflow is reported.
pub proof fn lemma_timer_overflow_reload(t: Timer, cycles: u8)
    ensures
        t.counter == 0xFF && spec_timer_edge(t, cycles) ==> spec_timer_overflow(t, cycles)
            && spec_timer_next(t, cycles).counter == t.modulo,
        t.counter != 0xFF || !spec_timer_edge(t, cycles) ==> !spec_timer_overflow(t, cycles),
{
}

impl Timer {
    /// The timer at power-on entry: divider cleared, TAC = 5 (enabled, speed
    /// 1), caches consistent with TAC.
    pub fn new() -> (r: Timer)
        ensures
            r == (Timer {
                divider: 0,
                counter: 0,
                modulo: 0,
                control: 5,
                is_enabled: true,
                mask: 0xFFF0,
            }),
            timer_wf(r),
    {
        proof {
            assert(5u8 & 4 != 0 && 5u8 & 3 == 1) by (bit_vector);
        }
        Timer { divider: 0, counter: 0, modulo: 0, control: 5, is_enabled: true, mask: 0xFFF0 }
    }

    /// Advances the divider by `cycles` T-cycles and steps TIMA on an
    /// increment edge; returns whether TIMA overflowed, which requests a
    /// Timer interrupt.
    pub fn tick_timer(&mut self, cycles: u8) -> (overflow: bool)
        ensures
            *final(self) == spec_timer_next(*old(self), cycles),
            overflow == spec_timer_overflow(*old(self), cycles),
    {
        let prev_divider = self.divider;
        self.divider = self.divider.wrapping_add(cycles as u16);
        if !self.is_enabled {
            return false;
        }
        let update_timer = (self.divider & self.mask) != (prev_divider & self.mask);
        if update_timer {
            if self.counter == 0xFF {
                self.counter = self.modulo;
                return true;
            } else {
                self.counter = self.counter + 1;
            }
        }
        false
    }

    /// The DIV register: the high byte of the internal divider.
    pub fn divider(&self) -> (r: u8)
        ensures
            r == (self.divider >> 8) as u8,
    {
        (self.divider >> 8) as u8
    }

    /// Any write to DIV clears the whole internal divider.
    pub fn reset_divider(&mut self)
        ensures
            *final(self) == (Timer { divider: 0, ..*old(self) }),
    {
        self.divider = 0;
    }

    pub fn counter(&self) -> (r: u8)
        ensures
            r == self.counter,
    {
        self.counter
    }

    pub fn set_counter(&mut self, data: u8)
        ensures
            *final(self) == (Timer { counter: data, ..*old(self) }),
    {
        self.counter = data;
    }

    pub fn modulo(&self) -> (r: u8)
        ensures
            r == self.modulo,
    {
        self.modulo
    }

    pub fn set_modulo(&mut self, data: u8)
        ensures
            *final(self) == (Timer { modulo: data, ..*old(self) }),
    {
        self.modulo = data;
    }

    pub fn control(&self) -> (r: u8)
        ensures
            r == self.control,
    {
        self.control
    }

    /// Writes TAC and refreshes the cached enable bit and divider mask.
    pub fn set_control(&mut self, data: u8)
        ensures
            *final(self) == (Timer {
                control: data,
                is_enabled: data & 4 != 0,
                mask: spec_mask_for(data),
                ..*old(self)
            }),
            timer_wf(*final(self)),
    {
        self.control = data;
        self.is_enabled = data & 4 != 0;
        self.mask = if data & 3 == 0 {
            0xFC00
        } else if data & 3 == 1 {
            0xFFF0
        } else if data & 3 == 2 {
            0xFFC0
        } else {
            0xFF00
        };
    }
}

} // verus!
