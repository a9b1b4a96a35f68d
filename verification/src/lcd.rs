//! The LCD register block: LCDC control, STAT status, scroll, LY/LYC and the
//! palettes. The core only stores and routes these bytes; the pixel pipeline
//! that consumes them is an external collaborator.
use vstd::prelude::*;

use crate::helper::is_bit_set;
use crate::helper::lemma_bit_masks;
use crate::helper::set_bit;

verus! {

/// The four PPU modes encoded in the low two bits of STAT.
#[derive(PartialEq, Eq, Structural, Debug, Clone, Copy)]
pub enum LcdMode {
    HBlank,
    VBlank,
    SearchingOam,
    TransferingData,
}

/// Which palette register a write addresses.
#[derive(PartialEq, Eq, Structural, Debug, Clone, Copy)]
pub enum Palette {
    Background,
    Obj0,
    Obj1,
}

impl LcdMode {
    pub open spec fn spec_status_bits(&self) -> u8 {
        match self {
            LcdMode::HBlank => 0,
            LcdMode::VBlank => 1,
            LcdMode::SearchingOam => 2,
            LcdMode::TransferingData => 3,
        }
    }

    /// This mode's encoding in the low two bits of STAT.
    #[allow(non_snake_case)]
    pub fn toStatusBit(&self) -> (r: u8)
        ensures
            r == self.spec_status_bits(),
    {
        match self {
            LcdMode::HBlank => 0b00,
            LcdMode::VBlank => 0b01,
            LcdMode::SearchingOam => 0b10,
            LcdMode::TransferingData => 0b11,
        }
    }

    /// The STAT bit that selects this mode as a STAT-interrupt source.
    #[allow(non_snake_case)]
    pub fn getInterruptSourceBit(&self) -> (r: u8)
        ensures
            r == match self {
                LcdMode::HBlank => 8u8,
                LcdMode::VBlank => 16u8,
                LcdMode::SearchingOam => 32u8,
                LcdMode::TransferingData => 64u8,
            },
    {
        proof {
            lemma_bit_masks();
        }
        match self {
            LcdMode::HBlank => 1u8 << 3,
            LcdMode::VBlank => 1u8 << 4,
            LcdMode::SearchingOam => 1u8 << 5,
            LcdMode::TransferingData => 1u8 << 6,
        }
    }
}

#[derive(Debug, Clone, Copy)]
pub struct Lcd {
    /// LCDC.
    pub control: u8,
    /// STAT.
    pub status: u8,
    /// SCY.
    pub scroll_y: u8,
    /// SCX.
    pub scroll_x: u8,
    /// LY.
    pub ly: u8,
    /// LYC.
    pub ly_compare: u8,
    pub bg_palette: u8,
    pub obj_palette_0: u8,
    pub obj_palette_1: u8,
    pub win_y: u8,
    pub win_x: u8,
}

/// The mode encoded in the low two bits of a STAT byte.
pub open spec fn spec_mode_of(status: u8) -> LcdMode {
    if status & 3 == 0 {
        LcdMode::HBlank
    } else if status & 3 == 1 {
        LcdMode::VBlank
    } else if status & 3 == 2 {
        LcdMode::SearchingOam
    } else {
        LcdMode::TransferingData
    }
}

impl Lcd {
    /// The register block at power-on entry.
    pub fn new() -> (r: Lcd)
        ensures
            r == (Lcd {
                control: 0x91,
                status: 0,
                scroll_y: 0,
                scroll_x: 0,
                ly: 0,
                ly_compare: 0,
                bg_palette: 0xFC,
                obj_palette_0: 0xFF,
                obj_palette_1: 0xFF,
                win_y: 0,
                win_x: 0,
            }),
    {
        Lcd {
            control: 0x91,
            status: 0,
            scroll_y: 0,
            scroll_x: 0,
            ly: 0,
            ly_compare: 0,
            bg_palette: 0xFC,
            obj_palette_0: 0xFF,
            obj_palette_1: 0xFF,
            win_y: 0,
            win_x: 0,
        }
    }

    /// LCDC bit 0: background and window enable.
    pub fn bg_window_enabled(&self) -> (r: bool)
        ensures
            r == (self.control & 1 != 0),
    {
        proof {
            lemma_bit_masks();
        }
        is_bit_set(self.control, 0)
    }

    /// LCDC bit 1: object enable.
    pub fn obj_enabled(&self) -> (r: bool)
        ensures
            r == (self.control & 2 != 0),
    {
        proof {
            lemma_bit_masks();
        }
        is_bit_set(self.control, 1)
    }

    /// LCDC bit 2: object height, 16 when set, else 8.
    pub fn obj_height(&self) -> (r: u8)
        ensures
            r == if self.control & 4 != 0 {
                16u8
            } else {
                8u8
            },
    {
        proof {
            lemma_bit_masks();
        }
        if is_bit_set(self.control, 2) {
            16
        } else {
            8
        }
    }

    /// LCDC bit 3: base address of the background tile map.
    pub fn bg_map_area(&self) -> (r: u16)
        ensures
            r == if self.control & 8 != 0 {
                0x9C00u16
            } else {
                0x9800u16
            },
    {
        proof {
            lemma_bit_masks();
        }
        if is_bit_set(self.control, 3) {
            0x9C00
        } else {
            0x9800
        }
    }

    /// LCDC bit 4: base address of the background and window tile data.
    pub fn bgw_data_area(&self) -> (r: u16)
        ensures
            r == if self.control & 16 != 0 {
                0x8000u16
            } else {
                0x8800u16
            },
    {
        proof {
            lemma_bit_masks();
        }
        if is_bit_set(self.control, 4) {
            0x8000
        } else {
            0x8800
        }
    }

    /// LCDC bit 5: window enable.
    pub fn win_enable(&self) -> (r: bool)
        ensures
            r == (self.control & 32 != 0),
    {
        proof {
            lemma_bit_masks();
        }
        is_bit_set(self.control, 5)
    }

    /// LCDC bit 6: base address of the window tile map.
    pub fn win_map_area(&self) -> (r: u16)
        ensures
            r == if self.control & 64 != 0 {
                0x9C00u16
            } else {
                0x9800u16
            },
    {
        proof {
            lemma_bit_masks();
        }
        if is_bit_set(self.control, 6) {
            0x9C00
        } else {
            0x9800
        }
    }

    /// LCDC bit 7: LCD enable.
    pub fn lcd_enable(&self) -> (r: bool)
        ensures
            r == (self.control & 128 != 0),
    {
        proof {
            lemma_bit_masks();
        }
        is_bit_set(self.control, 7)
    }

    /// The mode currently encoded in STAT.
    pub fn mode(&self) -> (r: LcdMode)
        ensures
            r == spec_mode_of(self.status),
    {
        let low = self.status & 3;
        if low == 0 {
            LcdMode::HBlank
        } else if low == 1 {
            LcdMode::VBlank
        } else if low == 2 {
            LcdMode::SearchingOam
        } else {
            LcdMode::TransferingData
        }
    }

    /// Encodes `mode` into the low two bits of STAT, keeping the rest.
    pub fn set_mode(&mut self, mode: LcdMode)
        ensures
            *final(self) == (Lcd {
                status: ((old(self).status & 0xFC) | mode.spec_status_bits()) as u8,
                ..*old(self)
            }),
    {
        self.status = self.status & 0xFC;
        self.status = self.status | mode.toStatusBit();
    }

    /// STAT bit 2: the LY = LYC coincidence flag.
    pub fn lyc(&self) -> (r: bool)
        ensures
            r == (self.status & 4 != 0),
    {
        proof {
            lemma_bit_masks();
        }
        is_bit_set(self.status, 2)
    }

    /// Raises the coincidence flag when `value` is true; a false value
    /// leaves STAT unchanged.
    pub fn set_lyc(&mut self, value: bool)
        ensures
            value ==> *final(self) == (Lcd { status: (old(self).status | 4) as u8, ..*old(self) }),
            !value ==> *final(self) == *old(self),
    {
        proof {
            lemma_bit_masks();
        }
        self.status = set_bit(self.status, 2, value);
    }

    /// Writes one palette register; the object palettes mask off their two
    /// low bits, whose color is transparent.
    pub fn update_palette(&mut self, value: u8, palette: Palette)
        ensures
            *final(self) == match palette {
                Palette::Background => (Lcd { bg_palette: value, ..*old(self) }),
                Palette::Obj0 => (Lcd { obj_palette_0: (value & 0xFC) as u8, ..*old(self) }),
                Palette::Obj1 => (Lcd { obj_palette_1: (value & 0xFC) as u8, ..*old(self) }),
            },
    {
        match palette {
            Palette::Background => self.bg_palette = value,
            Palette::Obj0 => self.obj_palette_0 = value & 0xFC,
            Palette::Obj1 => self.obj_palette_1 = value & 0xFC,
        }
    }
}

} // verus!
