//! Core of a Game Boy (DMG) emulator: a cycle-stepped CPU for the Sharp
//! LR35902 instruction set, driven against a memory-mapped bus that owns the
//! timer, interrupt controller, DMA engine, LCD registers and RAM regions.
mod helper;
pub mod bus;
pub mod cartridge;
pub mod cpu;
pub mod decode;
pub mod dma;
pub mod instruction;
pub mod interrupts;
pub mod lcd;
pub mod oam;
pub mod registers;
pub mod timer;

pub use helper::combine_to_u16;
pub use helper::is_bit_set;
pub use helper::set_bit;
pub use helper::split_u16;
pub use helper::split_u32;
