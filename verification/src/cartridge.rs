//! The cartridge: a read-only ROM image with its parsed header. Only the
//! ROM-only mapper is supported; writes into the ROM range are ignored, and
//! reads past the image return 0, matching the hardware's silent faults.
use vstd::prelude::*;

verus! {

/// The mapper type from header byte 0x147. Only `RomOnly` is implemented;
/// anything else is carried as `MBC1` for diagnostics.
#[derive(PartialEq, Eq, Structural, Debug, Clone, Copy)]
pub enum MemoryBankController {
    RomOnly,
    MBC1,
}

/// Why an image was rejected: the header must be complete and its two size
/// bytes must be meaningful.
#[derive(PartialEq, Eq, Structural, Debug, Clone, Copy)]
pub enum CartridgeError {
    /// The image ends before the 0x150-byte header does.
    TruncatedHeader,
    /// Header byte 0x148 names a bank count over 128.
    InvalidRomSize,
    /// Header byte 0x149 is not one of the five defined codes.
    InvalidRamSize,
}

pub struct Cartridge {
    /// The raw image; the bus maps it read-only at 0x0000-0x7FFF.
    pub data: Vec<u8>,
    /// The title bytes from 0x134, up to 16, cut at the first NUL.
    pub title: Vec<u8>,
    pub mbc: MemoryBankController,
    /// From header byte 0x148: `1 << value` banks.
    pub rom_banks: u8,
    /// From header byte 0x149, through the defined code table.
    pub ram_banks: u8,
}

/// The title bytes: up to `len` bytes of `data` from `start`, cut at the
/// first NUL.
pub open spec fn spec_title(data: Seq<u8>, start: int, len: int) -> Seq<u8>
    decreases len,
{
    if len <= 0 || !(0 <= start < data.len()) {
        Seq::empty()
    } else if data[start] == 0 {
        Seq::empty()
    } else {
        seq![data[start]] + spec_title(data, start + 1, len - 1)
    }
}

/// The RAM bank count encoded by header byte 0x149.
pub open spec fn spec_ram_banks(code: u8) -> u8 {
    if code == 0 || code == 1 {
        0
    } else if code == 2 {
        1
    } else if code == 3 {
        4
    } else if code == 4 {
        16
    } else {
        8
    }
}

/// A read of the ROM image: bytes past its end read as 0.
pub open spec fn spec_cart_read(data: Seq<u8>, index: int) -> u8 {
    if 0 <= index < data.len() {
        data[index]
    } else {
        0
    }
}

/// Copies up to `length` bytes starting at `start_index`, stopping at the
/// first NUL.
fn read_string(data: &Vec<u8>, start_index: usize, length: usize) -> (r: Vec<u8>)
    requires
        start_index + length <= data@.len(),
    ensures
        r@ == spec_title(data@, start_index as int, length as int),
{
    let ghost full = spec_title(data@, start_index as int, length as int);
    let n = data.len();
    let mut r: Vec<u8> = Vec::new();
    let mut i: usize = 0;
    while i < length
        invariant
            i <= length,
            n == data@.len(),
            start_index + length <= n,
            full == r@ + spec_title(data@, start_index + i, length - i),
        ensures
            r@ == full,
        decreases length - i,
    {
        let byte = data[start_index + i];
        if byte == 0 {
            proof {
                assert(full =~= r@);
            }
            break ;
        }
        proof {
            assert(full =~= r@.push(byte) + spec_title(
                data@,
                start_index + i + 1,
                length - i - 1,
            ));
        }
        r.push(byte);
        i = i + 1;
    }
    r
}

impl Cartridge {
    /// Parses a raw image. The header must be complete (at least 0x150
    /// bytes) and the two size bytes meaningful; exactly then the cartridge
    /// is returned, carrying the image, the title, the mapper type and the
    /// decoded bank counts.
    pub fn from_bytes(data: Vec<u8>) -> (r: Result<Cartridge, CartridgeError>)
        ensures
            data@.len() < 0x150 ==> r == Err::<Cartridge, CartridgeError>(
                CartridgeError::TruncatedHeader,
            ),
            data@.len() >= 0x150 && data@[0x148] > 7 ==> r == Err::<Cartridge, CartridgeError>(
                CartridgeError::InvalidRomSize,
            ),
            data@.len() >= 0x150 && data@[0x148] <= 7 && data@[0x149] > 5 ==> r == Err::<
                Cartridge,
                CartridgeError,
            >(CartridgeError::InvalidRamSize),
            data@.len() >= 0x150 && data@[0x148] <= 7 && data@[0x149] <= 5 ==> (r matches Ok(c)
                && c.data@ == data@ && c.title@ == spec_title(data@, 0x134, 16) && c.mbc == (
            if data@[0x147] == 0 {
                MemoryBankController::RomOnly
            } else {
                MemoryBankController::MBC1
            }) && c.rom_banks == (1u8 << data@[0x148]) && c.ram_banks == spec_ram_banks(
                data@[0x149],
            )),
    {
        if data.len() < 0x150 {
            return Err(CartridgeError::TruncatedHeader);
        }
        let rom_code = data[0x148];
        if rom_code > 7 {
            return Err(CartridgeError::InvalidRomSize);
        }
        let ram_code = data[0x149];
        if ram_code > 5 {
            return Err(CartridgeError::InvalidRamSize);
        }
        let title = read_string(&data, 0x134, 16);
        let mbc = if data[0x147] == 0 {
            MemoryBankController::RomOnly
        } else {
            MemoryBankController::MBC1
        };
        let rom_banks = 1u8 << rom_code;
        let ram_banks = if ram_code == 0 || ram_code == 1 {
            0
        } else if ram_code == 2 {
            1
        } else if ram_code == 3 {
            4
        } else if ram_code == 4 {
            16
        } else {
            8
        };
        Ok(Cartridge { data, title, mbc, rom_banks, ram_banks })
    }

    /// Reads one ROM byte; out-of-range reads return 0.
    pub fn read(&self, index: usize) -> (r: u8)
        ensures
            r == spec_cart_read(self.data@, index as int),
    {
        if index < self.data.len() {
            self.data[index]
        } else {
            0
        }
    }

    /// A write routed to the mapper: the ROM-only mapper ignores it.
    pub fn write(&mut self, address: u16, data: u8)
        ensures
            *final(self) == *old(self),
    {
    }
}

} // verus!
