//! iNES cartridge image parsing.
use vstd::prelude::*;

verus! {

/// Nametable mirroring mode of a cartridge.
#[derive(Debug, Clone, Copy, PartialEq, Eq, Structural)]
pub enum Mirroring {
    Horizontal,
    Vertical,
    FourScreen,
    SingleScreenLower,
    SingleScreenUpper,
}

/// A parsed iNES cartridge image.
#[derive(Debug)]
pub struct INesRom {
    pub prg_rom: Vec<u8>,
    pub chr_rom: Vec<u8>,
    pub mapper: u8,
    pub mirroring: Mirroring,
    pub has_battery: bool,
}

/// Why an iNES image was rejected.
#[derive(Debug, Clone, Copy, PartialEq, Eq, Structural)]
pub enum InesError {
    /// Shorter than a header, or without the `NES\x1A` magic.
    NotInes,
    /// The header announces more PRG/CHR data than the image holds.
    TooShort { expected: usize, actual: usize },
}

/// The image starts with a full 16-byte header carrying the `NES\x1A` magic.
pub open spec fn has_ines_header(b: Seq<u8>) -> bool {
    &&& b.len() >= 16
    &&& b[0] == 0x4E && b[1] == 0x45 && b[2] == 0x53 && b[3] == 0x1A
}

/// Offset of PRG-ROM: after the header and the optional 512-byte trainer.
pub open spec fn prg_start(b: Seq<u8>) -> int {
    16 + if b[6] & 0x04 != 0 { 512int } else { 0int }
}

pub open spec fn prg_len(b: Seq<u8>) -> int {
    b[4] as int * 16384
}

pub open spec fn chr_start(b: Seq<u8>) -> int {
    prg_start(b) + prg_len(b)
}

pub open spec fn chr_len(b: Seq<u8>) -> int {
    b[5] as int * 8192
}

/// Bytes the header says the whole image needs.
pub open spec fn image_len(b: Seq<u8>) -> int {
    chr_start(b) + chr_len(b)
}

/// Mirroring selected by flags 6: four-screen wins over vertical.
pub open spec fn mirroring_of(flags6: u8) -> Mirroring {
    if flags6 & 0x08 != 0 {
        Mirroring::FourScreen
    } else if flags6 & 0x01 != 0 {
        Mirroring::Vertical
    } else {
        Mirroring::Horizontal
    }
}

/// Mapper number: low nibble from flags 6, high nibble from flags 7.
pub open spec fn mapper_of(flags6: u8, flags7: u8) -> u8 {
    (flags6 >> 4u8) | (flags7 & 0xF0)
}

fn copy_range(bytes: &[u8], start: usize, end: usize) -> (r: Vec<u8>)
    requires
        start <= end <= bytes@.len(),
    ensures
        r@ == bytes@.subrange(start as int, end as int),
{
    let mut v: Vec<u8> = Vec::new();
    let mut i = start;
    while i < end
        invariant
            start <= i <= end <= bytes@.len(),
            v@ == bytes@.subrange(start as int, i as int),
        decreases end - i,
    {
        v.push(bytes[i]);
        i = i + 1;
        assert(v@ == bytes@.subrange(start as int, i as int));
    }
    v
}

impl INesRom {
    /// Parse an iNES image held in memory.
    pub fn parse(bytes: &[u8]) -> (r: Result<INesRom, InesError>)
        ensures
            !has_ines_header(bytes@) ==> r == Err::<INesRom, InesError>(InesError::NotInes),
            has_ines_header(bytes@) && bytes@.len() < image_len(bytes@) ==> r
                == Err::<INesRom, InesError>(
                InesError::TooShort {
                    expected: image_len(bytes@) as usize,
                    actual: bytes@.len() as usize,
                },
            ),
            r is Ok <==> has_ines_header(bytes@) && bytes@.len() >= image_len(bytes@),
            r matches Ok(rom) ==> {
                let b = bytes@;
                &&& rom.prg_rom@ == b.subrange(prg_start(b), chr_start(b))
                &&& rom.chr_rom@ == b.subrange(chr_start(b), image_len(b))
                &&& rom.mapper == mapper_of(b[6], b[7])
                &&& rom.mirroring == mirroring_of(b[6])
                &&& rom.has_battery == (b[6] & 0x02 != 0)
            },
    {
        if !(bytes.len() >= 16 && bytes[0] == 0x4E && bytes[1] == 0x45 && bytes[2] == 0x53
            && bytes[3] == 0x1A) {
            return Err(InesError::NotInes);
        }
        let prg_banks = bytes[4] as usize;
        let chr_banks = bytes[5] as usize;
        let flags6 = bytes[6];
        let flags7 = bytes[7];

        let has_trainer = flags6 & 0x04 != 0;
        let has_battery = flags6 & 0x02 != 0;

        let mirroring = if flags6 & 0x08 != 0 {
            Mirroring::FourScreen
        } else if flags6 & 0x01 != 0 {
            Mirroring::Vertical
        } else {
            Mirroring::Horizontal
        };

        let mapper = (flags6 >> 4) | (flags7 & 0xF0);

        let prg_start: usize = 16 + if has_trainer { 512 } else { 0 };
        let prg_len: usize = prg_banks * 16384;
        let chr_start: usize = prg_start + prg_len;
        let chr_len: usize = chr_banks * 8192;

        if bytes.len() < chr_start + chr_len {
            return Err(InesError::TooShort { expected: chr_start + chr_len, actual: bytes.len() });
        }
        let prg_rom = copy_range(bytes, prg_start, prg_start + prg_len);
        let chr_rom = copy_range(bytes, chr_start, chr_start + chr_len);
        Ok(INesRom { prg_rom, chr_rom, mapper, mirroring, has_battery })
    }
}

} // verus!
