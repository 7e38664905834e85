//! The iNES 1.0 cartridge image: header validation and the PRG/CHR banks.
use crate::bytes::copy_range;
use vstd::prelude::*;

verus! {

/// Length of the iNES header.
pub const HEADER_LENGTH: usize = 16;

/// Size of one PRG ROM bank.
pub const PRG_ROM_PAGE_SIZE: usize = 16384;

/// Size of one CHR ROM bank.
pub const CHR_ROM_PAGE_SIZE: usize = 8192;

/// Length of the optional trainer block between header and PRG ROM.
pub const TRAINER_LENGTH: usize = 512;

/// How the two physical nametables are mapped onto the four logical quadrants.
#[derive(Clone, Copy, PartialEq, Eq, Structural, Debug)]
pub enum Mirroring {
    Vertical,
    Horizontal,
    FourScreen,
}

/// Why an image was rejected.
#[derive(Clone, Copy, PartialEq, Eq, Structural, Debug)]
pub enum CartridgeError {
    /// The image does not start with `N`, `E`, `S`, `0x1A`.
    BadMagic,
    /// The header's version field (bits 2-3 of byte 7) is not zero; the field is carried.
    UnsupportedVersion(u8),
    /// The image is shorter than its header, or than the banks its header announces.
    Truncated,
}

impl CartridgeError {
    /// The text that tells a user what is wrong with the image.
    pub open spec fn message_text(self) -> Seq<char> {
        match self {
            CartridgeError::BadMagic => "FILE IS NOT AN iNES ROM"@,
            CartridgeError::UnsupportedVersion(version) => if version == 2 {
                "iNES VERSION 2 IS NOT SUPPORTED"@
            } else {
                "UNSUPPORTED iNES VERSION DETECTED"@
            },
            CartridgeError::Truncated => "FILE ENDS BEFORE ITS ROM BANKS"@,
        }
    }

    /// The text that tells a user what is wrong with the image.
    pub fn message(&self) -> (text: &'static str)
        ensures
            text@ == self.message_text(),
    {
        match self {
            CartridgeError::BadMagic => "FILE IS NOT AN iNES ROM",
            CartridgeError::UnsupportedVersion(version) => if *version == 2 {
                "iNES VERSION 2 IS NOT SUPPORTED"
            } else {
                "UNSUPPORTED iNES VERSION DETECTED"
            },
            CartridgeError::Truncated => "FILE ENDS BEFORE ITS ROM BANKS",
        }
    }
}

/// A loaded cartridge. Nothing changes it after loading.
pub struct Cartridge {
    pub prg_rom: Vec<u8>,
    pub chr_rom: Vec<u8>,
    pub mapper: u8,
    pub mirroring: Mirroring,
}

/// The mathematical content of a [`Cartridge`].
pub struct CartridgeView {
    pub prg_rom: Seq<u8>,
    pub chr_rom: Seq<u8>,
    pub mapper: u8,
    pub mirroring: Mirroring,
}

impl View for Cartridge {
    type V = CartridgeView;

    open spec fn view(&self) -> CartridgeView {
        CartridgeView {
            prg_rom: self.prg_rom@,
            chr_rom: self.chr_rom@,
            mapper: self.mapper,
            mirroring: self.mirroring,
        }
    }
}

/// The image starts with the four magic bytes.
pub open spec fn has_magic(bytes: Seq<u8>) -> bool {
    &&& bytes.len() >= 4
    &&& bytes[0] == 0x4E
    &&& bytes[1] == 0x45
    &&& bytes[2] == 0x53
    &&& bytes[3] == 0x1A
}

/// The version field of the header: bits 2 and 3 of byte 7.
pub open spec fn ines_version(bytes: Seq<u8>) -> u8
    recommends
        bytes.len() >= HEADER_LENGTH,
{
    (bytes[7] >> 2) & 0x03
}

/// The mapper number: high nibble from byte 7, low nibble from the top of byte 6.
pub open spec fn mapper_number(bytes: Seq<u8>) -> u8
    recommends
        bytes.len() >= HEADER_LENGTH,
{
    (bytes[7] & 0xF0) | (bytes[6] >> 4)
}

/// The mirroring that byte 6 selects: bit 3 means four-screen and wins over bit 0,
/// which tells vertical from horizontal.
pub open spec fn header_mirroring(bytes: Seq<u8>) -> Mirroring
    recommends
        bytes.len() >= HEADER_LENGTH,
{
    if bytes[6] & 0x08 != 0 {
        Mirroring::FourScreen
    } else if bytes[6] & 0x01 != 0 {
        Mirroring::Vertical
    } else {
        Mirroring::Horizontal
    }
}

/// Where PRG ROM starts: after the header and, if bit 2 of byte 6 is set, the trainer.
pub open spec fn prg_start(bytes: Seq<u8>) -> int
    recommends
        bytes.len() >= HEADER_LENGTH,
{
    if bytes[6] & 0x04 != 0 {
        HEADER_LENGTH + TRAINER_LENGTH
    } else {
        HEADER_LENGTH as int
    }
}

/// Length of PRG ROM: byte 4 counts banks of 16 KiB.
pub open spec fn prg_length(bytes: Seq<u8>) -> int
    recommends
        bytes.len() >= HEADER_LENGTH,
{
    bytes[4] * PRG_ROM_PAGE_SIZE
}

/// Length of CHR ROM: byte 5 counts banks of 8 KiB.
pub open spec fn chr_length(bytes: Seq<u8>) -> int
    recommends
        bytes.len() >= HEADER_LENGTH,
{
    bytes[5] * CHR_ROM_PAGE_SIZE
}

/// Where CHR ROM starts: right behind PRG ROM.
pub open spec fn chr_start(bytes: Seq<u8>) -> int
    recommends
        bytes.len() >= HEADER_LENGTH,
{
    prg_start(bytes) + prg_length(bytes)
}

/// What loading an image gives: the cartridge, or the first reason to reject it.
///
/// The checks come in this order: the magic bytes, the header's length, the
/// version field, the length of the banks.
pub open spec fn parse(bytes: Seq<u8>) -> Result<CartridgeView, CartridgeError> {
    if !has_magic(bytes) {
        Err(CartridgeError::BadMagic)
    } else if bytes.len() < HEADER_LENGTH {
        Err(CartridgeError::Truncated)
    } else if ines_version(bytes) != 0 {
        Err(CartridgeError::UnsupportedVersion(ines_version(bytes)))
    } else if bytes.len() < chr_start(bytes) + chr_length(bytes) {
        Err(CartridgeError::Truncated)
    } else {
        Ok(
            CartridgeView {
                prg_rom: bytes.subrange(prg_start(bytes), chr_start(bytes)),
                chr_rom: bytes.subrange(chr_start(bytes), chr_start(bytes) + chr_length(bytes)),
                mapper: mapper_number(bytes),
                mirroring: header_mirroring(bytes),
            },
        )
    }
}

impl Cartridge {
    /// Loads a cartridge from the bytes of an iNES 1.0 image.
    pub fn new(bytes: &Vec<u8>) -> (result: Result<Cartridge, CartridgeError>)
        ensures
            match result {
                Ok(cartridge) => parse(bytes@) == Ok::<CartridgeView, CartridgeError>(cartridge@),
                Err(error) => parse(bytes@) == Err::<CartridgeView, CartridgeError>(error),
            },
    {
        if bytes.len() < 4 || bytes[0] != 0x4E || bytes[1] != 0x45 || bytes[2] != 0x53 || bytes[3]
            != 0x1A {
            return Err(CartridgeError::BadMagic);
        }
        if bytes.len() < HEADER_LENGTH {
            return Err(CartridgeError::Truncated);
        }
        let mapper: u8 = (bytes[7] & 0xF0) | (bytes[6] >> 4);
        let version: u8 = (bytes[7] >> 2) & 0x03;
        if version != 0 {
            return Err(CartridgeError::UnsupportedVersion(version));
        }
        let mirroring = if bytes[6] & 0x08 != 0 {
            Mirroring::FourScreen
        } else if bytes[6] & 0x01 != 0 {
            Mirroring::Vertical
        } else {
            Mirroring::Horizontal
        };
        let prg_rom_length: usize = bytes[4] as usize * PRG_ROM_PAGE_SIZE;
        let chr_rom_length: usize = bytes[5] as usize * CHR_ROM_PAGE_SIZE;
        let trainer_length: usize = if bytes[6] & 0x04 != 0 {
            TRAINER_LENGTH
        } else {
            0
        };
        let prg_rom_start: usize = HEADER_LENGTH + trainer_length;
        let chr_rom_start: usize = prg_rom_start + prg_rom_length;
        if bytes.len() < chr_rom_start + chr_rom_length {
            return Err(CartridgeError::Truncated);
        }
        let prg_rom = copy_range(bytes, prg_rom_start, prg_rom_length);
        let chr_rom = copy_range(bytes, chr_rom_start, chr_rom_length);
        Ok(Cartridge { prg_rom, chr_rom, mapper, mirroring })
    }
}

} // verus!
