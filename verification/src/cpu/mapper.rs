//! Vocabulary for cartridge mappers: where a CPU address lands on the cartridge.
use vstd::prelude::*;

verus! {

/// Target of a mapped read, with the offset inside the target.
#[derive(Debug, Eq, PartialEq, Structural, Clone, Copy)]
pub enum MappedRead {
    PrgRom(u16),
    PrgRam(u16),
    ChrRom(u16),
    ChrRam(u16),
}

/// Target of a mapped write, with the offset inside the target.
#[derive(Debug, Eq, PartialEq, Structural, Clone, Copy)]
pub enum MappedWrite {
    PrgRom(u16),
    PrgRam(u16),
    ChrRom(u16),
    ChrRam(u16),
}

/// A bank-switching scheme. The bus itself is wired for mapper 0 and uses none.
pub trait Mapper {
    fn cpu_read(addr: u16) -> Option<MappedRead>;

    fn cpu_write(addr: u16);
}

} // verus!
