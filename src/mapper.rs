use vstd::prelude::*;

pub mod nrom;
pub mod uxrom;

use nrom::NROM;
use uxrom::UXROM;

verus! {

/// The cartridge-side circuit that turns CPU and PPU addresses into offsets
/// into PRG and CHR memory.
pub trait Mapper: Sized {
    /// Offset into PRG memory for a CPU address in 0x8000..=0xFFFF.
    spec fn prg_offset(&self, address: u16) -> u32;

    /// The mapper after the CPU wrote `value` into cartridge space.
    spec fn after_select(&self, value: u8) -> Self;

    fn map_prg(&self, address: u16) -> (r: u32)
        requires
            0x8000 <= address,
        ensures
            r == self.prg_offset(address),
    ;

    fn map_chr(&self, address: u16) -> (r: u32)
        ensures
            r == address as u32,
    ;

    fn bank_select(&mut self, value: u8)
        ensures
            *final(self) == old(self).after_select(value),
    ;
}

/// The mappers this emulator supports, so that a cartridge can hold either.
#[derive(Clone, Copy, Debug, PartialEq, Eq, Structural)]
pub enum MapperChip {
    Nrom(NROM),
    Uxrom(UXROM),
}

impl Mapper for MapperChip {
    open spec fn prg_offset(&self, address: u16) -> u32 {
        match self {
            MapperChip::Nrom(m) => m.prg_offset(address),
            MapperChip::Uxrom(m) => m.prg_offset(address),
        }
    }

    open spec fn after_select(&self, value: u8) -> Self {
        match self {
            MapperChip::Nrom(m) => MapperChip::Nrom(m.after_select(value)),
            MapperChip::Uxrom(m) => MapperChip::Uxrom(m.after_select(value)),
        }
    }

    fn map_prg(&self, address: u16) -> (r: u32) {
        match self {
            MapperChip::Nrom(m) => m.map_prg(address),
            MapperChip::Uxrom(m) => m.map_prg(address),
        }
    }

    fn map_chr(&self, address: u16) -> (r: u32) {
        match self {
            MapperChip::Nrom(m) => m.map_chr(address),
            MapperChip::Uxrom(m) => m.map_chr(address),
        }
    }

    fn bank_select(&mut self, value: u8) {
        match self {
            MapperChip::Nrom(m) => m.bank_select(value),
            MapperChip::Uxrom(m) => m.bank_select(value),
        }
    }
}

} // verus!
