use vstd::prelude::*;

use super::Mapper;

verus! {

/// Mapper 0: PRG is mapped straight from 0x8000, CHR from 0.
#[derive(Clone, Copy, Debug, PartialEq, Eq, Structural)]
pub struct NROM {}

impl NROM {
    pub fn new() -> (r: Self) {
        NROM {  }
    }
}

impl Mapper for NROM {
    open spec fn prg_offset(&self, address: u16) -> u32 {
        (address - 0x8000) as u32
    }

    open spec fn after_select(&self, value: u8) -> Self {
        *self
    }

    fn map_prg(&self, address: u16) -> (r: u32) {
        (address - 0x8000) as u32
    }

    fn map_chr(&self, address: u16) -> (r: u32) {
        address as u32
    }

    fn bank_select(&mut self, value: u8) {
    }
}

} // verus!
