use vstd::prelude::*;

use super::Mapper;

verus! {

/// Mapper 2: 0x8000..0xBFFF shows a switchable 16 KiB bank, 0xC000..0xFFFF
/// is fixed to the last bank.
#[derive(Clone, Copy, Debug, PartialEq, Eq, Structural)]
pub struct UXROM {
    pub bank_select_register: u8,
    pub prg_banks: u8,
}

impl UXROM {
    pub open spec fn selected_bank(&self) -> u8 {
        self.bank_select_register
    }

    pub open spec fn bank_count(&self) -> u8 {
        self.prg_banks
    }

    /// The bank shown at 0xC000..0xFFFF (bank 0 when the cartridge has none).
    pub open spec fn last_bank(&self) -> u8 {
        if self.prg_banks == 0 {
            0
        } else {
            (self.prg_banks - 1) as u8
        }
    }

    pub fn new(banks: u8) -> (r: Self)
        ensures
            r.selected_bank() == 0,
            r.bank_count() == banks,
    {
        UXROM { bank_select_register: 0x00, prg_banks: banks }
    }
}

impl Mapper for UXROM {
    open spec fn prg_offset(&self, address: u16) -> u32 {
        let bank: u32 = if address < 0xC000 {
            self.bank_select_register as u32
        } else {
            self.last_bank() as u32
        };
        (0x4000 * bank + (address & 0x3FFF) as u32) as u32
    }

    open spec fn after_select(&self, value: u8) -> Self {
        UXROM { bank_select_register: value & 0x0F, ..*self }
    }

    fn map_prg(&self, address: u16) -> (r: u32) {
        let bank: u32 = if address < 0xC000 {
            self.bank_select_register as u32
        } else if self.prg_banks == 0 {
            0
        } else {
            (self.prg_banks - 1) as u32
        };
        let low = address & 0x3FFF;
        assert(low <= 0x3FFF) by (bit_vector)
            requires
                low == address & 0x3FFF,
        ;
        0x4000 * bank + low as u32
    }

    fn map_chr(&self, address: u16) -> (r: u32) {
        address as u32
    }

    fn bank_select(&mut self, value: u8) {
        self.bank_select_register = value & 0x0F;
    }
}

} // verus!
