use vstd::prelude::*;

verus! {

/// PPUCTRL ($2000), write-only.
///
/// bits 0-1: base nametable, bit 2: VRAM increment (1 or 32), bit 3: sprite
/// pattern table, bit 4: background pattern table, bit 5: sprite height,
/// bit 6: master/slave select, bit 7: NMI at the start of VBlank.
#[derive(Clone, Copy, Debug, PartialEq, Eq, Structural)]
pub struct PPUCTRL {
    pub bits: u8,
}

pub const NAMETABLE_1: u8 = 0b0000_0001;

pub const NAMETABLE_2: u8 = 0b0000_0010;

pub const VRAM_ADDR_INCREMENT: u8 = 0b0000_0100;

pub const SPRITE_PATTERN_TABLE_ADDR: u8 = 0b0000_1000;

pub const BACKGROUND_PATTERN_TABLE_ADDR: u8 = 0b0001_0000;

pub const SPRITE_SIZE: u8 = 0b0010_0000;

pub const PPU_MASTER_SLAVE_SELECT: u8 = 0b0100_0000;

pub const GENERATE_NMI: u8 = 0b1000_0000;

impl PPUCTRL {
    pub open spec fn nmi_enabled(self) -> bool {
        self.bits & GENERATE_NMI != 0
    }

    pub open spec fn increment_spec(self) -> u8 {
        if self.bits & VRAM_ADDR_INCREMENT != 0 {
            32
        } else {
            1
        }
    }

    pub open spec fn background_base(self) -> u16 {
        if self.bits & BACKGROUND_PATTERN_TABLE_ADDR != 0 {
            0x1000
        } else {
            0
        }
    }

    pub open spec fn sprite_base(self) -> u16 {
        if self.bits & SPRITE_PATTERN_TABLE_ADDR != 0 {
            0x1000
        } else {
            0
        }
    }

    pub open spec fn nametable_index(self) -> u8 {
        self.bits & 0b11
    }

    pub fn new() -> (r: Self)
        ensures
            r.bits == 0,
    {
        PPUCTRL { bits: 0 }
    }

    pub fn update(&mut self, value: u8)
        ensures
            final(self).bits == value,
    {
        self.bits = value;
    }

    pub fn generate_nmi(&self) -> (r: bool)
        ensures
            r == self.nmi_enabled(),
    {
        self.bits & GENERATE_NMI != 0
    }

    pub fn vram_addr_increment(&self) -> (r: u8)
        ensures
            r == self.increment_spec(),
    {
        if self.bits & VRAM_ADDR_INCREMENT != 0 {
            32
        } else {
            1
        }
    }

    pub fn sprite_pattern_table_address(&self) -> (r: u16)
        ensures
            r == self.sprite_base(),
    {
        if self.bits & SPRITE_PATTERN_TABLE_ADDR != 0 {
            0x1000
        } else {
            0
        }
    }

    pub fn background_pattern_table_address(&self) -> (r: u16)
        ensures
            r == self.background_base(),
    {
        if self.bits & BACKGROUND_PATTERN_TABLE_ADDR != 0 {
            0x1000
        } else {
            0
        }
    }

    pub fn sprite_size(&self) -> (r: u8)
        ensures
            r == (if self.bits & SPRITE_SIZE != 0 {
                16u8
            } else {
                8u8
            }),
    {
        if self.bits & SPRITE_SIZE != 0 {
            16
        } else {
            8
        }
    }

    /// First address of the base nametable: 0x2000, 0x2400, 0x2800 or 0x2C00.
    pub fn nametable_address(&self) -> (r: u16)
        ensures
            r == 0x2000 + 0x400 * self.nametable_index(),
    {
        let b = self.bits;
        let n = b & 0b11;
        assert(n <= 3) by (bit_vector)
            requires
                n == b & 0b11,
        ;
        0x2000 + 0x400 * (n as u16)
    }
}

} // verus!
