use vstd::prelude::*;

use crate::flags::{set_bits, with_bits};

verus! {

/// PPUSTATUS ($2002), read-only.
///
/// bits 0-4: stale bus contents, bit 5: sprite overflow, bit 6: sprite 0
/// hit, bit 7: VBlank has started.
#[derive(Clone, Copy, Debug, PartialEq, Eq, Structural)]
pub struct PPUSTATUS {
    pub bits: u8,
}

pub const SPRITE_OVERFLOW: u8 = 0b0010_0000;

pub const SPRITE_ZERO_HIT: u8 = 0b0100_0000;

pub const VBLANK_STARTED: u8 = 0b1000_0000;

impl PPUSTATUS {
    pub open spec fn vblank(self) -> bool {
        self.bits & VBLANK_STARTED != 0
    }

    pub open spec fn sprite_zero_hit(self) -> bool {
        self.bits & SPRITE_ZERO_HIT != 0
    }

    pub open spec fn with(self, mask: u8, on: bool) -> PPUSTATUS {
        PPUSTATUS { bits: with_bits(self.bits, mask, on) }
    }

    pub fn new() -> (r: Self)
        ensures
            r.bits == 0,
    {
        PPUSTATUS { bits: 0 }
    }

    pub fn set_sprite_overflow(&mut self, status: bool)
        ensures
            *final(self) == old(self).with(SPRITE_OVERFLOW, status),
    {
        self.bits = set_bits(self.bits, SPRITE_OVERFLOW, status);
    }

    pub fn set_sprite_zero_hit(&mut self, status: bool)
        ensures
            *final(self) == old(self).with(SPRITE_ZERO_HIT, status),
    {
        self.bits = set_bits(self.bits, SPRITE_ZERO_HIT, status);
    }

    pub fn set_vblank_started(&mut self, status: bool)
        ensures
            *final(self) == old(self).with(VBLANK_STARTED, status),
    {
        self.bits = set_bits(self.bits, VBLANK_STARTED, status);
    }

    pub fn reset_vblank(&mut self)
        ensures
            *final(self) == old(self).with(VBLANK_STARTED, false),
            !final(self).vblank(),
    {
        let b = self.bits;
        assert((b & !0x80u8) & 0x80u8 == 0) by (bit_vector);
        self.bits = set_bits(self.bits, VBLANK_STARTED, false);
    }

    pub fn in_vblank(&self) -> (r: bool)
        ensures
            r == self.vblank(),
    {
        self.bits & VBLANK_STARTED != 0
    }

    pub fn get_bits(&self) -> (r: u8)
        ensures
            r == self.bits,
    {
        self.bits
    }
}

} // verus!
