use vstd::prelude::*;

verus! {

/// PPUMASK ($2001), write-only.
///
/// bit 0: greyscale, bit 1: background in the leftmost 8 pixels, bit 2:
/// sprites in the leftmost 8 pixels, bit 3: background, bit 4: sprites,
/// bits 5-7: emphasize red, green, blue.
#[derive(Clone, Copy, Debug, PartialEq, Eq, Structural)]
pub struct PPUMASK {
    pub bits: u8,
}

pub const GREYSCALE: u8 = 0b0000_0001;

pub const SHOW_BACKGROUND_LEFTMOST: u8 = 0b0000_0010;

pub const SHOW_SPRITES_LEFTMOST: u8 = 0b0000_0100;

pub const SHOW_BACKGROUND: u8 = 0b0000_1000;

pub const SHOW_SPRITES: u8 = 0b0001_0000;

pub const EMPHASIZE_RED: u8 = 0b0010_0000;

pub const EMPHASIZE_GREEN: u8 = 0b0100_0000;

pub const EMPHASIZE_BLUE: u8 = 0b1000_0000;

#[derive(Clone, Copy, Debug, PartialEq, Eq, Structural)]
pub enum Colour {
    RED,
    GREEN,
    BLUE,
}

/// The emphasized colours, red first, then blue, then green.
pub open spec fn emphasis_of(bits: u8) -> Seq<Colour> {
    (if bits & EMPHASIZE_RED != 0 {
        seq![Colour::RED]
    } else {
        Seq::empty()
    }) + (if bits & EMPHASIZE_BLUE != 0 {
        seq![Colour::BLUE]
    } else {
        Seq::empty()
    }) + (if bits & EMPHASIZE_GREEN != 0 {
        seq![Colour::GREEN]
    } else {
        Seq::empty()
    })
}

impl PPUMASK {
    pub open spec fn shows_sprites(self) -> bool {
        self.bits & SHOW_SPRITES != 0
    }

    pub fn new() -> (r: Self)
        ensures
            r.bits == 0,
    {
        PPUMASK { bits: 0 }
    }

    pub fn is_greyscale_enabled(&self) -> (r: bool)
        ensures
            r == (self.bits & GREYSCALE != 0),
    {
        self.bits & GREYSCALE != 0
    }

    pub fn is_background_leftmost_enabled(&self) -> (r: bool)
        ensures
            r == (self.bits & SHOW_BACKGROUND_LEFTMOST != 0),
    {
        self.bits & SHOW_BACKGROUND_LEFTMOST != 0
    }

    pub fn is_sprite_leftmost_enabled(&self) -> (r: bool)
        ensures
            r == (self.bits & SHOW_SPRITES_LEFTMOST != 0),
    {
        self.bits & SHOW_SPRITES_LEFTMOST != 0
    }

    pub fn is_background_enabled(&self) -> (r: bool)
        ensures
            r == (self.bits & SHOW_BACKGROUND != 0),
    {
        self.bits & SHOW_BACKGROUND != 0
    }

    pub fn is_sprite_enabled(&self) -> (r: bool)
        ensures
            r == self.shows_sprites(),
    {
        self.bits & SHOW_SPRITES != 0
    }

    pub fn emphasize(&self) -> (r: Vec<Colour>)
        ensures
            r@ == emphasis_of(self.bits),
    {
        let mut colours: Vec<Colour> = Vec::new();
        if self.bits & EMPHASIZE_RED != 0 {
            colours.push(Colour::RED);
        }
        if self.bits & EMPHASIZE_BLUE != 0 {
            colours.push(Colour::BLUE);
        }
        if self.bits & EMPHASIZE_GREEN != 0 {
            colours.push(Colour::GREEN);
        }
        assert(colours@ =~= emphasis_of(self.bits));
        colours
    }

    pub fn update(&mut self, value: u8)
        ensures
            final(self).bits == value,
    {
        self.bits = value;
    }
}

} // verus!
