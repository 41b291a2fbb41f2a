use vstd::prelude::*;

verus! {

/// PPUADDR ($2006): two writes, high byte then low byte, kept within 14 bits.
#[derive(Clone, Copy, Debug, PartialEq, Eq, Structural)]
pub struct PPUADDR {
    pub ll: u8,
    pub hh: u8,
    /// Set when the next write is the high byte.
    pub first_write: bool,
}

pub open spec fn join16(hh: u8, ll: u8) -> u16 {
    ((hh as u16) << 8u16) | (ll as u16)
}

proof fn lemma_split_join(v: u16)
    ensures
        join16((v >> 8u16) as u8, (v & 0xFF) as u8) == v,
{
    assert((((((v >> 8u16) as u8) as u16) << 8u16) | (((v & 0xFF) as u8) as u16)) == v)
        by (bit_vector);
}

impl PPUADDR {
    pub open spec fn value(self) -> u16 {
        join16(self.hh, self.ll)
    }

    /// The register holding `v`, its write toggle kept.
    pub open spec fn with_value(self, v: u16) -> PPUADDR {
        PPUADDR { hh: (v >> 8u16) as u8, ll: (v & 0xFF) as u8, first_write: self.first_write }
    }

    /// After a $2006 write of `data`.
    pub open spec fn updated(self, data: u8) -> PPUADDR {
        let joined = if self.first_write {
            join16(data, self.ll)
        } else {
            join16(self.hh, data)
        };
        PPUADDR { first_write: !self.first_write, ..self }.with_value(joined & 0x3FFF)
    }

    /// After the address moved on by `inc`.
    pub open spec fn incremented(self, inc: u8) -> PPUADDR {
        self.with_value(((self.value() as int + inc as int) % 0x10000) as u16 & 0x3FFF)
    }

    pub fn new() -> (r: Self)
        ensures
            r == (PPUADDR { ll: 0, hh: 0, first_write: true }),
            r.value() == 0,
    {
        let r = PPUADDR { ll: 0, hh: 0, first_write: true };
        assert(join16(0, 0) == 0) by (bit_vector);
        r
    }

    fn set(&mut self, value: u16)
        ensures
            *final(self) == old(self).with_value(value),
            final(self).value() == value,
    {
        self.hh = (value >> 8) as u8;
        self.ll = (value & 0xFF) as u8;
        proof {
            lemma_split_join(value);
        }
    }

    pub fn get(&self) -> (r: u16)
        ensures
            r == self.value(),
    {
        ((self.hh as u16) << 8) | self.ll as u16
    }

    pub fn reset(&mut self)
        ensures
            *final(self) == (PPUADDR { first_write: true, ..*old(self) }),
    {
        self.first_write = true;
    }

    /// The first write of a pair sets the high byte, the second the low
    /// byte; the address is then masked to 14 bits.
    pub fn update(&mut self, data: u8)
        ensures
            final(self).value() == (if old(self).first_write {
                join16(data, old(self).ll)
            } else {
                join16(old(self).hh, data)
            }) & 0x3FFF,
            *final(self) == old(self).updated(data),
    {
        if self.first_write {
            self.hh = data;
        } else {
            self.ll = data;
        }
        self.first_write = !self.first_write;
        let v = self.get();
        self.set(v & 0x3FFF);
    }

    /// Adds `inc` to the address, wrapping in 16 bits, then masks to 14 bits.
    pub fn increment(&mut self, inc: u8)
        ensures
            final(self).value() == ((old(self).value() as int + inc as int) % 0x10000) as u16 & 0x3FFF,
            *final(self) == old(self).incremented(inc),
    {
        let v = self.get().wrapping_add(inc as u16) & 0x3FFF;
        self.set(v);
    }
}

} // verus!
