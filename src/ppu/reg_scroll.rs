use vstd::prelude::*;

verus! {

/// PPUSCROLL ($2005): two writes, X then Y.
#[derive(Clone, Copy, Debug, PartialEq, Eq, Structural)]
pub struct PPUSCROLL {
    pub scx: u8,
    pub scy: u8,
    /// Set when the next write is the second of the pair.
    pub write_latch: bool,
}

impl PPUSCROLL {
    /// After a $2005 write of `value`.
    pub open spec fn written(self, value: u8) -> PPUSCROLL {
        if self.write_latch {
            PPUSCROLL { scy: value, write_latch: false, ..self }
        } else {
            PPUSCROLL { scx: value, write_latch: true, ..self }
        }
    }

    pub fn new() -> (r: Self)
        ensures
            r.scx == 0,
            r.scy == 0,
            !r.write_latch,
    {
        PPUSCROLL { scx: 0, scy: 0, write_latch: false }
    }

    pub fn write_scroll(&mut self, value: u8)
        ensures
            final(self).scx == (if old(self).write_latch {
                old(self).scx
            } else {
                value
            }),
            final(self).scy == (if old(self).write_latch {
                value
            } else {
                old(self).scy
            }),
            final(self).write_latch == !old(self).write_latch,
            *final(self) == old(self).written(value),
    {
        if !self.write_latch {
            self.scx = value;
        } else {
            self.scy = value;
        }
        self.write_latch = !self.write_latch;
    }

    pub fn reset_scroll(&mut self)
        ensures
            *final(self) == (PPUSCROLL { write_latch: false, ..*old(self) }),
    {
        self.write_latch = false;
    }
}

} // verus!
