use vstd::prelude::*;

verus! {

/// `b` with the bits of `mask` set when `on`, cleared otherwise.
pub open spec fn with_bits(b: u8, mask: u8, on: bool) -> u8 {
    if on {
        b | mask
    } else {
        b & !mask
    }
}

pub fn set_bits(b: u8, mask: u8, on: bool) -> (r: u8)
    ensures
        r == with_bits(b, mask, on),
{
    if on {
        b | mask
    } else {
        b & !mask
    }
}

} // verus!
