use vstd::prelude::*;

verus! {

pub const CARRY: u8 = 0x01;
pub const ZERO_RESULT: u8 = 0x02;
pub const INTERRUPT_DISABLE: u8 = 0x04;
pub const DECIMAL_MODE: u8 = 0x08;
pub const BREAK_COMMAND: u8 = 0x10;
pub const EXPANSION: u8 = 0x20;
pub const OVERFLOW: u8 = 0x40;
pub const NEGATIVE_RESULT: u8 = 0x80;

/// `p` with the bits of `mask` set when `value` holds and cleared otherwise.
pub open spec fn with_flag(p: u8, mask: u8, value: bool) -> u8 {
    if value {
        p | mask
    } else {
        p & !mask
    }
}

/// `p` with Z and N describing the result `v`.
pub open spec fn with_zero_negative(p: u8, v: u8) -> u8 {
    with_flag(with_flag(p, ZERO_RESULT, v == 0), NEGATIVE_RESULT, v & 0x80 != 0)
}

pub fn update_flag(p: u8, mask: u8, value: bool) -> (r: u8)
    ensures
        r == with_flag(p, mask, value),
{
    if value {
        p | mask
    } else {
        p & !mask
    }
}

pub fn update_zero_negative(p: u8, v: u8) -> (r: u8)
    ensures
        r == with_zero_negative(p, v),
{
    let p = update_flag(p, ZERO_RESULT, v == 0);
    update_flag(p, NEGATIVE_RESULT, v & 0x80 != 0)
}

/// The processor status register P. The expansion bit (U) always reads as 1.
#[derive(Clone, Copy, Debug, PartialEq, Eq, Structural)]
pub struct StatusFlags {
    pub bits: u8,
}

impl StatusFlags {
    /// The register holding `x`, with the expansion bit forced on.
    pub open spec fn of_bits(x: u8) -> StatusFlags {
        StatusFlags { bits: x | EXPANSION }
    }

    pub fn from_bits(x: u8) -> (r: StatusFlags)
        ensures
            r == Self::of_bits(x),
            r.bits == x | EXPANSION,
    {
        StatusFlags { bits: x | EXPANSION }
    }

    pub fn bits(&self) -> (r: u8)
        ensures
            r == self.bits,
    {
        self.bits
    }

    pub fn contains(&self, mask: u8) -> (r: bool)
        ensures
            r == (self.bits & mask == mask),
    {
        self.bits & mask == mask
    }

    pub fn set(&mut self, mask: u8, value: bool)
        ensures
            final(self).bits == with_flag(old(self).bits, mask, value),
    {
        self.bits = update_flag(self.bits, mask, value);
    }
}

/// Reading a byte into the status register and back yields the byte with U set.
pub proof fn lemma_status_round_trip(x: u8)
    ensures
        StatusFlags::of_bits(x).bits == x | 0x20,
        StatusFlags::of_bits(StatusFlags::of_bits(x).bits) == StatusFlags::of_bits(x),
{
    assert((x | 0x20) | 0x20 == x | 0x20) by (bit_vector);
}

} // verus!
