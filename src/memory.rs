use vstd::prelude::*;

verus! {

/// A 16-bit address space as seen by the CPU. Reads have no side effects;
/// what a store does is described by `poke` on the model of the device.
pub trait Memory {
    type Model;

    spec fn model(&self) -> Self::Model;

    /// The device's own well-formedness, kept by every store.
    spec fn inv(&self) -> bool;

    /// What a read of `address` returns in state `m`.
    spec fn peek(m: Self::Model, address: u16) -> u8;

    /// The state after `value` is stored at `address` in state `m`.
    spec fn poke(m: Self::Model, address: u16, value: u8) -> Self::Model;

    fn load_byte(&self, address: u16) -> (r: u8)
        requires
            self.inv(),
        ensures
            r == Self::peek(self.model(), address),
    ;

    fn store_byte(&mut self, address: u16, value: u8)
        requires
            old(self).inv(),
        ensures
            final(self).inv(),
            final(self).model() == Self::poke(old(self).model(), address, value),
    ;
}

/// `x` reduced to 16 bits.
pub open spec fn wrap16(x: int) -> u16 {
    (x % 0x10000) as u16
}

/// `x` reduced to 8 bits.
pub open spec fn wrap8(x: int) -> u8 {
    (x % 0x100) as u8
}

/// The little-endian word with bytes `lo` and `hi`.
pub open spec fn word(lo: u8, hi: u8) -> u16 {
    (hi as int * 0x100 + lo as int) as u16
}

pub open spec fn low_byte(w: u16) -> u8 {
    (w % 0x100) as u8
}

pub open spec fn high_byte(w: u16) -> u8 {
    (w / 0x100) as u8
}

/// Whether two addresses lie on the same 256-byte page.
pub open spec fn same_page(a: u16, b: u16) -> bool {
    a / 0x100 == b / 0x100
}

pub fn add16(a: u16, b: u16) -> (r: u16)
    ensures
        r == wrap16(a + b),
{
    a.wrapping_add(b)
}

pub fn add8(a: u8, b: u8) -> (r: u8)
    ensures
        r == wrap8(a + b),
{
    a.wrapping_add(b)
}

pub fn sub8(a: u8, b: u8) -> (r: u8)
    ensures
        r == wrap8(a - b),
{
    a.wrapping_sub(b)
}

pub fn make_word(lo: u8, hi: u8) -> (r: u16)
    ensures
        r == word(lo, hi),
{
    (hi as u16) * 0x100 + lo as u16
}

pub fn split_word(w: u16) -> (r: (u8, u8))
    ensures
        r == (low_byte(w), high_byte(w)),
{
    ((w % 0x100) as u8, (w / 0x100) as u8)
}

pub fn mem_pages_same(m1: u16, m2: u16) -> (r: bool)
    ensures
        r == same_page(m1, m2),
{
    m1 / 0x100 == m2 / 0x100
}

} // verus!
