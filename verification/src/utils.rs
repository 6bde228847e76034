//! Nibble decoding and bounds checking.

use vstd::prelude::*;

verus! {

/// The upper four bits of a byte.
pub open spec fn high_nibble(byte: u8) -> u8 {
    byte / 16
}

/// The lower four bits of a byte.
pub open spec fn low_nibble(byte: u8) -> u8 {
    byte % 16
}

/// Splits the two bytes of an instruction into its four nibbles, most
/// significant first.
pub fn nibble_split(bytes: &[u8]) -> (nibbles: (u8, u8, u8, u8))
    requires
        bytes@.len() == 2,
    ensures
        nibbles.0 == high_nibble(bytes@[0]),
        nibbles.1 == low_nibble(bytes@[0]),
        nibbles.2 == high_nibble(bytes@[1]),
        nibbles.3 == low_nibble(bytes@[1]),
{
    let hi: u8 = bytes[0];
    let lo: u8 = bytes[1];
    assert((hi & 0xF0) >> 4 == hi / 16) by (bit_vector);
    assert(hi & 0x0F == hi % 16) by (bit_vector);
    assert((lo & 0xF0) >> 4 == lo / 16) by (bit_vector);
    assert(lo & 0x0F == lo % 16) by (bit_vector);
    ((hi & 0xF0) >> 4, hi & 0x0F, (lo & 0xF0) >> 4, lo & 0x0F)
}

/// Whether the point `(x, y)` lies in a grid of the given width and height.
pub fn bounds_check(x: usize, y: usize, width: usize, height: usize) -> (inside: bool)
    ensures
        inside == (x < width && y < height),
{
    x < width && y < height
}

} // verus!
