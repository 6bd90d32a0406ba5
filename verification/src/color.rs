//! The RGB color type and its packing into the 24-bit GRB wire word.

use vstd::prelude::*;

verus! {

/// One pixel: an RGB triple of 8-bit channels.
///
/// The WS2812 wire format sends the green channel first, so the wire word is
/// built in G, R, B order; see [`wire_word`].
#[derive(Clone, Copy, Debug, PartialEq, Eq, Structural)]
pub struct Rgb {
    pub r: u8,
    pub g: u8,
    pub b: u8,
}

/// The 24-bit word transmitted for a color: green in bits 23..16, red in
/// bits 15..8, blue in bits 7..0.
pub open spec fn spec_wire_word(c: Rgb) -> u32 {
    ((c.g as u32) << 16) | ((c.r as u32) << 8) | (c.b as u32)
}

/// Pack a color into its 24-bit GRB wire word.  Bit 23 of the result is
/// transmitted first.
pub fn wire_word(c: Rgb) -> (w: u32)
    ensures
        w == spec_wire_word(c),
        w < 0x100_0000,
{
    let w: u32 = ((c.g as u32) << 16) | ((c.r as u32) << 8) | (c.b as u32);
    proof {
        lemma_wire_word_bounded(c);
    }
    w
}

/// Every wire word fits in 24 bits.
pub proof fn lemma_wire_word_bounded(c: Rgb)
    ensures
        spec_wire_word(c) < 0x100_0000,
{
    let g = c.g;
    let r = c.r;
    let b = c.b;
    assert(((g as u32) << 16) | ((r as u32) << 8) | (b as u32) < 0x100_0000)
        by (bit_vector);
}

} // verus!
