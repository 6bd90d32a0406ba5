//! The per-frame view of a write: wire words and pulse descriptors for a
//! whole sequence of colors, in iterator order.

use vstd::prelude::*;

verus! {

use crate::color::{Rgb, spec_wire_word, wire_word};
use crate::encoder::{spec_bit_at, spec_descriptor, encode_word};

/// The 24 descriptors transmitted for one color.
pub open spec fn spec_color_pulses(c: Rgb) -> Seq<u16> {
    Seq::new(24, |i: int| spec_descriptor(spec_bit_at(spec_wire_word(c), i)))
}

/// The wire words of a frame, one per color, in order.
pub open spec fn spec_frame_words(colors: Seq<Rgb>) -> Seq<u32> {
    colors.map_values(|c: Rgb| spec_wire_word(c))
}

/// The full pulse stream of a frame: each color's 24 descriptors, colors in
/// iterator order.
pub open spec fn spec_frame_pulses(colors: Seq<Rgb>) -> Seq<u16>
    decreases colors.len(),
{
    if colors.len() == 0 {
        Seq::empty()
    } else {
        spec_color_pulses(colors.first()) + spec_frame_pulses(colors.drop_first())
    }
}

/// The descriptors for one color: its wire word expanded by the encoder.
/// This is the buffer the PWM back-end streams out over DMA.
pub fn encode_color(c: Rgb) -> (pulses: Vec<u16>)
    ensures
        pulses@ == spec_color_pulses(c),
{
    let w = wire_word(c);
    let pulses = encode_word(w);
    proof {
        assert(pulses@ =~= spec_color_pulses(c));
    }
    pulses
}

/// Compute every wire word of a frame, keeping iterator order.
pub fn frame_words(colors: &Vec<Rgb>) -> (words: Vec<u32>)
    ensures
        words@ == spec_frame_words(colors@),
        words@.len() == colors@.len(),
        forall|i: int| 0 <= i < colors@.len() ==> words@[i] == spec_wire_word(colors@[i]),
{
    let mut words: Vec<u32> = Vec::new();
    let mut i: usize = 0;
    while i < colors.len()
        invariant
            i <= colors@.len(),
            words@.len() == i,
            forall|j: int| 0 <= j < i ==> words@[j] == spec_wire_word(colors@[j]),
        decreases colors@.len() - i,
    {
        words.push(wire_word(colors[i]));
        i = i + 1;
    }
    proof {
        assert(words@ =~= spec_frame_words(colors@));
    }
    words
}

/// A frame of `n` colors is exactly `24 * n` pulses on the wire; an empty
/// write in particular emits nothing.
pub proof fn lemma_frame_pulse_count(colors: Seq<Rgb>)
    ensures
        spec_frame_pulses(colors).len() == 24 * colors.len(),
    decreases colors.len(),
{
    if colors.len() > 0 {
        lemma_frame_pulse_count(colors.drop_first());
    }
}

/// Writing an empty frame is a no-op on the wire: no wire words and no
/// pulses are produced.
pub proof fn lemma_empty_write(colors: Seq<Rgb>)
    requires
        colors.len() == 0,
    ensures
        spec_frame_pulses(colors) == Seq::<u16>::empty(),
        spec_frame_words(colors) == Seq::<u32>::empty(),
{
    assert(spec_frame_pulses(colors) =~= Seq::<u16>::empty());
    assert(spec_frame_words(colors) =~= Seq::<u32>::empty());
}

/// Colors are emitted in iterator order: within the frame's pulse stream,
/// color `i` occupies exactly the 24 descriptors starting at `24 * i`.
pub proof fn lemma_frame_pulse_layout(colors: Seq<Rgb>, i: int)
    requires
        0 <= i < colors.len(),
    ensures
        spec_frame_pulses(colors).subrange(24 * i, 24 * i + 24) == spec_color_pulses(
            colors[i],
        ),
    decreases i,
{
    lemma_frame_pulse_count(colors);
    lemma_frame_pulse_count(colors.drop_first());
    if i == 0 {
        assert(spec_frame_pulses(colors).subrange(0, 24) =~= spec_color_pulses(colors[0]));
    } else {
        lemma_frame_pulse_layout(colors.drop_first(), i - 1);
        assert(spec_frame_pulses(colors).subrange(24 * i, 24 * i + 24) =~= spec_frame_pulses(
            colors.drop_first(),
        ).subrange(24 * (i - 1), 24 * (i - 1) + 24));
        assert(colors.drop_first()[i - 1] == colors[i]);
    }
}

} // verus!
