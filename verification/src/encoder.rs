//! Expansion of a 24-bit wire word into the PWM duty-cycle descriptors that
//! the peripheral streams out, one per bit, MSB first.

use vstd::prelude::*;

verus! {

use crate::timing::{ticks_of, T0H_NS, T1H_NS};

/// Transmission-order bit `i` of the wire word `w`: bit 23 is sent first.
pub open spec fn spec_bit_at(w: u32, i: int) -> bool
    recommends
        0 <= i < 24,
{
    (w >> ((23 - i) as u32)) & 1 == 1
}

/// The duty-cycle descriptor handed to the PWM peripheral for one bit: the
/// bit's high time in ticks in the low 15 bits, plus the polarity-inversion
/// flag `0x8000` so that the output pin idles low.
pub open spec fn spec_descriptor(bit: bool) -> u16 {
    if bit {
        (0x8000 + ticks_of(T1H_NS)) as u16
    } else {
        (0x8000 + ticks_of(T0H_NS)) as u16
    }
}

/// Recover a bit from a descriptor: its high time equals the 1-bit high
/// time.  This is the decoding half of the encoder round trip.
pub open spec fn spec_decode_descriptor(d: u16) -> bool {
    d & 0x7fff == ticks_of(T1H_NS)
}

/// The numeric value of a bit string read MSB-first.
pub open spec fn spec_word_value(bits: Seq<bool>) -> int
    decreases bits.len(),
{
    if bits.len() == 0 {
        0
    } else {
        spec_word_value(bits.drop_last()) * 2 + (if bits.last() {
            1int
        } else {
            0int
        })
    }
}

/// Every descriptor has bit 15, the polarity-inversion flag, set, and its
/// low 15 bits are exactly the bit's high time in ticks.
pub proof fn lemma_descriptor_polarity(bit: bool)
    ensures
        spec_descriptor(bit) & 0x8000 == 0x8000,
        spec_descriptor(bit) & 0x7fff == ticks_of(
            if bit {
                T1H_NS
            } else {
                T0H_NS
            },
        ),
{
    assert(0x800cu16 & 0x8000 == 0x8000) by (bit_vector);
    assert(0x8006u16 & 0x8000 == 0x8000) by (bit_vector);
    assert(0x800cu16 & 0x7fff == 12) by (bit_vector);
    assert(0x8006u16 & 0x7fff == 6) by (bit_vector);
}

/// The two serializer back-ends agree: for either bit value, the high time
/// a PWM descriptor programs (its low 15 bits, in ticks) is exactly the
/// high interval a bit-banging serializer would hold the pin for, converted
/// to ticks.
pub proof fn lemma_backends_agree(bit: bool)
    ensures
        spec_descriptor(bit) & 0x7fff == ticks_of(crate::timing::spec_bit_intervals(bit).0),
{
    lemma_descriptor_polarity(bit);
}

/// Decoding inverts the descriptor table.
pub proof fn lemma_decode_descriptor(bit: bool)
    ensures
        spec_decode_descriptor(spec_descriptor(bit)) == bit,
{
    lemma_descriptor_polarity(bit);
}

/// The two-entry descriptor table: the entry for a 0 bit and for a 1 bit.
pub fn bit_descriptor(bit: bool) -> (d: u16)
    ensures
        d == spec_descriptor(bit),
        d & 0x8000 == 0x8000,
{
    proof {
        lemma_descriptor_polarity(bit);
    }
    if bit {
        0x800c
    } else {
        0x8006
    }
}

/// Expand a 24-bit wire word into its 24 pulse descriptors in transmission
/// order: descriptor `i` encodes bit `23 - i` of `w`.
pub fn encode_word(w: u32) -> (pulses: Vec<u16>)
    requires
        w < 0x100_0000,
    ensures
        pulses@.len() == 24,
        forall|i: int| 0 <= i < 24 ==> pulses@[i] == spec_descriptor(spec_bit_at(w, i)),
{
    let mut pulses: Vec<u16> = Vec::new();
    let mut i: usize = 0;
    while i < 24
        invariant
            i <= 24,
            pulses@.len() == i,
            forall|j: int| 0 <= j < i ==> pulses@[j] == spec_descriptor(spec_bit_at(w, j)),
        decreases 24 - i,
    {
        let bit: bool = (w >> ((23 - i) as u32)) & 1 == 1;
        pulses.push(bit_descriptor(bit));
        i = i + 1;
    }
    pulses
}

/// The value of the first `k` transmitted bits of `w` is `w` shifted right
/// by the bits not yet seen.
proof fn lemma_prefix_value(w: u32, bits: Seq<bool>, k: int)
    requires
        w < 0x100_0000,
        bits.len() == 24,
        forall|i: int| 0 <= i < 24 ==> bits[i] == spec_bit_at(w, i),
        0 <= k <= 24,
    ensures
        spec_word_value(bits.take(k)) == w >> ((24 - k) as u32),
    decreases k,
{
    if k == 0 {
        assert(bits.take(0).len() == 0);
        assert(w < 0x100_0000 ==> w >> 24u32 == 0) by (bit_vector);
    } else {
        lemma_prefix_value(w, bits, k - 1);
        let sh: u32 = (24 - k) as u32;
        let sh1: u32 = (25 - k) as u32;
        assert(bits.take(k).drop_last() =~= bits.take(k - 1));
        assert(bits.take(k).last() == bits[k - 1]);
        assert(bits[k - 1] == spec_bit_at(w, k - 1));
        assert((23 - (k - 1)) as u32 == sh);
        assert(sh < 24 && sh1 == sh + 1 ==> w >> sh == (w >> sh1) * 2 + ((w >> sh) & 1))
            by (bit_vector);
        assert((w >> sh) & 1 == 1 || (w >> sh) & 1 == 0) by (bit_vector);
    }
}

/// The encoder round trip: a descriptor sequence produced for the 24-bit
/// word `w` has length 24, and decoding each pulse's high time and reading
/// the bits MSB-first reproduces `w` exactly.
pub proof fn lemma_encoder_roundtrip(w: u32, pulses: Seq<u16>)
    requires
        w < 0x100_0000,
        pulses.len() == 24,
        forall|i: int| 0 <= i < 24 ==> pulses[i] == spec_descriptor(spec_bit_at(w, i)),
    ensures
        spec_word_value(pulses.map_values(|d: u16| spec_decode_descriptor(d))) == w,
{
    let bits = pulses.map_values(|d: u16| spec_decode_descriptor(d));
    assert(bits.len() == 24);
    assert forall|i: int| 0 <= i < 24 implies bits[i] == spec_bit_at(w, i) by {
        lemma_decode_descriptor(spec_bit_at(w, i));
    }
    lemma_prefix_value(w, bits, 24);
    assert(bits.take(24) =~= bits);
    assert(w >> 0u32 == w) by (bit_vector);
}

/// The encoding is injective: distinct 24-bit words never produce the same
/// descriptor sequence.  With the round trip this makes the encoder a
/// bijection onto its image.
pub proof fn lemma_encoder_injective(w1: u32, w2: u32, pulses: Seq<u16>)
    requires
        w1 < 0x100_0000,
        w2 < 0x100_0000,
        pulses.len() == 24,
        forall|i: int| 0 <= i < 24 ==> pulses[i] == spec_descriptor(spec_bit_at(w1, i)),
        forall|i: int| 0 <= i < 24 ==> pulses[i] == spec_descriptor(spec_bit_at(w2, i)),
    ensures
        w1 == w2,
{
    lemma_encoder_roundtrip(w1, pulses);
    lemma_encoder_roundtrip(w2, pulses);
}

} // verus!
