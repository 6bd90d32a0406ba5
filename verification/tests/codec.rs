use ws2812_nrf52833_pwm::color::Rgb;
use ws2812_nrf52833_pwm::color::wire_word;
use ws2812_nrf52833_pwm::encoder::{bit_descriptor, encode_word};
use ws2812_nrf52833_pwm::frame::{encode_color, frame_words};
use ws2812_nrf52833_pwm::timing::{bit_intervals_ns, to_ticks, PWM_PERIOD, RESET_US};

/// Decode a pulse descriptor back to its bit by comparing the high time
/// against the 1-bit high time of 12 ticks.
fn decode_pulse(d: u16) -> bool {
    (d & 0x7fff) == 12
}

/// Reassemble a word from a descriptor sequence, MSB first.
fn decode_word(pulses: &[u16]) -> u32 {
    let mut w: u32 = 0;
    for &d in pulses {
        w = (w << 1) | (if decode_pulse(d) { 1 } else { 0 });
    }
    w
}

#[test]
fn ticks_at_16_mhz() {
    assert_eq!(to_ticks(400), 6);
    assert_eq!(to_ticks(800), 12);
    assert_eq!(to_ticks(1250), 20);
    assert_eq!(PWM_PERIOD, 20);
}

#[test]
fn reset_gap_covers_datasheet_minimum() {
    assert!(RESET_US >= 50);
}

#[test]
fn wire_word_test_vectors() {
    assert_eq!(wire_word(Rgb { r: 0, g: 0, b: 0 }), 0x000000);
    assert_eq!(wire_word(Rgb { r: 255, g: 0, b: 0 }), 0x00FF00);
    assert_eq!(wire_word(Rgb { r: 0, g: 255, b: 0 }), 0xFF0000);
    assert_eq!(wire_word(Rgb { r: 0, g: 0, b: 255 }), 0x0000FF);
    assert_eq!(wire_word(Rgb { r: 1, g: 2, b: 3 }), 0x020103);
}

#[test]
fn descriptors_carry_polarity_flag() {
    assert_eq!(bit_descriptor(false), 0x8006);
    assert_eq!(bit_descriptor(true), 0x800C);
    assert_ne!(bit_descriptor(false) & 0x8000, 0);
    assert_ne!(bit_descriptor(true) & 0x8000, 0);
}

#[test]
fn encode_word_all_zeros_and_ones() {
    let zeros = encode_word(0x000000);
    assert_eq!(zeros.len(), 24);
    for d in &zeros {
        assert_eq!(*d, 0x8006);
    }
    let ones = encode_word(0xFFFFFF);
    assert_eq!(ones.len(), 24);
    for d in &ones {
        assert_eq!(*d, 0x800C);
    }
}

#[test]
fn encoder_round_trip_samples() {
    for &w in &[0x000000u32, 0x000001, 0x800000, 0xA5C3F0, 0x020103, 0xFFFFFF] {
        let pulses = encode_word(w);
        assert_eq!(pulses.len(), 24);
        assert_eq!(decode_word(&pulses), w);
    }
}

#[test]
fn red_pixel_burst_layout() {
    // (255, 0, 0): G = 0 gives pulses 0-7 low, R = 255 gives pulses 8-15
    // high, B = 0 gives pulses 16-23 low.
    let pulses = encode_color(Rgb { r: 255, g: 0, b: 0 });
    assert_eq!(pulses.len(), 24);
    for (i, d) in pulses.iter().enumerate() {
        if (8..16).contains(&i) {
            assert_eq!(*d, 0x800C);
        } else {
            assert_eq!(*d, 0x8006);
        }
    }
}

#[test]
fn frame_keeps_iterator_order() {
    let colors = vec![
        Rgb { r: 0, g: 255, b: 0 },
        Rgb { r: 0, g: 0, b: 255 },
        Rgb { r: 255, g: 255, b: 255 },
    ];
    let words = frame_words(&colors);
    assert_eq!(words, vec![0xFF0000, 0x0000FF, 0xFFFFFF]);
    // Each burst is that color's own 24 descriptors, in the same order.
    for (i, c) in colors.iter().enumerate() {
        assert_eq!(encode_color(*c), encode_word(words[i]));
    }
}

#[test]
fn empty_write_is_a_no_op() {
    let colors: Vec<Rgb> = vec![];
    let words = frame_words(&colors);
    assert!(words.is_empty());
}

#[test]
fn stress_frame_of_300_colors() {
    let mut colors: Vec<Rgb> = Vec::new();
    for i in 0..300u32 {
        colors.push(Rgb {
            r: (i % 256) as u8,
            g: (i * 7 % 256) as u8,
            b: (i * 13 % 256) as u8,
        });
    }
    let words = frame_words(&colors);
    assert_eq!(words.len(), 300);
    let mut total_pulses: usize = 0;
    for c in &colors {
        total_pulses += encode_color(*c).len();
    }
    assert_eq!(total_pulses, 300 * 24);
}

#[test]
fn rotating_palette_advances_chain_head() {
    // A 7-color palette shown on 4 LEDs, indexed modulo 7: each frame's
    // words are the previous frame's shifted up by one palette entry.
    let palette = [
        Rgb { r: 10, g: 0, b: 0 },
        Rgb { r: 0, g: 10, b: 0 },
        Rgb { r: 0, g: 0, b: 10 },
        Rgb { r: 10, g: 10, b: 0 },
        Rgb { r: 0, g: 10, b: 10 },
        Rgb { r: 10, g: 0, b: 10 },
        Rgb { r: 5, g: 5, b: 5 },
    ];
    let frame_at = |step: usize| -> Vec<Rgb> {
        (0..4).map(|i| palette[(step + i) % 7]).collect()
    };
    for step in 0..7 {
        let now = frame_words(&frame_at(step));
        let next = frame_words(&frame_at(step + 1));
        for i in 0..3 {
            assert_eq!(next[i], now[i + 1]);
        }
    }
}

#[test]
fn bit_intervals_match_timing_table() {
    assert_eq!(bit_intervals_ns(false), (400, 850));
    assert_eq!(bit_intervals_ns(true), (800, 450));
    let (h0, l0) = bit_intervals_ns(false);
    let (h1, l1) = bit_intervals_ns(true);
    assert_eq!(h0 + l0, 1250);
    assert_eq!(h1 + l1, 1250);
}
