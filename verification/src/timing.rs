//! WS2812 nominal timings and their conversion to PWM clock ticks.

use vstd::prelude::*;

verus! {

/// WS2812 0-bit high time in nanoseconds.
pub const T0H_NS: u32 = 400;
/// WS2812 0-bit low time in nanoseconds.
pub const T0L_NS: u32 = 850;
/// WS2812 1-bit high time in nanoseconds.
pub const T1H_NS: u32 = 800;
/// WS2812 1-bit low time in nanoseconds.
pub const T1L_NS: u32 = 450;
/// WS2812 total bit period in nanoseconds (800 kHz bit rate).
pub const BIT_PERIOD_NS: u32 = 1250;
/// Idle time that latches a frame into the LED chain, in microseconds.
/// The datasheet minimum is 50 us; 60 us leaves margin.
pub const RESET_US: u32 = 60;
/// PWM clock rate in MHz (prescaler divide-by-1).
pub const PWM_CLOCK_MHZ: u32 = 16;

/// Number of PWM clock ticks in `ns` nanoseconds, truncating.
pub open spec fn ticks_of(ns: u32) -> int {
    ns * PWM_CLOCK_MHZ / 1000
}

/// Convert a nanosecond duration to ticks of the 16 MHz PWM clock,
/// truncating.
pub fn to_ticks(ns: u32) -> (ticks: u32)
    requires
        ns <= u32::MAX / PWM_CLOCK_MHZ,
    ensures
        ticks == ticks_of(ns),
{
    ns * PWM_CLOCK_MHZ / 1000
}

/// Total PWM period in ticks: one WS2812 bit time.
pub const PWM_PERIOD: u16 = 20;

/// The PWM period constant equals the bit period converted to ticks.
pub proof fn lemma_pwm_period()
    ensures
        PWM_PERIOD == ticks_of(BIT_PERIOD_NS),
{
}

/// High and low sub-intervals, in nanoseconds, of one transmitted bit.
pub open spec fn spec_bit_intervals(bit: bool) -> (u32, u32) {
    if bit {
        (T1H_NS, T1L_NS)
    } else {
        (T0H_NS, T0L_NS)
    }
}

/// High and low sub-intervals, in nanoseconds, of one transmitted bit, as a
/// bit-banging serializer would realize them with two timed pin writes.
/// The two always sum to the full bit period.
pub fn bit_intervals_ns(bit: bool) -> (r: (u32, u32))
    ensures
        r == spec_bit_intervals(bit),
        r.0 == if bit { T1H_NS } else { T0H_NS },
        r.1 == if bit { T1L_NS } else { T0L_NS },
        r.0 + r.1 == BIT_PERIOD_NS,
{
    if bit {
        (T1H_NS, T1L_NS)
    } else {
        (T0H_NS, T0L_NS)
    }
}

/// Truncation to whole ticks only shortens an interval, and for the WS2812
/// high times and bit period the shortfall stays within the protocol's
/// 150 ns tolerance.
pub proof fn lemma_ticks_within_tolerance()
    ensures
        ticks_of(T0H_NS) * 1000 / (PWM_CLOCK_MHZ as int) <= T0H_NS,
        T0H_NS - ticks_of(T0H_NS) * 1000 / (PWM_CLOCK_MHZ as int) <= 150,
        ticks_of(T1H_NS) * 1000 / (PWM_CLOCK_MHZ as int) <= T1H_NS,
        T1H_NS - ticks_of(T1H_NS) * 1000 / (PWM_CLOCK_MHZ as int) <= 150,
        BIT_PERIOD_NS == ticks_of(BIT_PERIOD_NS) * 1000 / (PWM_CLOCK_MHZ as int),
{
}

} // verus!
