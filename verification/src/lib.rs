//! Line-coding core for WS2812 ("NeoPixel") LED chains driven from the
//! nRF52833 PWM peripheral.
//!
//! The WS2812 protocol is a single-wire NRZ code at 800 kHz: every bit is a
//! fixed 1250 ns period whose high time encodes 0 or 1, and a frame is latched
//! by holding the line low for at least 50 us.  This crate holds the parts of
//! the driver that are pure computation, each with a proved contract:
//!
//! - [`timing`]: the WS2812 nanosecond timings and their conversion to ticks
//!   of the 16 MHz PWM clock;
//! - [`color`]: the RGB color type and its packing into the 24-bit GRB wire
//!   word;
//! - [`encoder`]: the expansion of a wire word into the 24 PWM duty-cycle
//!   descriptors that the peripheral streams out over DMA;
//! - [`frame`]: the per-frame view, colors in iterator order, that the write
//!   driver emits.
//!
//! The hardware half of the driver, peripheral configuration, the DMA
//! hand-off, completion polling and the reset gap, performs no computation of
//! its own: it feeds buffers produced here to the PWM peripheral.

pub mod color;
pub mod encoder;
pub mod frame;
pub mod timing;
