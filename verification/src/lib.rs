//! Driver core for a WS2812 ("NeoPixel") RGB LED strip driven through a
//! pulse-train transmission peripheral.
//!
//! The verified library holds the protocol logic: calibrating the four
//! WS2812 phase durations against the peripheral's measured clock rate,
//! translating color bytes into pulse descriptors bit by bit (MSB first),
//! keeping the color buffer in wire order (green, red, blue), and computing
//! linear fade interpolations. The hardware calls that surround this logic
//! (channel configuration, driver install and uninstall, the blocking
//! write) live outside the library and hand it plain values.

pub mod error;
pub mod timing;
pub mod pulse;
pub mod strip;
