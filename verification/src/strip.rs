//! The LED strip driver state: the calibrated timing, the wire-order color
//! buffer, and the owned channel id, together with the translator that
//! turns the buffer into pulse descriptors and the fade interpolation.
//!
//! The hardware side — configuring the channel, installing and releasing
//! the driver, the blocking write — lives outside the library; it hands
//! the measured clock rate in and carries pulse descriptors and the fade
//! plan out.

use vstd::prelude::*;
use crate::error::{EspError, ESP_ERR_INVALID_ARG};
use crate::pulse::{
    Pulse, bit0_pulse, bit1_pulse, pulse_for_bit, bit_at, encode_byte, encode_bytes,
    lemma_encode_bytes_push,
};
use crate::timing::{Timing, calibrated};

verus! {

/// Bytes of one pixel on the wire: green, red, blue.
pub const BYTES_PER_PIXEL: usize = 3;

/// Fixed bound, in peripheral time units, on one blocking transmission
/// wait; exceeding it is reported as an error, never retried.
pub const TX_WAIT_TIMEOUT: u32 = 1_000_000;

/// The fixed configuration of the transmission channel: transmit mode on
/// the given pin and channel, clock divisor two, one memory block, carrier
/// disabled, idle level low with the output enabled while idle. Only the
/// pin and the channel id vary per instance.
#[derive(Clone, Copy, Debug, PartialEq, Eq, Structural)]
pub struct RmtConfig {
    pub channel: u32,
    pub gpio_num: i32,
    pub clk_div: u8,
    pub mem_block_num: u8,
    pub flags: u32,
    pub carrier_freq_hz: u32,
    pub carrier_level_high: bool,
    pub idle_level_low: bool,
    pub carrier_duty_percent: u8,
    pub carrier_en: bool,
    pub loop_en: bool,
    pub idle_output_en: bool,
    pub loop_count: u32,
}

impl RmtConfig {
    /// The transmit configuration of one channel and pin; every other
    /// field is a fixed protocol or hardware constant.
    pub fn transmit(channel: u32, gpio_num: i32) -> (c: RmtConfig)
        ensures
            c == (RmtConfig {
                channel,
                gpio_num,
                clk_div: 2,
                mem_block_num: 1,
                flags: 0,
                carrier_freq_hz: 38000,
                carrier_level_high: true,
                idle_level_low: true,
                carrier_duty_percent: 33,
                carrier_en: false,
                loop_en: false,
                idle_output_en: true,
                loop_count: 0,
            }),
    {
        RmtConfig {
            channel,
            gpio_num,
            clk_div: 2,
            mem_block_num: 1,
            flags: 0,
            carrier_freq_hz: 38000,
            carrier_level_high: true,
            idle_level_low: true,
            carrier_duty_percent: 33,
            carrier_en: false,
            loop_en: false,
            idle_output_en: true,
            loop_count: 0,
        }
    }
}

/// A color as the public API takes it: red, green, blue.
#[derive(Clone, Copy, Debug, PartialEq, Eq, Structural)]
pub struct Rgb {
    pub r: u8,
    pub g: u8,
    pub b: u8,
}

/// What one translator call produced: the emitted descriptors, the number
/// of source bytes consumed, and the number of descriptors emitted.
#[derive(Debug)]
pub struct Translated {
    pub items: Vec<Pulse>,
    pub translated_size: u32,
    pub item_num: u32,
}

/// How many whole source bytes one translator call consumes: every byte
/// takes eight descriptors, so it is bounded by the bytes offered, the
/// bytes the buffer holds, and the whole bytes that fit in the requested
/// descriptor count.
pub open spec fn consumed_bytes(buffer_len: int, src_size: int, wanted_num: int) -> int {
    vstd::math::min(vstd::math::min(src_size, buffer_len), wanted_num / 8)
}

/// The linear interpolation of one color channel from `from` to `to` at
/// `step` of `num_steps`: `(to * step + from * (num_steps - step)) /
/// num_steps`, in integer arithmetic. At `step == num_steps` it is exactly
/// `to`; at `step == 0` exactly `from`.
pub open spec fn fade_value(from: u8, to: u8, step: u32, num_steps: u32) -> int {
    (to * step + from * (num_steps - step)) / (num_steps as int)
}

/// The interpolated color at `step` of `num_steps`.
pub open spec fn fade_rgb(from: Rgb, to: Rgb, step: u32, num_steps: u32) -> Rgb {
    Rgb {
        r: fade_value(from.r, to.r, step, num_steps) as u8,
        g: fade_value(from.g, to.g, step, num_steps) as u8,
        b: fade_value(from.b, to.b, step, num_steps) as u8,
    }
}

/// At the last step a fade reproduces the target channel exactly, and at
/// step zero (the state before the first step) it reproduces the start.
pub proof fn lemma_fade_exact(from: u8, to: u8, num_steps: u32)
    requires
        1 <= num_steps,
    ensures
        fade_value(from, to, num_steps, num_steps) == to,
        fade_value(from, to, 0, num_steps) == from,
{
    assert((to * num_steps + from * (num_steps - num_steps)) / (num_steps as int) == to)
        by (nonlinear_arith)
        requires
            1 <= num_steps,
    ;
    assert((to * 0 + from * (num_steps - 0)) / (num_steps as int) == from) by (nonlinear_arith)
        requires
            1 <= num_steps,
    ;
}

/// One channel's interpolated value, computed without overflow and
/// without leaving the byte range.
pub fn fade_step_value(from: u8, to: u8, step: u32, num_steps: u32) -> (v: u8)
    requires
        0 < num_steps,
        step <= num_steps,
    ensures
        v == fade_value(from, to, step, num_steps),
{
    proof {
        assert(to * step + from * (num_steps - step) <= 255 * num_steps) by (nonlinear_arith)
            requires
                step <= num_steps,
                to <= 255,
                from <= 255,
        ;
        vstd::arithmetic::div_mod::lemma_div_is_ordered(
            to * step + from * (num_steps - step),
            255 * num_steps,
            num_steps as int,
        );
        vstd::arithmetic::div_mod::lemma_div_multiples_vanish(255, num_steps as int);
    }
    let v: u64 = ((to as u64) * (step as u64) + (from as u64) * ((num_steps - step) as u64))
        / (num_steps as u64);
    v as u8
}

/// A strip of `NUM_LEDS` WS2812 pixels behind one transmission channel.
///
/// The buffer holds the pixels in wire order — three bytes each, green
/// first, then red, then blue — ready to be streamed bit by bit. The
/// timing is the one calibration made at construction and is never
/// recomputed. The channel id names the hardware channel this instance
/// owns exclusively.
#[derive(Debug)]
pub struct LedStrip<const NUM_LEDS: usize> {
    pub timing: Timing,
    pub buffer: Vec<u8>,
    pub channel: u32,
}

/// A single-pixel strip.
pub type Led = LedStrip<1>;

impl<const NUM_LEDS: usize> LedStrip<NUM_LEDS> {
    /// The buffer holds exactly three wire bytes per pixel.
    pub open spec fn wf(self) -> bool {
        self.buffer@.len() == 3 * NUM_LEDS
    }

    /// Builds the driver state for a freshly configured channel: the
    /// timing calibrated once against the clock rate the peripheral
    /// reported, and the color buffer all zero.
    pub fn new(rmt_channel: u32, counter_clk_hz: u32) -> (s: Self)
        requires
            3 * NUM_LEDS <= usize::MAX,
        ensures
            s.wf(),
            calibrated(s.timing, counter_clk_hz),
            s.channel == rmt_channel,
            forall|i: int| 0 <= i < s.buffer@.len() ==> s.buffer@[i] == 0u8,
    {
        let timing = Timing::calibrate(counter_clk_hz);
        let n: usize = 3 * NUM_LEDS;
        let mut buffer: Vec<u8> = Vec::new();
        while buffer.len() < n
            invariant
                buffer@.len() <= n,
                forall|i: int| 0 <= i < buffer@.len() ==> buffer@[i] == 0u8,
            decreases n - buffer@.len(),
        {
            buffer.push(0u8);
        }
        LedStrip { timing, buffer, channel: rmt_channel }
    }

    /// The translator: walks the color buffer byte by byte and emits, for
    /// each byte, its eight pulse descriptors, most significant bit first
    /// — the bit1 descriptor for a set bit, the bit0 descriptor for a
    /// clear one. It consumes only whole bytes: as many as are offered
    /// (`src_size`), held by the buffer, and fit completely within the
    /// `wanted_num` descriptors the peripheral asked for.
    pub fn translate(&self, src_size: u32, wanted_num: u32) -> (out: Translated)
        ensures
            out.translated_size == consumed_bytes(
                self.buffer@.len() as int,
                src_size as int,
                wanted_num as int,
            ),
            out.item_num == 8 * out.translated_size,
            out.item_num <= wanted_num,
            out.items@.len() == out.item_num,
            out.items@ == encode_bytes(self.timing, self.buffer@.take(out.translated_size as int)),
            src_size >= self.buffer@.len() && wanted_num >= 8 * self.buffer@.len() ==> {
                &&& out.translated_size == self.buffer@.len()
                &&& out.items@ == encode_bytes(self.timing, self.buffer@)
            },
    {
        let len: usize = self.buffer.len();
        let src_avail: usize = if (src_size as usize) < len {
            src_size as usize
        } else {
            len
        };
        let max_bytes: usize = (wanted_num / 8) as usize;
        let n: usize = if src_avail < max_bytes {
            src_avail
        } else {
            max_bytes
        };
        let bit0 = self.timing.bit0_item();
        let bit1 = self.timing.bit1_item();
        let mut items: Vec<Pulse> = Vec::new();
        let mut size: usize = 0;
        while size < n
            invariant
                n <= self.buffer@.len(),
                n <= wanted_num / 8,
                size <= n,
                bit0 == bit0_pulse(self.timing),
                bit1 == bit1_pulse(self.timing),
                items@ == encode_bytes(self.timing, self.buffer@.take(size as int)),
                items@.len() == 8 * size,
            decreases n - size,
        {
            let byte: u8 = self.buffer[size];
            let mut i: u8 = 0;
            while i < 8
                invariant
                    i <= 8,
                    size < n <= self.buffer@.len(),
                    byte == self.buffer@[size as int],
                    bit0 == bit0_pulse(self.timing),
                    bit1 == bit1_pulse(self.timing),
                    items@ == encode_bytes(self.timing, self.buffer@.take(size as int))
                        + encode_byte(self.timing, byte).take(i as int),
                    items@.len() == 8 * size + i,
                decreases 8 - i,
            {
                // MSB first
                let bit_set: bool = (byte >> (7 - i)) & 1 == 1;
                proof {
                    assert((7 - i as int) as u8 == 7 - i);
                    assert(bit_set == bit_at(byte, i as int));
                    assert(encode_byte(self.timing, byte)[i as int] == pulse_for_bit(
                        self.timing,
                        bit_at(byte, i as int),
                    ));
                    assert(encode_byte(self.timing, byte).take(i as int + 1)
                        =~= encode_byte(self.timing, byte).take(i as int).push(
                        encode_byte(self.timing, byte)[i as int],
                    ));
                }
                if bit_set {
                    items.push(bit1);
                } else {
                    items.push(bit0);
                }
                i = i + 1;
            }
            proof {
                assert(encode_byte(self.timing, byte).take(8) =~= encode_byte(self.timing, byte));
                lemma_encode_bytes_push(self.timing, self.buffer@.take(size as int), byte);
                assert(self.buffer@.take(size as int).push(byte) =~= self.buffer@.take(
                    size as int + 1,
                ));
            }
            size = size + 1;
        }
        proof {
            assert(8 * (wanted_num as int / 8) <= wanted_num);
            if src_size >= self.buffer@.len() && wanted_num >= 8 * self.buffer@.len() {
                assert(self.buffer@.len() <= wanted_num as int / 8);
                assert(self.buffer@.take(self.buffer@.len() as int) =~= self.buffer@);
            }
        }
        let translated_size: u32 = size as u32;
        let item_num: u32 = (8 * size) as u32;
        Translated { items, translated_size, item_num }
    }
}

impl LedStrip<1> {
    /// The color the single pixel currently holds, in API order.
    pub open spec fn spec_color(self) -> Rgb {
        Rgb { r: self.buffer@[1], g: self.buffer@[0], b: self.buffer@[2] }
    }

    /// The stored color, read back out of the wire-order buffer.
    pub fn color(&self) -> (c: Rgb)
        requires
            self.wf(),
        ensures
            c == self.spec_color(),
    {
        Rgb { r: self.buffer[1], g: self.buffer[0], b: self.buffer[2] }
    }

    /// Stores a color in the single-pixel buffer, reordered to the wire
    /// order the protocol wants: green first, then red, then blue.
    pub fn set_color(&mut self, red: u8, green: u8, blue: u8)
        requires
            old(self).wf(),
        ensures
            final(self).wf(),
            final(self).buffer@ == seq![green, red, blue],
            final(self).spec_color() == (Rgb { r: red, g: green, b: blue }),
            final(self).timing == old(self).timing,
            final(self).channel == old(self).channel,
    {
        self.buffer.set(0, green);
        self.buffer.set(1, red);
        self.buffer.set(2, blue);
        proof {
            assert(self.buffer@ =~= seq![green, red, blue]);
        }
    }

    /// Plans a linear fade from the stored color to the target: one color
    /// per step, each channel interpolated in integer arithmetic, the last
    /// step exactly the target. A fade over zero steps has no meaning
    /// (the interpolation would divide by zero) and is rejected.
    pub fn fade_to(&self, red: u8, green: u8, blue: u8, num_steps: u32) -> (r: Result<
        Vec<Rgb>,
        EspError,
    >)
        requires
            self.wf(),
        ensures
            num_steps == 0 <==> r is Err,
            num_steps == 0 ==> r == Err::<Vec<Rgb>, EspError>(
                (EspError { code: ESP_ERR_INVALID_ARG }),
            ),
            r matches Ok(plan) ==> {
                &&& plan@.len() == num_steps
                &&& forall|k: int|
                    0 <= k < num_steps ==> plan@[k] == fade_rgb(
                        self.spec_color(),
                        (Rgb { r: red, g: green, b: blue }),
                        (k + 1) as u32,
                        num_steps,
                    )
                &&& plan@[num_steps - 1] == (Rgb { r: red, g: green, b: blue })
            },
    {
        if num_steps == 0 {
            return Err(EspError { code: ESP_ERR_INVALID_ARG });
        }
        let from = self.color();
        let to = Rgb { r: red, g: green, b: blue };
        let mut plan: Vec<Rgb> = Vec::new();
        let mut x: u32 = 0;
        while x < num_steps
            invariant
                0 < num_steps,
                x <= num_steps,
                plan@.len() == x,
                forall|k: int| 0 <= k < x ==> plan@[k] == fade_rgb(from, to, (k + 1) as u32, num_steps),
            decreases num_steps - x,
        {
            let step: u32 = x + 1;
            let c = Rgb {
                r: fade_step_value(from.r, to.r, step, num_steps),
                g: fade_step_value(from.g, to.g, step, num_steps),
                b: fade_step_value(from.b, to.b, step, num_steps),
            };
            proof {
                assert(c == fade_rgb(from, to, step, num_steps));
            }
            plan.push(c);
            x = step;
        }
        proof {
            lemma_fade_exact(from.r, to.r, num_steps);
            lemma_fade_exact(from.g, to.g, num_steps);
            lemma_fade_exact(from.b, to.b, num_steps);
            assert(plan@[num_steps - 1] == fade_rgb(from, to, num_steps, num_steps));
            assert(fade_rgb(from, to, num_steps, num_steps) == to);
        }
        Ok(plan)
    }
}

} // verus!
