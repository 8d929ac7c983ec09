//! Calibration of the WS2812 bit timings against the peripheral's clock.
//!
//! The WS2812 protocol fixes four phase durations in nanoseconds: the high
//! and low phase of a zero bit and the high and low phase of a one bit.
//! The peripheral counts time in ticks of its own clock, whose effective
//! rate is only known at run time, so the four durations are converted
//! once, at construction, into tick counts: `ticks = floor(clock_hz * ns /
//! 1e9)`. Truncating toward zero is accepted protocol slack: the WS2812
//! tolerates roughly 150ns of jitter per phase.

use vstd::prelude::*;

verus! {

/// High phase of a zero bit, in nanoseconds.
pub const WS2812_T0H_NS: u32 = 350;
/// Low phase of a zero bit, in nanoseconds.
pub const WS2812_T0L_NS: u32 = 1000;
/// High phase of a one bit, in nanoseconds.
pub const WS2812_T1H_NS: u32 = 1000;
/// Low phase of a one bit, in nanoseconds.
pub const WS2812_T1L_NS: u32 = 350;

/// Nanoseconds in one second.
pub const NS_PER_SEC: u64 = 1_000_000_000;

/// The number of whole peripheral ticks that fit in `ns` nanoseconds when
/// the peripheral's clock runs at `clock_hz` ticks per second.
pub open spec fn ticks_of(clock_hz: u32, ns: u32) -> int {
    (clock_hz * ns) / (NS_PER_SEC as int)
}

/// The four WS2812 phase durations, in peripheral ticks.
#[derive(Clone, Copy, Debug, PartialEq, Eq, Structural)]
pub struct Timing {
    pub t0h_ticks: u32,
    pub t0l_ticks: u32,
    pub t1h_ticks: u32,
    pub t1l_ticks: u32,
}

/// Holds when `t` is the one calibration of the four protocol constants
/// against the clock rate `clock_hz`.
pub open spec fn calibrated(t: Timing, clock_hz: u32) -> bool {
    &&& t.t0h_ticks == ticks_of(clock_hz, WS2812_T0H_NS)
    &&& t.t0l_ticks == ticks_of(clock_hz, WS2812_T0L_NS)
    &&& t.t1h_ticks == ticks_of(clock_hz, WS2812_T1H_NS)
    &&& t.t1l_ticks == ticks_of(clock_hz, WS2812_T1L_NS)
}

/// Converts one nanosecond duration into whole peripheral ticks.
fn ticks(clock_hz: u32, ns: u32) -> (r: u32)
    requires
        ns <= NS_PER_SEC,
    ensures
        r == ticks_of(clock_hz, ns),
{
    proof {
        assert(clock_hz * ns <= 0xffff_ffffu64 * 1_000_000_000u64) by (nonlinear_arith)
            requires
                0 <= clock_hz <= 0xffff_ffffu64,
                0 <= ns <= 1_000_000_000u64,
        ;
    }
    let t: u64 = (clock_hz as u64) * (ns as u64) / NS_PER_SEC;
    proof {
        assert((clock_hz * ns) / (NS_PER_SEC as int) <= clock_hz) by (nonlinear_arith)
            requires
                ns <= NS_PER_SEC,
                clock_hz >= 0,
        ;
    }
    t as u32
}

impl Timing {
    /// Runs the one calibration pass: derives the four tick durations from
    /// the clock rate that the peripheral reported.
    pub fn calibrate(counter_clk_hz: u32) -> (t: Timing)
        ensures
            calibrated(t, counter_clk_hz),
    {
        Timing {
            t0h_ticks: ticks(counter_clk_hz, WS2812_T0H_NS),
            t0l_ticks: ticks(counter_clk_hz, WS2812_T0L_NS),
            t1h_ticks: ticks(counter_clk_hz, WS2812_T1H_NS),
            t1l_ticks: ticks(counter_clk_hz, WS2812_T1L_NS),
        }
    }
}

/// On a clock of exactly one tick per nanosecond, calibration is the
/// identity: the tick count of any duration equals its nanosecond count.
pub proof fn lemma_ticks_identity_clock(ns: u32)
    ensures
        ticks_of(1_000_000_000, ns) == ns,
{
    assert((1_000_000_000 * ns) / (NS_PER_SEC as int) == ns) by (nonlinear_arith);
}

} // verus!
