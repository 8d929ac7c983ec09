//! Pulse descriptors and the WS2812 bit encoding.
//!
//! One transmitted protocol bit is a pulse descriptor: a high phase
//! followed by a low phase, each a duration in peripheral ticks paired with
//! a signal level. A set bit is sent as the "bit1" descriptor (long high,
//! short low), a clear bit as the "bit0" descriptor (short high, long low).
//! A color byte becomes exactly eight descriptors, most significant bit
//! first.

use vstd::prelude::*;
use crate::timing::Timing;

verus! {

/// One peripheral pulse descriptor: the two (duration, level) phases of a
/// single transmitted bit. Durations are in peripheral ticks; a level is
/// `1` for the active (high) line state and `0` for the idle (low) state.
#[derive(Clone, Copy, Debug, PartialEq, Eq, Structural)]
pub struct Pulse {
    pub duration0: u32,
    pub level0: u32,
    pub duration1: u32,
    pub level1: u32,
}

impl Pulse {
    /// Builds a descriptor from its two phases.
    pub fn new(duration0: u32, level0: u32, duration1: u32, level1: u32) -> (p: Pulse)
        ensures
            p == (Pulse { duration0, level0, duration1, level1 }),
    {
        Pulse { duration0, level0, duration1, level1 }
    }
}

/// The descriptor of a clear bit: `t0h` ticks high, then `t0l` ticks low.
pub open spec fn bit0_pulse(t: Timing) -> Pulse {
    Pulse { duration0: t.t0h_ticks, level0: 1, duration1: t.t0l_ticks, level1: 0 }
}

/// The descriptor of a set bit: `t1h` ticks high, then `t1l` ticks low.
pub open spec fn bit1_pulse(t: Timing) -> Pulse {
    Pulse { duration0: t.t1h_ticks, level0: 1, duration1: t.t1l_ticks, level1: 0 }
}

/// The descriptor of one bit value.
pub open spec fn pulse_for_bit(t: Timing, b: bool) -> Pulse {
    if b {
        bit1_pulse(t)
    } else {
        bit0_pulse(t)
    }
}

/// Whether bit `i` of `byte` is set, counting from the most significant
/// bit: `bit_at(byte, 0)` is the MSB, `bit_at(byte, 7)` the LSB.
pub open spec fn bit_at(byte: u8, i: int) -> bool {
    (byte >> ((7 - i) as u8)) & 1 == 1
}

/// The eight descriptors of one color byte, most significant bit first.
pub open spec fn encode_byte(t: Timing, byte: u8) -> Seq<Pulse> {
    Seq::new(8, |i: int| pulse_for_bit(t, bit_at(byte, i)))
}

/// The descriptor stream of a byte sequence: each byte contributes its
/// eight descriptors, in byte order.
pub open spec fn encode_bytes(t: Timing, s: Seq<u8>) -> Seq<Pulse>
    decreases s.len(),
{
    if s.len() == 0 {
        Seq::empty()
    } else {
        encode_byte(t, s[0]) + encode_bytes(t, s.drop_first())
    }
}

impl Timing {
    /// The bit0 descriptor of this calibration, as a value.
    pub fn bit0_item(&self) -> (p: Pulse)
        ensures
            p == bit0_pulse(*self),
    {
        Pulse { duration0: self.t0h_ticks, level0: 1, duration1: self.t0l_ticks, level1: 0 }
    }

    /// The bit1 descriptor of this calibration, as a value.
    pub fn bit1_item(&self) -> (p: Pulse)
        ensures
            p == bit1_pulse(*self),
    {
        Pulse { duration0: self.t1h_ticks, level0: 1, duration1: self.t1l_ticks, level1: 0 }
    }
}

/// Within one encoded byte, position `i` holds the descriptor of bit `i`,
/// counting from the most significant bit; where the two bit descriptors
/// differ (every calibration against a fast enough clock), the descriptor
/// equals the bit1 descriptor exactly when the bit is set.
pub proof fn lemma_encode_byte_msb_first(t: Timing, byte: u8, i: int)
    requires
        0 <= i < 8,
    ensures
        encode_byte(t, byte).len() == 8,
        encode_byte(t, byte)[i] == pulse_for_bit(t, bit_at(byte, i)),
        bit0_pulse(t) != bit1_pulse(t) ==> (encode_byte(t, byte)[i] == bit1_pulse(t) <==> bit_at(
            byte,
            i,
        )),
{
}

/// An encoded byte sequence holds exactly eight descriptors per byte.
pub proof fn lemma_encode_bytes_len(t: Timing, s: Seq<u8>)
    ensures
        encode_bytes(t, s).len() == 8 * s.len(),
    decreases s.len(),
{
    if s.len() > 0 {
        lemma_encode_bytes_len(t, s.drop_first());
    }
}

/// Appending one byte to a sequence appends its eight descriptors to the
/// encoded stream.
pub proof fn lemma_encode_bytes_push(t: Timing, s: Seq<u8>, x: u8)
    ensures
        encode_bytes(t, s.push(x)) == encode_bytes(t, s) + encode_byte(t, x),
    decreases s.len(),
{
    if s.len() == 0 {
        assert(s =~= Seq::<u8>::empty());
        assert(s.push(x).drop_first() =~= Seq::<u8>::empty());
        assert(s.push(x)[0] == x);
        assert(encode_bytes(t, Seq::<u8>::empty()) == Seq::<Pulse>::empty());
        assert(encode_bytes(t, s.push(x)) == encode_byte(t, x) + Seq::<Pulse>::empty());
        assert(encode_bytes(t, s.push(x)) =~= encode_bytes(t, s) + encode_byte(t, x));
    } else {
        lemma_encode_bytes_push(t, s.drop_first(), x);
        assert(s.push(x).drop_first() =~= s.drop_first().push(x));
        assert(s.push(x)[0] == s[0]);
        assert(encode_bytes(t, s.push(x)) == encode_byte(t, s[0]) + encode_bytes(
            t,
            s.drop_first().push(x),
        ));
        assert(encode_bytes(t, s.push(x)) =~= encode_bytes(t, s) + encode_byte(t, x));
    }
}

/// In the encoded stream of a byte sequence, descriptor `8 * j + i` is
/// descriptor `i` of byte `j`: bytes are encoded in order, MSB first
/// within each byte.
pub proof fn lemma_encode_bytes_index(t: Timing, s: Seq<u8>, j: int, i: int)
    requires
        0 <= j < s.len(),
        0 <= i < 8,
    ensures
        encode_bytes(t, s).len() == 8 * s.len(),
        encode_bytes(t, s)[8 * j + i] == encode_byte(t, s[j])[i],
    decreases j,
{
    lemma_encode_bytes_len(t, s);
    lemma_encode_bytes_len(t, s.drop_first());
    if j == 0 {
        assert(encode_bytes(t, s)[i] == encode_byte(t, s[0])[i]);
    } else {
        lemma_encode_bytes_index(t, s.drop_first(), j - 1, i);
        assert(encode_bytes(t, s)[8 * j + i] == encode_bytes(t, s.drop_first())[8 * (j - 1) + i]);
        assert(s.drop_first()[j - 1] == s[j]);
    }
}

} // verus!
