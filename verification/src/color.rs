//! Color codec: quantizes normalized color channels to 8-bit values.
//!
//! A channel of a normalized color lies in the unit interval and is held in
//! fixed point, in units of 1/65536 (so the value one is `CHANNEL_ONE`).
//! Quantization scales the channel by 256, truncates toward zero, and narrows
//! to 8 bits; the narrowing wraps, so a channel of exactly one quantizes to 0.

use vstd::prelude::*;

verus! {

/// The fixed-point representation of the channel value 1.0.
pub const CHANNEL_ONE: u32 = 65536;

/// A color with normalized channels held in fixed point: a channel value `v`
/// in the unit interval is stored as `floor(v * 65536)`, so that scaling by
/// 256 and truncating agrees exactly with scaling the real value by 256 and
/// truncating.
#[derive(Clone, Copy, Debug, PartialEq, Eq, Structural)]
pub struct NormalizedColor {
    pub red: u32,
    pub green: u32,
    pub blue: u32,
    pub alpha: u32,
}

impl NormalizedColor {
    /// All channels within the unit interval, one included.
    pub open spec fn wf(self) -> bool {
        self.red <= CHANNEL_ONE
            && self.green <= CHANNEL_ONE
            && self.blue <= CHANNEL_ONE
            && self.alpha <= CHANNEL_ONE
    }

    pub fn new(red: u32, green: u32, blue: u32, alpha: u32) -> (c: NormalizedColor)
        ensures
            c == (NormalizedColor { red, green, blue, alpha }),
    {
        NormalizedColor { red, green, blue, alpha }
    }
}

/// What quantization yields on a fixed-point channel: scale by 256 (for a
/// channel in 1/65536 units, that is division by 256, truncating), then
/// narrow to 8 bits, wrapping.
pub open spec fn quantized(channel: u32) -> int {
    ((channel as int) / 256) % 256
}

/// Quantize one normalized channel to an 8-bit value: multiply the channel
/// value by 256, truncate toward zero, and narrow to 8 bits with wrapping.
pub fn quantize(channel: u32) -> (r: u8)
    ensures
        r as int == quantized(channel),
{
    let scaled: u32 = (channel / 256) % 256;
    scaled as u8
}

/// For a channel strictly inside the unit interval, quantization is plain
/// truncation: the scaled value already fits in 8 bits, so the narrowing
/// changes nothing.
pub proof fn lemma_quantize_unit_interval(channel: u32)
    requires
        channel < CHANNEL_ONE,
    ensures
        quantized(channel) == (channel as int) / 256,
        0 <= quantized(channel) < 256,
{
}

/// At a channel of exactly one, the scaled value is 256, which does not fit
/// in 8 bits; the narrowing wraps it to 0.
pub proof fn lemma_quantize_at_one()
    ensures
        quantized(CHANNEL_ONE) == 0,
{
}

/// An 8-bit-per-channel color record, as handed to native callers.
#[derive(Clone, Copy, Debug, PartialEq, Eq, Structural)]
pub struct CosmicColor {
    pub red: u8,
    pub green: u8,
    pub blue: u8,
    pub alpha: u8,
}

impl CosmicColor {
    /// The record every channel of which is the quantization of the
    /// corresponding channel of `c`.
    pub open spec fn is_quantization_of(self, c: NormalizedColor) -> bool {
        self.red as int == quantized(c.red)
            && self.green as int == quantized(c.green)
            && self.blue as int == quantized(c.blue)
            && self.alpha as int == quantized(c.alpha)
    }

    /// Quantize every channel of a normalized color.
    pub fn from_normalized(c: &NormalizedColor) -> (r: CosmicColor)
        ensures
            r.is_quantization_of(*c),
    {
        CosmicColor {
            red: quantize(c.red),
            green: quantize(c.green),
            blue: quantize(c.blue),
            alpha: quantize(c.alpha),
        }
    }
}

} // verus!
