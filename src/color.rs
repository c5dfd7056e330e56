use vstd::prelude::*;

verus! {

/// A display color: one byte per channel.
#[derive(Clone, Copy, Debug, PartialEq, Eq, Structural)]
pub struct Rgb8 {
    pub r: u8,
    pub g: u8,
    pub b: u8,
}

/// `x` held to the closed range `[lo, hi]`.
pub open spec fn clamp_int(x: int, lo: int, hi: int) -> int {
    if x < lo {
        lo
    } else if x > hi {
        hi
    } else {
        x
    }
}

/// The display byte of a channel, given `scaled = floor(256 * g)`, where `g`
/// is the gamma-corrected linear component.
///
/// The display value is `floor(256 * clamp(g, 0, 0.999))`. Flooring is
/// monotone, so it equals `clamp(floor(256 * g), 0, floor(255.744))`: the
/// clamp to the intensity range becomes a clamp of the integer to `[0, 255]`.
/// A component of 0 gives 0 and a component of 1 (scaled 256) gives 255.
pub fn channel_byte(scaled: i64) -> (r: u8)
    ensures
        r as int == clamp_int(scaled as int, 0, 255),
{
    if scaled < 0 {
        0
    } else if scaled > 255 {
        255
    } else {
        scaled as u8
    }
}

} // verus!
