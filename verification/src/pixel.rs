use vstd::prelude::*;

verus! {

/// One quantized pixel: a red, green and blue channel, each already mapped
/// into the displayable range `[0, 255]`.
#[derive(Clone, Copy, PartialEq, Eq, Structural, Debug)]
pub struct Rgb {
    pub r: u8,
    pub g: u8,
    pub b: u8,
}

impl Rgb {
    pub fn new(r: u8, g: u8, b: u8) -> (c: Rgb)
        ensures
            c == (Rgb { r, g, b }),
    {
        Rgb { r, g, b }
    }
}

/// What clamping a raw quantized channel to `[0, 255]` yields.
pub open spec fn clamped(v: int) -> int {
    if v < 0 {
        0
    } else if v > 255 {
        255
    } else {
        v
    }
}

/// Clamp one raw quantized channel value to the displayable range.
///
/// The caller quantizes an averaged, gamma-corrected channel by taking the
/// floor of `255.99` times it; this clamps that integer into `[0, 255]`.
pub fn clamp_channel(v: i64) -> (r: u8)
    ensures
        r as int == clamped(v as int),
{
    if v < 0 {
        0
    } else if v > 255 {
        255
    } else {
        v as u8
    }
}

} // verus!
