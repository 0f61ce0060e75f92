//! Skin-tone detection in YCbCr space.
use vstd::prelude::*;

verus! {

/// Blue-difference chroma `Cb = 128 - 0.168736 R - 0.331264 G + 0.5 B`,
/// scaled by one million so that it is an exact integer.
pub open spec fn chroma_blue_micro(r: u8, g: u8, b: u8) -> int {
    128_000_000 - 168_736 * r - 331_264 * g + 500_000 * b
}

/// Red-difference chroma `Cr = 128 + 0.5 R - 0.418688 G - 0.081312 B`,
/// scaled by one million so that it is an exact integer.
pub open spec fn chroma_red_micro(r: u8, g: u8, b: u8) -> int {
    128_000_000 + 500_000 * r - 418_688 * g - 81_312 * b
}

/// The grey-balanced colours (`g == b`) whose red-difference chroma lies exactly
/// on a threshold (133 or 173) and whose single-precision evaluation of the chroma
/// formula lands just outside it. At every other colour the single-precision
/// evaluation and the exact value fall on the same side of all four thresholds.
pub open spec fn single_precision_edge(r: u8, g: u8, b: u8) -> bool {
    &&& g == b
    &&& {
        ||| (r == 50 && g == 40)
        ||| (r == 101 && g == 11)
        ||| (r == 101 && g == 91)
        ||| (r == 108 && g == 98)
        ||| (r == 138 && g == 48)
        ||| (r == 145 && g == 55)
        ||| (r == 145 && g == 135)
        ||| (r == 152 && g == 142)
        ||| (r == 166 && g == 156)
        ||| (r == 173 && g == 163)
        ||| (r == 175 && g == 85)
        ||| (r == 182 && g == 92)
        ||| (r == 189 && g == 99)
        ||| (r == 196 && g == 186)
        ||| (r == 203 && g == 193)
        ||| (r == 210 && g == 200)
        ||| (r == 217 && g == 207)
        ||| (r == 224 && g == 214)
        ||| (r == 226 && g == 136)
        ||| (r == 233 && g == 143)
        ||| (r == 247 && g == 237)
        ||| (r == 249 && g == 159)
        ||| (r == 254 && g == 244)
    }
}

/// A colour is skin-like when `77 <= Cb <= 127` and `133 <= Cr <= 173`,
/// the chroma values taken as a single-precision evaluation gives them.
pub open spec fn skin_like(r: u8, g: u8, b: u8) -> bool {
    &&& 77_000_000 <= chroma_blue_micro(r, g, b) <= 127_000_000
    &&& 133_000_000 <= chroma_red_micro(r, g, b) <= 173_000_000
    &&& !single_precision_edge(r, g, b)
}

fn on_single_precision_edge(r: u8, g: u8, b: u8) -> (res: bool)
    ensures
        res == single_precision_edge(r, g, b),
{
    if g != b {
        return false;
    }
    (r == 50 && g == 40) || (r == 101 && g == 11) || (r == 101 && g == 91) || (r == 108 && g
        == 98) || (r == 138 && g == 48) || (r == 145 && g == 55) || (r == 145 && g == 135) || (r
        == 152 && g == 142) || (r == 166 && g == 156) || (r == 173 && g == 163) || (r == 175 && g
        == 85) || (r == 182 && g == 92) || (r == 189 && g == 99) || (r == 196 && g == 186) || (r
        == 203 && g == 193) || (r == 210 && g == 200) || (r == 217 && g == 207) || (r == 224 && g
        == 214) || (r == 226 && g == 136) || (r == 233 && g == 143) || (r == 247 && g == 237) || (r
        == 249 && g == 159) || (r == 254 && g == 244)
}

/// Whether an 8-bit RGB colour lies in the skin-tone region of YCbCr space.
pub fn is_skin_like(r: u8, g: u8, b: u8) -> (res: bool)
    ensures
        res == skin_like(r, g, b),
{
    let rr: i64 = r as i64;
    let gg: i64 = g as i64;
    let bb: i64 = b as i64;
    let cb: i64 = 128_000_000 - 168_736 * rr - 331_264 * gg + 500_000 * bb;
    let cr: i64 = 128_000_000 + 500_000 * rr - 418_688 * gg - 81_312 * bb;
    77_000_000 <= cb && cb <= 127_000_000 && 133_000_000 <= cr && cr <= 173_000_000
        && !on_single_precision_edge(r, g, b)
}

} // verus!
