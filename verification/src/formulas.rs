//! The numeric conversion formulas, stated exactly.
//!
//! The JFIF/JPEG conversion between RGB and YCbCr uses the BT.601 weights
//! 0.299, 0.587 and 0.114, and the chrominance coefficients 0.1687, 0.3313,
//! 0.5, 0.4187 and 0.0813.  All of these are exact decimal fractions, so the
//! formulas are written here over integers, scaled by a power of ten, and
//! every conversion result is pinned down exactly: a digital channel is the
//! real-valued formula result truncated toward zero, saturated into the byte
//! range where the formula can leave it.

use vstd::prelude::*;

verus! {

/// Luma of an 8-bit RGB triple by the BT.601/JFIF weights:
/// `0.299 r + 0.587 g + 0.114 b`, truncated to an integer.
///
/// The weights sum to one, so for channels in `0..=255` the result stays in
/// `0..=255`; in particular `luma(v, v, v) == v`.
pub open spec fn luma(r: int, g: int, b: int) -> int {
    (299 * r + 587 * g + 114 * b) / 1000
}

/// Blue chrominance of an 8-bit RGB triple:
/// `-0.1687 r - 0.3313 g + 0.5 b + 128`, truncated to an integer.
///
/// For channels in `0..=255` the value before truncation lies in
/// `[0.5, 255.5]`, so the result stays in `0..=255`.
pub open spec fn chroma_blue(r: int, g: int, b: int) -> int {
    (5000 * b - 1687 * r - 3313 * g + 1280000) / 10000
}

/// Red chrominance of an 8-bit RGB triple:
/// `0.5 r - 0.4187 g - 0.0813 b + 128`, truncated to an integer.
///
/// For channels in `0..=255` the value before truncation lies in
/// `[0.5, 255.5]`, so the result stays in `0..=255`.
pub open spec fn chroma_red(r: int, g: int, b: int) -> int {
    (5000 * r - 4187 * g - 813 * b + 1280000) / 10000
}

/// Scale a normalized channel value, given as the fraction `num / den` of
/// its times-255 digital form, to a byte: negative values saturate to 0,
/// values above 255 saturate to 255, everything else truncates toward zero.
pub open spec fn unit_to_byte(num: int, den: int) -> int {
    if num < 0 {
        0
    } else if num / den > 255 {
        255
    } else {
        num / den
    }
}

/// Red channel of the JFIF inverse conversion from 8-bit YCbCr:
/// `r = y + 1.402 (cr - 128)` over normalized channels, capped at one,
/// scaled by 255 and truncated.  Written over the digital channels with
/// denominator 2000: `(2000 y + 2804 cr - 357510) / 2000` is exactly
/// `255 (y/255 + 1.402 (cr/255 - 1/2))`.
pub open spec fn red_from_ycbcr(y: int, cr: int) -> int {
    unit_to_byte(2000 * y + 2804 * cr - 357510, 2000)
}

/// Green channel of the JFIF inverse conversion from 8-bit YCbCr:
/// `g = y - 0.344136 (cb - 128) - 0.714136 (cr - 128)` over normalized
/// channels, capped at one, scaled by 255 and truncated.  Written over the
/// digital channels with denominator 1000000:
/// `(1000000 y - 344136 cb - 714136 cr + 134929680) / 1000000` is exactly
/// `255 (y/255 - 0.344136 (cb/255 - 1/2) - 0.714136 (cr/255 - 1/2))`.
pub open spec fn green_from_ycbcr(y: int, cb: int, cr: int) -> int {
    unit_to_byte(1000000 * y - 344136 * cb - 714136 * cr + 134929680, 1000000)
}

/// Blue channel of the JFIF inverse conversion from 8-bit YCbCr:
/// `b = y + 1.772 (cb - 128)` over normalized channels, capped at one,
/// scaled by 255 and truncated.  Written over the digital channels with
/// denominator 2000: `(2000 y + 3544 cb - 451860) / 2000` is exactly
/// `255 (y/255 + 1.772 (cb/255 - 1/2))`.
pub open spec fn blue_from_ycbcr(y: int, cb: int) -> int {
    unit_to_byte(2000 * y + 3544 * cb - 451860, 2000)
}

/// Executable counterpart of `unit_to_byte`.
pub(crate) fn unit_to_byte_exec(num: i64, den: u64) -> (v: u8)
    requires
        1 <= den,
    ensures
        v as int == unit_to_byte(num as int, den as int),
{
    if num < 0 {
        0
    } else {
        let q: u64 = (num as u64) / den;
        if q > 255 {
            255
        } else {
            q as u8
        }
    }
}

} // verus!
