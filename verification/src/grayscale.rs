//! Digital grayscale: construction from native types and conversions out
//! of grayscale.
//!
//! A grayscale value reaches the RGB hub as the neutral triple with all
//! three channels equal to it; the luma of that triple is the value again,
//! so the round trip through the hub is lossless.

use vstd::prelude::*;
use vstd::arithmetic::div_mod::lemma_div_by_multiple;

use crate::ColorConversionError;
use crate::DigitalGrayscaleColor;
use crate::DigitalRGBAColor;
use crate::DigitalRGBColor;
use crate::DigitalYCbCrColor;
use crate::GrayscaleConvertible;
use crate::RGBAConvertible;
use crate::YCbCrConvertible;
use crate::formulas::luma;

verus! {

impl DigitalGrayscaleColor {
    /// The color dropped onto the RGB hub: the neutral triple with all
    /// three channels equal to the grayscale value.
    pub open spec fn to_rgb_spec(self) -> DigitalRGBColor {
        DigitalRGBColor { r: self.v, g: self.v, b: self.v }
    }

    /// Construct from a single byte.
    pub fn from_byte(v: u8) -> (c: DigitalGrayscaleColor)
        ensures
            c == (DigitalGrayscaleColor { v }),
    {
        DigitalGrayscaleColor { v }
    }

    /// Construct from a one-byte buffer.
    pub fn from_bytes_1(octets: [u8; 1]) -> (c: DigitalGrayscaleColor)
        ensures
            c == (DigitalGrayscaleColor { v: octets@[0] }),
    {
        DigitalGrayscaleColor { v: octets[0] }
    }

    /// Construct from a variable-length byte buffer, which must hold at
    /// least one byte; fails with `BufferTooSmall` exactly when it is
    /// empty.
    pub fn try_from_bytes(octets: &[u8]) -> (out: Result<
        DigitalGrayscaleColor,
        ColorConversionError,
    >)
        ensures
            octets@.len() >= 1 ==> out == Ok::<DigitalGrayscaleColor, ColorConversionError>(
                DigitalGrayscaleColor { v: octets@[0] },
            ),
            octets@.len() == 0 ==> out == Err::<DigitalGrayscaleColor, ColorConversionError>(
                ColorConversionError::BufferTooSmall,
            ),
    {
        if octets.len() < 1 {
            Err(ColorConversionError::BufferTooSmall)
        } else {
            Ok(DigitalGrayscaleColor { v: octets[0] })
        }
    }

    /// The grayscale value as a single byte.
    pub fn to_byte(self) -> (v: u8)
        ensures
            v == self.v,
    {
        self.v
    }

    /// The grayscale value as a one-byte buffer.
    pub fn to_bytes_1(self) -> (out: [u8; 1])
        ensures
            out@ =~= seq![self.v],
    {
        [self.v]
    }

    /// Drop the color onto the RGB hub as a neutral triple.
    pub fn to_rgb(&self) -> (c: DigitalRGBColor)
        ensures
            c == self.to_rgb_spec(),
    {
        DigitalRGBColor { r: self.v, g: self.v, b: self.v }
    }

    /// The luma of a neutral triple is the grayscale value itself: the
    /// BT.601 weights sum to exactly one.
    pub proof fn lemma_luma_neutral(v: u8)
        ensures
            luma(v as int, v as int, v as int) == v,
    {
        assert(299 * v + 587 * v + 114 * v == (v as int) * 1000);
        lemma_div_by_multiple(v as int, 1000);
    }

    /// A grayscale value sent through the RGB hub and taken back to
    /// grayscale is unchanged.
    pub proof fn lemma_rgb_round_trip(c: DigitalGrayscaleColor)
        ensures
            c.to_rgb_spec().to_grayscale_spec() == c,
    {
        DigitalGrayscaleColor::lemma_luma_neutral(c.v);
    }

    /// A grayscale value converts to YCbCr as pure luminance: the value
    /// itself in the Y channel and centered chrominance, and converting
    /// that back to grayscale is the identity.
    pub proof fn lemma_ycbcr_round_trip(c: DigitalGrayscaleColor)
        ensures
            c.to_ycbcr_spec() == (DigitalYCbCrColor { y: c.v, cb: 128, cr: 128 }),
            c.to_ycbcr_spec().to_grayscale_spec() == c,
    {
        DigitalGrayscaleColor::lemma_luma_neutral(c.v);
        assert(5000 * c.v - 1687 * c.v - 3313 * c.v + 1280000 == 1280000);
        assert(5000 * c.v - 4187 * c.v - 813 * c.v + 1280000 == 1280000);
    }
}

impl YCbCrConvertible for DigitalGrayscaleColor {
    /// Conversion routed through the RGB hub: the neutral triple under the
    /// JFIF forward conversion.
    open spec fn to_ycbcr_spec(self) -> DigitalYCbCrColor {
        self.to_rgb_spec().to_ycbcr_spec()
    }

    fn to_ycbcr(&self) -> (c: DigitalYCbCrColor) {
        self.to_rgb().to_ycbcr()
    }
}

impl RGBAConvertible for DigitalGrayscaleColor {
    /// Conversion routed through the RGB hub: the neutral triple with a
    /// fully opaque alpha.
    open spec fn to_rgba_spec(self) -> DigitalRGBAColor {
        self.to_rgb_spec().to_rgba_spec()
    }

    fn to_rgba(&self) -> (c: DigitalRGBAColor) {
        self.to_rgb().to_rgba()
    }
}

} // verus!
