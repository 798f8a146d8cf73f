//! Digital RGB: construction from native types and conversions out of RGB.
//!
//! Digital RGB is the device-oriented hub representation: every other
//! digital color type converts to or from it directly.

use vstd::prelude::*;

use crate::ColorConversionError;
use crate::DigitalGrayscaleColor;
use crate::DigitalRGBAColor;
use crate::DigitalRGBColor;
use crate::DigitalYCbCrColor;
use crate::GrayscaleConvertible;
use crate::RGBAConvertible;
use crate::YCbCrConvertible;
use crate::formulas::chroma_blue;
use crate::formulas::chroma_red;
use crate::formulas::luma;

verus! {

impl DigitalRGBColor {
    /// The big-endian packed form of this color: one byte per channel in
    /// declaration order R, G, B, with the lowest byte unused.
    pub open spec fn packed_spec(self) -> u32 {
        ((self.r as u32) << 24) | ((self.g as u32) << 16) | ((self.b as u32) << 8)
    }

    /// The color encoded in the three high bytes of a packed big-endian
    /// 32-bit integer.
    pub open spec fn from_packed_spec(v: u32) -> DigitalRGBColor {
        DigitalRGBColor {
            r: ((v >> 24) & 0xff) as u8,
            g: ((v >> 16) & 0xff) as u8,
            b: ((v >> 8) & 0xff) as u8,
        }
    }

    /// Construct from three bytes in channel order R, G, B.
    pub fn from_bytes_3(octets: [u8; 3]) -> (c: DigitalRGBColor)
        ensures
            c == (DigitalRGBColor { r: octets@[0], g: octets@[1], b: octets@[2] }),
    {
        DigitalRGBColor { r: octets[0], g: octets[1], b: octets[2] }
    }

    /// Construct from four bytes in channel order R, G, B; the fourth byte
    /// is ignored.
    pub fn from_bytes_4(octets: [u8; 4]) -> (c: DigitalRGBColor)
        ensures
            c == (DigitalRGBColor { r: octets@[0], g: octets@[1], b: octets@[2] }),
    {
        DigitalRGBColor { r: octets[0], g: octets[1], b: octets[2] }
    }

    /// Construct from a packed big-endian 32-bit integer.
    pub fn from_packed(v: u32) -> (c: DigitalRGBColor)
        ensures
            c == DigitalRGBColor::from_packed_spec(v),
    {
        DigitalRGBColor {
            r: ((v >> 24) & 0xff) as u8,
            g: ((v >> 16) & 0xff) as u8,
            b: ((v >> 8) & 0xff) as u8,
        }
    }

    /// The three channels as bytes in order R, G, B.
    pub fn to_bytes_3(self) -> (out: [u8; 3])
        ensures
            out@ =~= seq![self.r, self.g, self.b],
    {
        [self.r, self.g, self.b]
    }

    /// The three channels as bytes in order R, G, B, padded with a fully
    /// opaque alpha byte.
    pub fn to_bytes_4(self) -> (out: [u8; 4])
        ensures
            out@ =~= seq![self.r, self.g, self.b, 255u8],
    {
        [self.r, self.g, self.b, 255]
    }

    /// Pack the channels into a big-endian 32-bit integer.
    pub fn to_packed(self) -> (v: u32)
        ensures
            v == self.packed_spec(),
    {
        ((self.r as u32) << 24) | ((self.g as u32) << 16) | ((self.b as u32) << 8)
    }

    /// Packing a color and unpacking the result gives the color back: the
    /// packed form is lossless.
    pub proof fn lemma_packed_round_trip(c: DigitalRGBColor)
        ensures
            DigitalRGBColor::from_packed_spec(c.packed_spec()) == c,
    {
        let r = c.r;
        let g = c.g;
        let b = c.b;
        let v = ((r as u32) << 24) | ((g as u32) << 16) | ((b as u32) << 8);
        assert(((v >> 24) & 0xff) as u8 == r && ((v >> 16) & 0xff) as u8 == g && ((v >> 8)
            & 0xff) as u8 == b) by (bit_vector)
            requires
                v == ((r as u32) << 24) | ((g as u32) << 16) | ((b as u32) << 8),
        ;
    }
}

impl YCbCrConvertible for DigitalRGBColor {
    /// JFIF/JPEG forward conversion: luma and the two chrominance channels,
    /// each truncated toward zero.
    open spec fn to_ycbcr_spec(self) -> DigitalYCbCrColor {
        DigitalYCbCrColor {
            y: luma(self.r as int, self.g as int, self.b as int) as u8,
            cb: chroma_blue(self.r as int, self.g as int, self.b as int) as u8,
            cr: chroma_red(self.r as int, self.g as int, self.b as int) as u8,
        }
    }

    fn to_ycbcr(&self) -> (c: DigitalYCbCrColor) {
        let r: u32 = self.r as u32;
        let g: u32 = self.g as u32;
        let b: u32 = self.b as u32;
        let y: u32 = (299 * r + 587 * g + 114 * b) / 1000;
        let cb: u32 = (5000 * b + 1280000 - 1687 * r - 3313 * g) / 10000;
        let cr: u32 = (5000 * r + 1280000 - 4187 * g - 813 * b) / 10000;
        DigitalYCbCrColor { y: y as u8, cb: cb as u8, cr: cr as u8 }
    }
}

impl RGBAConvertible for DigitalRGBColor {
    /// Adding an alpha channel makes the color fully opaque.
    open spec fn to_rgba_spec(self) -> DigitalRGBAColor {
        DigitalRGBAColor { r: self.r, g: self.g, b: self.b, a: 255 }
    }

    fn to_rgba(&self) -> (c: DigitalRGBAColor) {
        DigitalRGBAColor { r: self.r, g: self.g, b: self.b, a: 255 }
    }
}

impl GrayscaleConvertible for DigitalRGBColor {
    /// Grayscale is the luma of the triple.
    open spec fn to_grayscale_spec(self) -> DigitalGrayscaleColor {
        DigitalGrayscaleColor { v: luma(self.r as int, self.g as int, self.b as int) as u8 }
    }

    fn to_grayscale(&self) -> (c: DigitalGrayscaleColor) {
        let r: u32 = self.r as u32;
        let g: u32 = self.g as u32;
        let b: u32 = self.b as u32;
        let v: u32 = (299 * r + 587 * g + 114 * b) / 1000;
        DigitalGrayscaleColor { v: v as u8 }
    }
}

} // verus!
