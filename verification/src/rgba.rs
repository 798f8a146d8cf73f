//! Digital RGBA: construction from native types and conversions out of
//! RGBA.
//!
//! Dropping the alpha channel reaches the RGB hub; every other conversion
//! is routed through it.

use vstd::prelude::*;

use crate::ColorConversionError;
use crate::DigitalGrayscaleColor;
use crate::DigitalRGBAColor;
use crate::DigitalRGBColor;
use crate::DigitalYCbCrColor;
use crate::GrayscaleConvertible;
use crate::RGBAConvertible;
use crate::YCbCrConvertible;

verus! {

impl DigitalRGBAColor {
    /// The big-endian packed form of this color: one byte per channel in
    /// declaration order R, G, B, A.
    pub open spec fn packed_spec(self) -> u32 {
        ((self.r as u32) << 24) | ((self.g as u32) << 16) | ((self.b as u32) << 8) | (
        self.a as u32)
    }

    /// The color encoded in the four bytes of a packed big-endian 32-bit
    /// integer.
    pub open spec fn from_packed_spec(v: u32) -> DigitalRGBAColor {
        DigitalRGBAColor {
            r: ((v >> 24) & 0xff) as u8,
            g: ((v >> 16) & 0xff) as u8,
            b: ((v >> 8) & 0xff) as u8,
            a: (v & 0xff) as u8,
        }
    }

    /// The color dropped onto the RGB hub: the alpha channel is discarded,
    /// the color channels are kept unchanged.
    pub open spec fn to_rgb_spec(self) -> DigitalRGBColor {
        DigitalRGBColor { r: self.r, g: self.g, b: self.b }
    }

    /// Construct from three bytes in channel order R, G, B, with a fully
    /// opaque alpha.
    pub fn from_bytes_3(octets: [u8; 3]) -> (c: DigitalRGBAColor)
        ensures
            c == (DigitalRGBAColor { r: octets@[0], g: octets@[1], b: octets@[2], a: 255 }),
    {
        DigitalRGBAColor { r: octets[0], g: octets[1], b: octets[2], a: 255 }
    }

    /// Construct from four bytes in channel order R, G, B, A.
    pub fn from_bytes_4(octets: [u8; 4]) -> (c: DigitalRGBAColor)
        ensures
            c == (DigitalRGBAColor {
                r: octets@[0],
                g: octets@[1],
                b: octets@[2],
                a: octets@[3],
            }),
    {
        DigitalRGBAColor { r: octets[0], g: octets[1], b: octets[2], a: octets[3] }
    }

    /// Construct from a variable-length byte buffer.  At least the three
    /// color bytes must be present, else the constructor fails with
    /// `BufferTooSmall`; a fourth byte is taken as alpha, and alpha is
    /// fully opaque when only three bytes are supplied.
    pub fn try_from_bytes(octets: &[u8]) -> (out: Result<DigitalRGBAColor, ColorConversionError>)
        ensures
            octets@.len() < 3 ==> out == Err::<DigitalRGBAColor, ColorConversionError>(
                ColorConversionError::BufferTooSmall,
            ),
            octets@.len() == 3 ==> out == Ok::<DigitalRGBAColor, ColorConversionError>(
                DigitalRGBAColor { r: octets@[0], g: octets@[1], b: octets@[2], a: 255 },
            ),
            octets@.len() >= 4 ==> out == Ok::<DigitalRGBAColor, ColorConversionError>(
                DigitalRGBAColor { r: octets@[0], g: octets@[1], b: octets@[2], a: octets@[3] },
            ),
    {
        if octets.len() < 3 {
            Err(ColorConversionError::BufferTooSmall)
        } else if octets.len() < 4 {
            Ok(DigitalRGBAColor { r: octets[0], g: octets[1], b: octets[2], a: 255 })
        } else {
            Ok(DigitalRGBAColor { r: octets[0], g: octets[1], b: octets[2], a: octets[3] })
        }
    }

    /// Construct from a packed big-endian 32-bit integer.
    pub fn from_packed(v: u32) -> (c: DigitalRGBAColor)
        ensures
            c == DigitalRGBAColor::from_packed_spec(v),
    {
        DigitalRGBAColor {
            r: ((v >> 24) & 0xff) as u8,
            g: ((v >> 16) & 0xff) as u8,
            b: ((v >> 8) & 0xff) as u8,
            a: (v & 0xff) as u8,
        }
    }

    /// The color channels as bytes in order R, G, B; the alpha channel is
    /// dropped.
    pub fn to_bytes_3(self) -> (out: [u8; 3])
        ensures
            out@ =~= seq![self.r, self.g, self.b],
    {
        [self.r, self.g, self.b]
    }

    /// All four channels as bytes in order R, G, B, A.
    pub fn to_bytes_4(self) -> (out: [u8; 4])
        ensures
            out@ =~= seq![self.r, self.g, self.b, self.a],
    {
        [self.r, self.g, self.b, self.a]
    }

    /// Pack the channels into a big-endian 32-bit integer.
    pub fn to_packed(self) -> (v: u32)
        ensures
            v == self.packed_spec(),
    {
        ((self.r as u32) << 24) | ((self.g as u32) << 16) | ((self.b as u32) << 8) | (
        self.a as u32)
    }

    /// Drop the alpha channel, keeping the color channels unchanged.
    pub fn to_rgb(&self) -> (c: DigitalRGBColor)
        ensures
            c == self.to_rgb_spec(),
    {
        DigitalRGBColor { r: self.r, g: self.g, b: self.b }
    }

    /// Packing a color and unpacking the result gives the color back: the
    /// packed form is lossless.
    pub proof fn lemma_packed_round_trip(c: DigitalRGBAColor)
        ensures
            DigitalRGBAColor::from_packed_spec(c.packed_spec()) == c,
    {
        let r = c.r;
        let g = c.g;
        let b = c.b;
        let a = c.a;
        let v = ((r as u32) << 24) | ((g as u32) << 16) | ((b as u32) << 8) | (a as u32);
        assert(((v >> 24) & 0xff) as u8 == r && ((v >> 16) & 0xff) as u8 == g && ((v >> 8)
            & 0xff) as u8 == b && (v & 0xff) as u8 == a) by (bit_vector)
            requires
                v == ((r as u32) << 24) | ((g as u32) << 16) | ((b as u32) << 8) | (a as u32),
        ;
    }

    /// Adding a fully opaque alpha channel to an RGB color and dropping it
    /// again gives the color back.
    pub proof fn lemma_rgb_round_trip(c: DigitalRGBColor)
        ensures
            c.to_rgba_spec().to_rgb_spec() == c,
    {
    }
}

impl YCbCrConvertible for DigitalRGBAColor {
    /// Conversion routed through the RGB hub: the alpha channel is dropped,
    /// then the JFIF forward conversion applies.
    open spec fn to_ycbcr_spec(self) -> DigitalYCbCrColor {
        self.to_rgb_spec().to_ycbcr_spec()
    }

    fn to_ycbcr(&self) -> (c: DigitalYCbCrColor) {
        self.to_rgb().to_ycbcr()
    }
}

impl GrayscaleConvertible for DigitalRGBAColor {
    /// Conversion routed through the RGB hub: the alpha channel is dropped,
    /// then grayscale is the luma of the triple.
    open spec fn to_grayscale_spec(self) -> DigitalGrayscaleColor {
        self.to_rgb_spec().to_grayscale_spec()
    }

    fn to_grayscale(&self) -> (c: DigitalGrayscaleColor) {
        self.to_rgb().to_grayscale()
    }
}

} // verus!
