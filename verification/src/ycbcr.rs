//! Digital YCbCr: construction from native types and conversions out of
//! YCbCr.
//!
//! Conversions toward RGB follow the JFIF/JPEG inverse formulas; grayscale
//! is the luminance channel taken directly.

use vstd::prelude::*;

use crate::ColorConversionError;
use crate::DigitalGrayscaleColor;
use crate::DigitalRGBAColor;
use crate::DigitalRGBColor;
use crate::DigitalYCbCrColor;
use crate::GrayscaleConvertible;
use crate::RGBAConvertible;
use crate::RGBConvertible;
use crate::formulas::blue_from_ycbcr;
use crate::formulas::green_from_ycbcr;
use crate::formulas::red_from_ycbcr;
use crate::formulas::unit_to_byte_exec;

verus! {

impl DigitalYCbCrColor {
    /// The big-endian packed form of this color: one byte per channel in
    /// declaration order Y, Cb, Cr, with the lowest byte unused.
    pub open spec fn packed_spec(self) -> u32 {
        ((self.y as u32) << 24) | ((self.cb as u32) << 16) | ((self.cr as u32) << 8)
    }

    /// The color encoded in the three high bytes of a packed big-endian
    /// 32-bit integer.
    pub open spec fn from_packed_spec(v: u32) -> DigitalYCbCrColor {
        DigitalYCbCrColor {
            y: ((v >> 24) & 0xff) as u8,
            cb: ((v >> 16) & 0xff) as u8,
            cr: ((v >> 8) & 0xff) as u8,
        }
    }

    /// Construct from three bytes in channel order Y, Cb, Cr.
    pub fn from_bytes_3(octets: [u8; 3]) -> (c: DigitalYCbCrColor)
        ensures
            c == (DigitalYCbCrColor { y: octets@[0], cb: octets@[1], cr: octets@[2] }),
    {
        DigitalYCbCrColor { y: octets[0], cb: octets[1], cr: octets[2] }
    }

    /// Construct from four bytes in channel order Y, Cb, Cr; the fourth
    /// byte is ignored.
    pub fn from_bytes_4(octets: [u8; 4]) -> (c: DigitalYCbCrColor)
        ensures
            c == (DigitalYCbCrColor { y: octets@[0], cb: octets@[1], cr: octets@[2] }),
    {
        DigitalYCbCrColor { y: octets[0], cb: octets[1], cr: octets[2] }
    }

    /// Construct from a variable-length byte buffer, which must hold at
    /// least the three channel bytes; fails with `BufferTooSmall` exactly
    /// when it is shorter.
    pub fn try_from_bytes(octets: &[u8]) -> (out: Result<DigitalYCbCrColor, ColorConversionError>)
        ensures
            octets@.len() >= 3 ==> out == Ok::<DigitalYCbCrColor, ColorConversionError>(
                DigitalYCbCrColor { y: octets@[0], cb: octets@[1], cr: octets@[2] },
            ),
            octets@.len() < 3 ==> out == Err::<DigitalYCbCrColor, ColorConversionError>(
                ColorConversionError::BufferTooSmall,
            ),
    {
        if octets.len() < 3 {
            Err(ColorConversionError::BufferTooSmall)
        } else {
            Ok(DigitalYCbCrColor { y: octets[0], cb: octets[1], cr: octets[2] })
        }
    }

    /// Construct from a packed big-endian 32-bit integer.
    pub fn from_packed(v: u32) -> (c: DigitalYCbCrColor)
        ensures
            c == DigitalYCbCrColor::from_packed_spec(v),
    {
        DigitalYCbCrColor {
            y: ((v >> 24) & 0xff) as u8,
            cb: ((v >> 16) & 0xff) as u8,
            cr: ((v >> 8) & 0xff) as u8,
        }
    }

    /// The three channels as bytes in order Y, Cb, Cr.
    pub fn to_bytes_3(self) -> (out: [u8; 3])
        ensures
            out@ =~= seq![self.y, self.cb, self.cr],
    {
        [self.y, self.cb, self.cr]
    }

    /// The three channels as bytes in order Y, Cb, Cr, padded with a fully
    /// opaque alpha byte.
    pub fn to_bytes_4(self) -> (out: [u8; 4])
        ensures
            out@ =~= seq![self.y, self.cb, self.cr, 255u8],
    {
        [self.y, self.cb, self.cr, 255]
    }

    /// Pack the channels into a big-endian 32-bit integer.
    pub fn to_packed(self) -> (v: u32)
        ensures
            v == self.packed_spec(),
    {
        ((self.y as u32) << 24) | ((self.cb as u32) << 16) | ((self.cr as u32) << 8)
    }

    /// Packing a color and unpacking the result gives the color back: the
    /// packed form is lossless.
    pub proof fn lemma_packed_round_trip(c: DigitalYCbCrColor)
        ensures
            DigitalYCbCrColor::from_packed_spec(c.packed_spec()) == c,
    {
        let y = c.y;
        let cb = c.cb;
        let cr = c.cr;
        let v = ((y as u32) << 24) | ((cb as u32) << 16) | ((cr as u32) << 8);
        assert(((v >> 24) & 0xff) as u8 == y && ((v >> 16) & 0xff) as u8 == cb && ((v >> 8)
            & 0xff) as u8 == cr) by (bit_vector)
            requires
                v == ((y as u32) << 24) | ((cb as u32) << 16) | ((cr as u32) << 8),
        ;
    }
}

impl RGBConvertible for DigitalYCbCrColor {
    /// JFIF/JPEG inverse conversion, channel by channel: the normalized
    /// result is capped at one, scaled by 255, truncated toward zero and
    /// saturated at zero.
    open spec fn to_rgb_spec(self) -> DigitalRGBColor {
        DigitalRGBColor {
            r: red_from_ycbcr(self.y as int, self.cr as int) as u8,
            g: green_from_ycbcr(self.y as int, self.cb as int, self.cr as int) as u8,
            b: blue_from_ycbcr(self.y as int, self.cb as int) as u8,
        }
    }

    fn to_rgb(&self) -> (c: DigitalRGBColor) {
        let y: i64 = self.y as i64;
        let cb: i64 = self.cb as i64;
        let cr: i64 = self.cr as i64;
        let rn: i64 = 2000 * y + 2804 * cr - 357510;
        let gn: i64 = 1000000 * y - 344136 * cb - 714136 * cr + 134929680;
        let bn: i64 = 2000 * y + 3544 * cb - 451860;
        DigitalRGBColor {
            r: unit_to_byte_exec(rn, 2000),
            g: unit_to_byte_exec(gn, 1000000),
            b: unit_to_byte_exec(bn, 2000),
        }
    }
}

impl RGBAConvertible for DigitalYCbCrColor {
    /// Conversion routed through the RGB hub, with a fully opaque alpha.
    open spec fn to_rgba_spec(self) -> DigitalRGBAColor {
        self.to_rgb_spec().to_rgba_spec()
    }

    fn to_rgba(&self) -> (c: DigitalRGBAColor) {
        self.to_rgb().to_rgba()
    }
}

impl GrayscaleConvertible for DigitalYCbCrColor {
    /// Grayscale is the luminance channel, taken directly.
    open spec fn to_grayscale_spec(self) -> DigitalGrayscaleColor {
        DigitalGrayscaleColor { v: self.y }
    }

    fn to_grayscale(&self) -> (c: DigitalGrayscaleColor) {
        DigitalGrayscaleColor { v: self.y }
    }
}

} // verus!
