//! Color primitives for computer graphics, with verified conversions.
//!
//! The crate models the digital (8-bit per channel) color representations
//! used by image pipelines: RGB, RGBA, YCbCr and grayscale.  Conversions
//! between them follow the JFIF/JPEG conversion formulas, routed through
//! digital RGB as the hub representation, and every conversion carries a
//! contract that pins its result down exactly.
//!
//! Colors can also be built from raw byte buffers and packed big-endian
//! 32-bit integers, and turned back into them; the packed round trips are
//! proved lossless.
//!
//! Bulk conversion is exposed through the `*Convertible` traits: a sequence
//! of any convertible color type maps element-wise, order preserved, onto a
//! sequence of the target type.

use vstd::prelude::*;

mod convert;
mod formulas;
mod grayscale;
mod rgb;
mod rgba;
mod ycbcr;

pub use convert::RgbConversionIter;
pub use formulas::blue_from_ycbcr;
pub use formulas::chroma_blue;
pub use formulas::chroma_red;
pub use formulas::green_from_ycbcr;
pub use formulas::luma;
pub use formulas::red_from_ycbcr;
pub use formulas::unit_to_byte;

verus! {

/// The single error kind of the library: a fallible byte-buffer constructor
/// was handed fewer bytes than the color type needs.
#[derive(Debug, PartialEq, Eq, Structural, Clone, Copy)]
pub enum ColorConversionError {
    /// The input buffer is shorter than the minimum length for the type.
    BufferTooSmall,
}

/// Grayscale color with a single 8-bit component.
#[derive(Debug, PartialEq, Eq, Structural, Clone, Copy)]
pub struct DigitalGrayscaleColor {
    /// brightness component
    pub v: u8,
}

/// RGB color with 8-bit components.
#[derive(Debug, PartialEq, Eq, Structural, Clone, Copy)]
pub struct DigitalRGBColor {
    /// red component
    pub r: u8,
    /// green component
    pub g: u8,
    /// blue component
    pub b: u8,
}

/// RGBA color with 8-bit components.
#[derive(Debug, PartialEq, Eq, Structural, Clone, Copy)]
pub struct DigitalRGBAColor {
    /// red component
    pub r: u8,
    /// green component
    pub g: u8,
    /// blue component
    pub b: u8,
    /// alpha component, 0 is transparent
    pub a: u8,
}

/// YCbCr color with 8-bit components (full range, offset 128 chrominance).
#[derive(Debug, PartialEq, Eq, Structural, Clone, Copy)]
pub struct DigitalYCbCrColor {
    /// y component (luminance)
    pub y: u8,
    /// cb component (chrominance blue)
    pub cb: u8,
    /// cr component (chrominance red)
    pub cr: u8,
}

/// Types that can be converted, one value or a whole sequence at a time,
/// into `DigitalGrayscaleColor`.
pub trait GrayscaleConvertible: Sized {
    /// The grayscale value that `self` converts to.
    spec fn to_grayscale_spec(self) -> DigitalGrayscaleColor;

    /// Convert a single color value into a `DigitalGrayscaleColor` value.
    fn to_grayscale(&self) -> (c: DigitalGrayscaleColor)
        ensures
            c == self.to_grayscale_spec(),
    ;

    /// Convert a vector of color values into a vector of
    /// `DigitalGrayscaleColor` values, element-wise and order-preserving:
    /// element `i` of the result is the conversion of element `i` of the
    /// input.
    fn convert_vec_grayscale(items: Vec<Self>) -> (out: Vec<DigitalGrayscaleColor>)
        ensures
            out@.len() == items@.len(),
            forall|i: int| 0 <= i < items@.len() ==> out@[i] == items@[i].to_grayscale_spec(),
    {
        let mut out: Vec<DigitalGrayscaleColor> = Vec::new();
        let mut idx: usize = 0;
        while idx < items.len()
            invariant
                idx <= items@.len(),
                out@.len() == idx,
                forall|i: int| 0 <= i < idx ==> out@[i] == items@[i].to_grayscale_spec(),
            decreases items@.len() - idx,
        {
            let c = items[idx].to_grayscale();
            out.push(c);
            idx = idx + 1;
        }
        out
    }
}

/// Types that can be converted, one value or a whole sequence at a time,
/// into `DigitalRGBColor`, the device-oriented hub representation.
pub trait RGBConvertible: Sized {
    /// The RGB value that `self` converts to.
    spec fn to_rgb_spec(self) -> DigitalRGBColor;

    /// Convert a single color value into a `DigitalRGBColor` value.
    fn to_rgb(&self) -> (c: DigitalRGBColor)
        ensures
            c == self.to_rgb_spec(),
    ;

    /// Convert a vector of color values into a vector of `DigitalRGBColor`
    /// values, element-wise and order-preserving: element `i` of the result
    /// is the conversion of element `i` of the input.
    fn convert_vec_rgb(items: Vec<Self>) -> (out: Vec<DigitalRGBColor>)
        ensures
            out@.len() == items@.len(),
            forall|i: int| 0 <= i < items@.len() ==> out@[i] == items@[i].to_rgb_spec(),
    {
        let mut out: Vec<DigitalRGBColor> = Vec::new();
        let mut idx: usize = 0;
        while idx < items.len()
            invariant
                idx <= items@.len(),
                out@.len() == idx,
                forall|i: int| 0 <= i < idx ==> out@[i] == items@[i].to_rgb_spec(),
            decreases items@.len() - idx,
        {
            let c = items[idx].to_rgb();
            out.push(c);
            idx = idx + 1;
        }
        out
    }

    /// Create a lazy converter that yields one `DigitalRGBColor` value per
    /// input value, in order and on demand, without converting ahead.
    fn convert_iter_rgb(items: Vec<Self>) -> (it: RgbConversionIter<Self>)
        ensures
            it.source() == items@,
            it.position() == 0,
    {
        RgbConversionIter::new(items)
    }
}

/// Types that can be converted, one value or a whole sequence at a time,
/// into `DigitalRGBAColor`.
pub trait RGBAConvertible: Sized {
    /// The RGBA value that `self` converts to.
    spec fn to_rgba_spec(self) -> DigitalRGBAColor;

    /// Convert a single color value into a `DigitalRGBAColor` value.
    fn to_rgba(&self) -> (c: DigitalRGBAColor)
        ensures
            c == self.to_rgba_spec(),
    ;

    /// Convert a vector of color values into a vector of `DigitalRGBAColor`
    /// values, element-wise and order-preserving: element `i` of the result
    /// is the conversion of element `i` of the input.
    fn convert_vec_rgba(items: Vec<Self>) -> (out: Vec<DigitalRGBAColor>)
        ensures
            out@.len() == items@.len(),
            forall|i: int| 0 <= i < items@.len() ==> out@[i] == items@[i].to_rgba_spec(),
    {
        let mut out: Vec<DigitalRGBAColor> = Vec::new();
        let mut idx: usize = 0;
        while idx < items.len()
            invariant
                idx <= items@.len(),
                out@.len() == idx,
                forall|i: int| 0 <= i < idx ==> out@[i] == items@[i].to_rgba_spec(),
            decreases items@.len() - idx,
        {
            let c = items[idx].to_rgba();
            out.push(c);
            idx = idx + 1;
        }
        out
    }
}

/// Types that can be converted, one value or a whole sequence at a time,
/// into `DigitalYCbCrColor`.
pub trait YCbCrConvertible: Sized {
    /// The YCbCr value that `self` converts to.
    spec fn to_ycbcr_spec(self) -> DigitalYCbCrColor;

    /// Convert a single color value into a `DigitalYCbCrColor` value.
    fn to_ycbcr(&self) -> (c: DigitalYCbCrColor)
        ensures
            c == self.to_ycbcr_spec(),
    ;

    /// Convert a vector of color values into a vector of
    /// `DigitalYCbCrColor` values, element-wise and order-preserving:
    /// element `i` of the result is the conversion of element `i` of the
    /// input.
    fn convert_vec_ycbcr(items: Vec<Self>) -> (out: Vec<DigitalYCbCrColor>)
        ensures
            out@.len() == items@.len(),
            forall|i: int| 0 <= i < items@.len() ==> out@[i] == items@[i].to_ycbcr_spec(),
    {
        let mut out: Vec<DigitalYCbCrColor> = Vec::new();
        let mut idx: usize = 0;
        while idx < items.len()
            invariant
                idx <= items@.len(),
                out@.len() == idx,
                forall|i: int| 0 <= i < idx ==> out@[i] == items@[i].to_ycbcr_spec(),
            decreases items@.len() - idx,
        {
            let c = items[idx].to_ycbcr();
            out.push(c);
            idx = idx + 1;
        }
        out
    }
}

} // verus!
