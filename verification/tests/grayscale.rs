use grapho_color::DigitalGrayscaleColor;
use grapho_color::DigitalRGBAColor;
use grapho_color::DigitalRGBColor;
use grapho_color::DigitalYCbCrColor;
use grapho_color::GrayscaleConvertible;
use grapho_color::RGBAConvertible;
use grapho_color::YCbCrConvertible;

#[test]
fn ycbcr_d_2_gray_d() {
    let y = DigitalYCbCrColor { y: 255, cb: 0, cr: 0 };
    let r = y.to_grayscale();
    assert_eq!(DigitalGrayscaleColor { v: 255 }, r);
}

#[test]
fn rgb_d_2_gray_d() {
    // luma(255, 0, 127) = (299*255 + 114*127) / 1000 = 90723 / 1000 = 90
    let c = DigitalRGBColor { r: 255, g: 0, b: 127 };
    assert_eq!(DigitalGrayscaleColor { v: 90 }, c.to_grayscale());
    // the luma weights sum to one
    let w = DigitalRGBColor { r: 255, g: 255, b: 255 };
    assert_eq!(DigitalGrayscaleColor { v: 255 }, w.to_grayscale());
    let k = DigitalRGBColor { r: 0, g: 0, b: 0 };
    assert_eq!(DigitalGrayscaleColor { v: 0 }, k.to_grayscale());
}

#[test]
fn rgba_d_2_gray_d() {
    // alpha is dropped before the luma is taken
    let c = DigitalRGBAColor { r: 255, g: 0, b: 127, a: 9 };
    assert_eq!(DigitalGrayscaleColor { v: 90 }, c.to_grayscale());
}

#[test]
fn gray_d_2_ycbcr_d() {
    // a grayscale value is pure luminance with centered chrominance
    let g = DigitalGrayscaleColor { v: 77 };
    assert_eq!(DigitalYCbCrColor { y: 77, cb: 128, cr: 128 }, g.to_ycbcr());
}

#[test]
fn gray_d_2_rgba_d() {
    let g = DigitalGrayscaleColor { v: 77 };
    assert_eq!(DigitalRGBAColor { r: 77, g: 77, b: 77, a: 255 }, g.to_rgba());
}

#[test]
fn gray_d_2_rgb_2_gray_d() {
    // the trip through the RGB hub is lossless for every byte
    for v in 0..=255u8 {
        let g = DigitalGrayscaleColor { v };
        assert_eq!(g, g.to_rgb().to_grayscale());
        assert_eq!(g, g.to_ycbcr().to_grayscale());
    }
}
