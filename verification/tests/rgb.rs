use grapho_color::DigitalRGBAColor;
use grapho_color::DigitalRGBColor;
use grapho_color::DigitalYCbCrColor;
use grapho_color::RGBAConvertible;
use grapho_color::RGBConvertible;
use grapho_color::YCbCrConvertible;

#[test]
fn ycbcr_d_2_rgb_d() {
    let y = DigitalYCbCrColor { y: 255, cb: 0, cr: 0 };
    let r = y.to_rgb();
    assert_eq!(DigitalRGBColor { r: 76, g: 255, b: 29 }, r);
}

#[test]
fn rgba_d_2_rgb_d() {
    let ra = DigitalRGBAColor { r: 255, g: 128, b: 64, a: 128 };
    let r = ra.to_rgb();
    assert_eq!(DigitalRGBColor { r: 255, g: 128, b: 64 }, r);
}

#[test]
fn ycbcr_d_2_rgb_d_gray_point() {
    // the neutral mid point: chrominance 128 means almost no color shift
    let y = DigitalYCbCrColor { y: 128, cb: 128, cr: 128 };
    assert_eq!(DigitalRGBColor { r: 128, g: 127, b: 128 }, y.to_rgb());
}

#[test]
fn ycbcr_d_2_rgb_d_saturates() {
    // zero chrominance pulls red and blue below zero, where they saturate,
    // and pushes green up without reaching the cap
    let y = DigitalYCbCrColor { y: 0, cb: 0, cr: 0 };
    assert_eq!(DigitalRGBColor { r: 0, g: 134, b: 0 }, y.to_rgb());
    // full chrominance drives green below zero and red and blue over the cap
    let w = DigitalYCbCrColor { y: 255, cb: 255, cr: 255 };
    assert_eq!(DigitalRGBColor { r: 255, g: 120, b: 255 }, w.to_rgb());
}

#[test]
fn rgb_d_2_ycbcr_d() {
    // white has full luma and centered chrominance
    let w = DigitalRGBColor { r: 255, g: 255, b: 255 };
    assert_eq!(DigitalYCbCrColor { y: 255, cb: 128, cr: 128 }, w.to_ycbcr());
    // pure red: y = 76, cb = (1280000 - 430185) / 10000, cr = (1275000 + 1280000) / 10000
    let r = DigitalRGBColor { r: 255, g: 0, b: 0 };
    assert_eq!(DigitalYCbCrColor { y: 76, cb: 84, cr: 255 }, r.to_ycbcr());
}

#[test]
fn rgb_d_2_rgba_d() {
    let c = DigitalRGBColor { r: 1, g: 2, b: 3 };
    assert_eq!(DigitalRGBAColor { r: 1, g: 2, b: 3, a: 255 }, c.to_rgba());
}
