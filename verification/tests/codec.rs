use grapho_color::ColorConversionError;
use grapho_color::DigitalGrayscaleColor;
use grapho_color::DigitalRGBAColor;
use grapho_color::DigitalRGBColor;
use grapho_color::DigitalYCbCrColor;

#[test]
fn gray_from_empty_buffer_fails() {
    let octets: [u8; 0] = [];
    let out = DigitalGrayscaleColor::try_from_bytes(&octets[..]);
    assert_eq!(Err(ColorConversionError::BufferTooSmall), out);
}

#[test]
fn gray_from_buffer() {
    let octets: [u8; 2] = [9, 99];
    let out = DigitalGrayscaleColor::try_from_bytes(&octets[..]);
    assert_eq!(Ok(DigitalGrayscaleColor { v: 9 }), out);
    assert_eq!(DigitalGrayscaleColor { v: 7 }, DigitalGrayscaleColor::from_byte(7));
    assert_eq!(DigitalGrayscaleColor { v: 8 }, DigitalGrayscaleColor::from_bytes_1([8]));
    assert_eq!([8], DigitalGrayscaleColor { v: 8 }.to_bytes_1());
    assert_eq!(8, DigitalGrayscaleColor { v: 8 }.to_byte());
}

#[test]
fn rgba_from_short_buffer_fails() {
    let octets: [u8; 2] = [1, 2];
    let out = DigitalRGBAColor::try_from_bytes(&octets[..]);
    assert_eq!(Err(ColorConversionError::BufferTooSmall), out);
}

#[test]
fn rgba_from_three_byte_buffer_is_opaque() {
    let octets: [u8; 3] = [1, 2, 3];
    let out = DigitalRGBAColor::try_from_bytes(&octets[..]);
    assert_eq!(Ok(DigitalRGBAColor { r: 1, g: 2, b: 3, a: 255 }), out);
}

#[test]
fn rgba_from_long_buffer_takes_alpha() {
    let octets: [u8; 5] = [1, 2, 3, 4, 5];
    let out = DigitalRGBAColor::try_from_bytes(&octets[..]);
    assert_eq!(Ok(DigitalRGBAColor { r: 1, g: 2, b: 3, a: 4 }), out);
}

#[test]
fn ycbcr_from_short_buffer_fails() {
    let octets: [u8; 2] = [1, 2];
    let out = DigitalYCbCrColor::try_from_bytes(&octets[..]);
    assert_eq!(Err(ColorConversionError::BufferTooSmall), out);
}

#[test]
fn ycbcr_from_buffer() {
    let octets: [u8; 4] = [1, 2, 3, 4];
    let out = DigitalYCbCrColor::try_from_bytes(&octets[..]);
    assert_eq!(Ok(DigitalYCbCrColor { y: 1, cb: 2, cr: 3 }), out);
}

#[test]
fn rgb_from_arrays() {
    assert_eq!(DigitalRGBColor { r: 1, g: 2, b: 3 }, DigitalRGBColor::from_bytes_3([1, 2, 3]));
    assert_eq!(DigitalRGBColor { r: 1, g: 2, b: 3 }, DigitalRGBColor::from_bytes_4([1, 2, 3, 9]));
    assert_eq!([1, 2, 3], DigitalRGBColor { r: 1, g: 2, b: 3 }.to_bytes_3());
    assert_eq!([1, 2, 3, 255], DigitalRGBColor { r: 1, g: 2, b: 3 }.to_bytes_4());
}

#[test]
fn rgba_from_arrays() {
    let c = DigitalRGBAColor { r: 1, g: 2, b: 3, a: 4 };
    assert_eq!(DigitalRGBAColor { r: 1, g: 2, b: 3, a: 255 }, DigitalRGBAColor::from_bytes_3([1, 2, 3]));
    assert_eq!(c, DigitalRGBAColor::from_bytes_4([1, 2, 3, 4]));
    assert_eq!([1, 2, 3], c.to_bytes_3());
    assert_eq!([1, 2, 3, 4], c.to_bytes_4());
}

#[test]
fn ycbcr_from_arrays() {
    let c = DigitalYCbCrColor { y: 1, cb: 2, cr: 3 };
    assert_eq!(c, DigitalYCbCrColor::from_bytes_3([1, 2, 3]));
    assert_eq!(c, DigitalYCbCrColor::from_bytes_4([1, 2, 3, 9]));
    assert_eq!([1, 2, 3], c.to_bytes_3());
    assert_eq!([1, 2, 3, 255], c.to_bytes_4());
}

#[test]
fn rgb_packed_round_trip() {
    let c = DigitalRGBColor { r: 0x12, g: 0x34, b: 0x56 };
    let v = c.to_packed();
    assert_eq!(0x12345600, v);
    assert_eq!(c, DigitalRGBColor::from_packed(v));
}

#[test]
fn rgba_packed_round_trip() {
    let c = DigitalRGBAColor { r: 0x12, g: 0x34, b: 0x56, a: 0x78 };
    let v = c.to_packed();
    assert_eq!(0x12345678, v);
    assert_eq!(c, DigitalRGBAColor::from_packed(v));
}

#[test]
fn ycbcr_packed_round_trip() {
    let c = DigitalYCbCrColor { y: 0xab, cb: 0xcd, cr: 0xef };
    let v = c.to_packed();
    assert_eq!(0xabcdef00, v);
    assert_eq!(c, DigitalYCbCrColor::from_packed(v));
}
