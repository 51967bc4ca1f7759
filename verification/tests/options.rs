use std::convert::TryFrom;

use evegfx::display_list::options::{
    BitmapExtFormat, BitmapFormat, BitmapHandle, BitmapSizeFilter, BitmapWrapMode, ColorMask, GraphicsPrimitive,
    Matrix3x2, MatrixCoeff, TestFunc,
};
use evegfx::graphics::{RGB, RGBA};

#[test]
fn color_mask_channels() {
    assert_eq!(ColorMask::new(true, false, true, false).to_raw(), 0b1010);
    assert_eq!(ColorMask::new(false, true, false, true).to_raw(), 0b0101);
    let all = ColorMask::new(true, true, true, true);
    assert_eq!(all.without_green().to_raw(), 0b1011);
    assert_eq!(all.without_green().with_green().to_raw(), 0b1111);
    assert_eq!(all.with_red().without_red().to_raw(), 0b0111);
    assert_eq!(ColorMask::default().to_raw(), 0b1111);
}

#[test]
fn matrix_coeff_integer_roundtrip() {
    for v in [-128i8, -1, 0, 1, 2, 127] {
        let c = MatrixCoeff::new_int(v);
        assert!(c.is_8_8());
        assert_eq!(c.to_i8(), v);
    }
    assert_eq!(i8::from(MatrixCoeff::from(-5i8)), -5);
}

#[test]
fn matrix_coeff_formats() {
    let c = MatrixCoeff::new_1_15(0x4000);
    assert!(c.is_1_15());
    assert!(!c.is_8_8());
    assert_eq!(c.shift(), 15);
    let d = MatrixCoeff::new_8_8(2, 3);
    assert_eq!(d.shift(), 8);
    assert_eq!(d.to_i8(), 2);
    assert_eq!(MatrixCoeff::new_8_8(-1, 0).to_raw_value(), -256);
}

#[test]
fn matrix_from_tuples() {
    let m: Matrix3x2 = ((1i8, 0i8, 0i8), (0i8, 1i8, 0i8)).into();
    assert_eq!(m, Matrix3x2::identity());
}

#[test]
fn bitmap_format_conversion_roundtrip() {
    for f in [BitmapFormat::ARGB1555, BitmapFormat::RGB565, BitmapFormat::L2, BitmapFormat::Paletted8] {
        let e = BitmapExtFormat::try_from(f).unwrap();
        assert_eq!(BitmapFormat::from(e), f);
    }
    assert!(BitmapExtFormat::try_from(BitmapFormat::GLFormat).is_err());
    assert_eq!(BitmapFormat::from(BitmapExtFormat::CompressedRGBAASTC8x8KHR), BitmapFormat::GLFormat);
    assert!(BitmapFormat::GLFormat.needs_ext_format());
    assert!(!BitmapFormat::L8.needs_ext_format());
}

#[test]
fn bitmap_format_strides() {
    assert_eq!(BitmapFormat::L1.minimum_stride(9), 2);
    assert_eq!(BitmapFormat::L4.minimum_stride(3), 2);
    assert_eq!(BitmapFormat::RGB565.minimum_stride(10), 20);
    assert_eq!(BitmapFormat::L8.minimum_stride(7), 7);
}

#[test]
fn raw_encodings_roundtrip() {
    for v in [TestFunc::Never, TestFunc::Less, TestFunc::NotEqual, TestFunc::Always] {
        assert_eq!(TestFunc::from_raw(v.to_raw()), Some(v));
    }
    for v in [GraphicsPrimitive::Bitmaps, GraphicsPrimitive::LineStrip, GraphicsPrimitive::Rects] {
        assert_eq!(GraphicsPrimitive::from_raw(v.to_raw()), Some(v));
    }
    assert_eq!(GraphicsPrimitive::from_raw(0), None);
    assert_eq!(BitmapSizeFilter::from_raw(BitmapSizeFilter::Bilinear.to_raw()), Some(BitmapSizeFilter::Bilinear));
    assert_eq!(BitmapWrapMode::from_raw(BitmapWrapMode::Repeat.to_raw()), Some(BitmapWrapMode::Repeat));
    assert_eq!(BitmapExtFormat::from_raw(37810), Some(BitmapExtFormat::CompressedRGBAASTC5x5KHR));
    assert_eq!(BitmapExtFormat::from_raw(8), None);
}

#[test]
fn bitmap_handle_validity() {
    assert!(BitmapHandle::is_valid(31));
    assert!(!BitmapHandle::is_valid(32));
    assert_eq!(BitmapHandle::force_raw(33).to_raw(), 1);
    assert!(BitmapHandle::try_from(40u8).is_err());
    assert_eq!(u8::from(BitmapHandle::try_from(7u8).unwrap()), 7);
    assert!(BitmapHandle::default_scratch().is_special());
}

#[test]
fn rgb_rgba_roundtrip() {
    let c = RGB { r: 1, g: 2, b: 3 };
    let a = c.as_rgba();
    assert_eq!(a, RGBA { r: 1, g: 2, b: 3, a: 0xff });
    assert_eq!(a.as_rgb(), c);
    let old = evegfx::color::EVEColorRGB { r: 4, g: 5, b: 6 };
    assert_eq!(old.as_rgba().as_rgb(), old);
}

#[test]
fn matrix_coeff_1_15_takes_decimal_digits() {
    let half = MatrixCoeff::new_1_15(5);
    assert!(half.is_1_15());
    assert_eq!(half.to_raw_value(), 16384);
    assert_eq!(MatrixCoeff::new_1_15(-25).to_raw_value(), -8192);
    assert_eq!(MatrixCoeff::new_1_15(125).to_raw_value(), 4096);
    assert_eq!(MatrixCoeff::new_1_15(0).to_raw_value(), 0);
}
