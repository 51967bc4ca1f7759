use std::vec::Vec;

use evegfx::display_list::options;
use evegfx::display_list::options::MatrixCoeff;
use evegfx::display_list::{just_builder, Builder, DLCmd};
use evegfx::graphics::{Bitmap, Vertex2F};
use evegfx::memory::{MemoryRegion, Ptr};
use evegfx::models::fake::DisplayListMem as TestDisplayListMem;
use evegfx::models::fake::MainMem as TestMainMem;

/// A matrix coefficient close to `v`: the 1.15 encoding for values from -1
/// up to 1, the 8.8 encoding otherwise.
fn coeff(v: f32) -> MatrixCoeff {
    if v < 1.0 && v >= -1.0 {
        MatrixCoeff::from_encoded_1_15((v * 32768.0) as i16)
    } else {
        MatrixCoeff::from_encoded_8_8((v * 256.0) as i16)
    }
}

/// Collects the raw commands appended to it.
struct LogBuilder {
    words: Vec<u32>,
    fail_after: Option<usize>,
}

impl LogBuilder {
    fn new() -> Self {
        LogBuilder { words: Vec::new(), fail_after: None }
    }
}

impl Builder for LogBuilder {
    type Model = evegfx::models::fake::Model;
    type Error = ();

    fn append_raw_command(&mut self, raw: u32) -> Result<(), ()> {
        if self.fail_after == Some(self.words.len()) {
            return Err(());
        }
        self.words.push(raw);
        Ok(())
    }
}

#[test]
fn test_dlcmd() {
    assert_eq!(DLCmd::alpha_test(options::TestFunc::Greater, 254), DLCmd::from_raw(0x090003fe),);
    assert_eq!(DLCmd::alpha_test(options::TestFunc::Never, 0), DLCmd::from_raw(0x09000000),);
    assert_eq!(DLCmd::begin(options::GraphicsPrimitive::Bitmaps), DLCmd::from_raw(0x1f000001),);
    assert_eq!(DLCmd::begin(options::GraphicsPrimitive::Rects), DLCmd::from_raw(0x1f000009),);
    assert_eq!(DLCmd::bitmap_cell(2), DLCmd::from_raw(0x06000002));
    assert_eq!(DLCmd::bitmap_ext_format(options::BitmapExtFormat::ARGB1555), DLCmd::from_raw(0x2e000000),);
    assert_eq!(DLCmd::bitmap_ext_format(options::BitmapExtFormat::ARGB4), DLCmd::from_raw(0x2e000006),);
    assert_eq!(DLCmd::bitmap_ext_format(options::BitmapExtFormat::TextVGA), DLCmd::from_raw(0x2e00000a),);
    assert_eq!(DLCmd::bitmap_handle(options::BitmapHandle::force_raw(0)), DLCmd::from_raw(0x05000000),);
    assert_eq!(DLCmd::bitmap_handle(options::BitmapHandle::force_raw(15)), DLCmd::from_raw(0x0500000f),);
    assert_eq!(DLCmd::bitmap_handle(options::BitmapHandle::force_raw(31)), DLCmd::from_raw(0x0500001f),);
    assert_eq!(DLCmd::bitmap_layout_l(options::BitmapFormat::ARGB4, 255, 255), DLCmd::from_raw(0x0731feff),);
    assert_eq!(DLCmd::bitmap_layout_l(options::BitmapFormat::ARGB4, 1024, 768), DLCmd::from_raw(0x07300100),);
    assert_eq!(DLCmd::bitmap_layout_h(255, 255), DLCmd::from_raw(0x28000000));
    assert_eq!(DLCmd::bitmap_layout_h(1024, 768), DLCmd::from_raw(0x28000004));
    assert_eq!(
        DLCmd::bitmap_layout_pair(options::BitmapFormat::ARGB4, 255, 255),
        (DLCmd::from_raw(0x0731feff), DLCmd::from_raw(0x28000000)),
    );
    assert_eq!(
        DLCmd::bitmap_layout_pair(options::BitmapFormat::ARGB4, 1024, 768),
        (DLCmd::from_raw(0x07300100), DLCmd::from_raw(0x28000004)),
    );
    assert_eq!(
        DLCmd::bitmap_swizzle(options::BitmapSwizzle::default()),
        DLCmd::from_raw(0x2f000000 | 0b010011100101),
    );
    assert_eq!(
        DLCmd::bitmap_size_l(
            255,
            255,
            options::BitmapSizeFilter::Nearest,
            options::BitmapWrapMode::Border,
            options::BitmapWrapMode::Border
        ),
        DLCmd::from_raw(0x0801feff),
    );
    assert_eq!(
        DLCmd::bitmap_size_l(
            2048,
            2048,
            options::BitmapSizeFilter::Nearest,
            options::BitmapWrapMode::Border,
            options::BitmapWrapMode::Border
        ),
        DLCmd::from_raw(0x08000000),
    );
    assert_eq!(
        DLCmd::bitmap_size_l(
            1024,
            768,
            options::BitmapSizeFilter::Nearest,
            options::BitmapWrapMode::Border,
            options::BitmapWrapMode::Border
        ),
        DLCmd::from_raw(0x08000100),
    );
    assert_eq!(
        DLCmd::bitmap_size_l(
            1,
            1,
            options::BitmapSizeFilter::Bilinear,
            options::BitmapWrapMode::Border,
            options::BitmapWrapMode::Border
        ),
        DLCmd::from_raw(0x08100201),
    );
    assert_eq!(
        DLCmd::bitmap_size_l(
            1,
            1,
            options::BitmapSizeFilter::Nearest,
            options::BitmapWrapMode::Repeat,
            options::BitmapWrapMode::Border
        ),
        DLCmd::from_raw(0x08080201),
    );
    assert_eq!(
        DLCmd::bitmap_size_l(
            1,
            1,
            options::BitmapSizeFilter::Nearest,
            options::BitmapWrapMode::Border,
            options::BitmapWrapMode::Repeat
        ),
        DLCmd::from_raw(0x08040201),
    );
    assert_eq!(
        DLCmd::bitmap_size_pair(
            255,
            255,
            options::BitmapSizeFilter::Nearest,
            options::BitmapWrapMode::Border,
            options::BitmapWrapMode::Border
        ),
        (DLCmd::from_raw(0x0801feff), DLCmd::from_raw(0x29000000))
    );
    assert_eq!(
        DLCmd::bitmap_size_pair(
            2048,
            2048,
            options::BitmapSizeFilter::Nearest,
            options::BitmapWrapMode::Border,
            options::BitmapWrapMode::Border
        ),
        (DLCmd::from_raw(0x08000000), DLCmd::from_raw(0x29000000)),
    );
    assert_eq!(
        DLCmd::bitmap_size_pair(
            1024,
            768,
            options::BitmapSizeFilter::Nearest,
            options::BitmapWrapMode::Border,
            options::BitmapWrapMode::Border
        ),
        (DLCmd::from_raw(0x08000100), DLCmd::from_raw(0x29000009)),
    );
    assert_eq!(
        DLCmd::bitmap_size_pair(
            3 * 256,
            3 * 240,
            options::BitmapSizeFilter::Nearest,
            options::BitmapWrapMode::Repeat,
            options::BitmapWrapMode::Repeat
        ),
        (
            DLCmd::from_raw(0b00001000_000_0_1_1_100000000_011010000),
            DLCmd::from_raw(0b00101001_00000000000000000000_01_01)
        )
    );
    assert_eq!(DLCmd::bitmap_source(Ptr::<TestMainMem>::new(0x20)), DLCmd::from_raw(0x01000020),);
    assert_eq!(DLCmd::bitmap_transform_a(1), DLCmd::from_raw(0x15000100));
    assert_eq!(DLCmd::bitmap_transform_b(coeff(0.5)), DLCmd::from_raw(0x16014000));
    assert_eq!(DLCmd::bitmap_transform_c(coeff(1.5)), DLCmd::from_raw(0x17000180));
    assert_eq!(DLCmd::bitmap_transform_d(-1), DLCmd::from_raw(0x1800ff00));
    assert_eq!(DLCmd::bitmap_transform_e(coeff(-1.5)), DLCmd::from_raw(0x1900fe80));
    assert_eq!(DLCmd::bitmap_transform_f(options::MatrixCoeff::new_8_8(2, 3)), DLCmd::from_raw(0x1a000203));
    assert_eq!(
        DLCmd::blend_func(options::BlendFunc::SrcAlpha, options::BlendFunc::OneMinusDstAlpha),
        DLCmd::from_raw(0x0b000015)
    );
    assert_eq!(DLCmd::call(TestDisplayListMem::ptr(4)), DLCmd::from_raw(0x1d000004));
    assert_eq!(DLCmd::clear_stencil(5), DLCmd::from_raw(0x11000005));
    assert_eq!(DLCmd::clear_tag(6), DLCmd::from_raw(0x12000006));
    assert_eq!(DLCmd::color_alpha(8), DLCmd::from_raw(0x10000008));
    assert_eq!(DLCmd::color_mask(core::default::Default::default()), DLCmd::from_raw(0x2000000f));
    assert_eq!(DLCmd::color_rgb(evegfx::graphics::RGB { r: 9, g: 8, b: 7 }), DLCmd::from_raw(0x04090807));
    assert_eq!(DLCmd::line_width(4094), DLCmd::from_raw(0x0e000ffe));
    assert_eq!(DLCmd::scissor_size((10, 8)), DLCmd::from_raw(0x1c00a008));
    assert_eq!(DLCmd::scissor_pos((10, 8)), DLCmd::from_raw(0x1b002808));
    assert_eq!(DLCmd::stencil_test(options::TestFunc::Greater, 254, 2), DLCmd::from_raw(0x0a03fe02),);
    assert_eq!(DLCmd::stencil_test(options::TestFunc::Never, 0, 4), DLCmd::from_raw(0x0a000004),);
    assert_eq!(DLCmd::stencil_mask(4), DLCmd::from_raw(0x13000004));
    assert_eq!(
        DLCmd::stencil_op(options::StencilOp::Keep, options::StencilOp::Replace),
        DLCmd::from_raw(0x0c00000a),
    );
    assert_eq!(DLCmd::tag(4), DLCmd::from_raw(0x03000004));
    assert_eq!(DLCmd::tag_mask(true), DLCmd::from_raw(0x14000001));
    assert_eq!(DLCmd::tag_mask(false), DLCmd::from_raw(0x14000000));
    assert_eq!(DLCmd::vertex_format(options::VertexFormat::Sixteenth), DLCmd::from_raw(0x27000004));
    assert_eq!(DLCmd::vertex_translate_x(2), DLCmd::from_raw(0x2b000002));
    assert_eq!(DLCmd::vertex_translate_y(4), DLCmd::from_raw(0x2c000004));
}

#[test]
fn bitmap_transform_matrix_appends_six_coefficients() {
    let mut b = LogBuilder::new();
    let m = options::Matrix3x2::from_rows(
        (MatrixCoeff::new_int(1), MatrixCoeff::new_int(0), MatrixCoeff::new_int(2)),
        (MatrixCoeff::new_int(0), MatrixCoeff::new_int(-1), MatrixCoeff::new_int(3)),
    );
    b.bitmap_transform_matrix(m).unwrap();
    assert_eq!(b.words, vec![0x15000100, 0x16000000, 0x17000200, 0x18000000, 0x1900ff00, 0x1a000300]);
}

#[test]
fn bitmap_transform_matrix_stops_at_failure() {
    let mut b = LogBuilder::new();
    b.fail_after = Some(2);
    assert!(b.bitmap_transform_matrix(options::Matrix3x2::identity()).is_err());
    assert_eq!(b.words, vec![0x15000100, 0x16000000]);
}

#[test]
fn bitmap_source_all_describes_bitmap() {
    let mut b = LogBuilder::new();
    let bmp: Bitmap<TestMainMem> =
        Bitmap::new_without_palette(options::BitmapFormat::RGB565, Ptr::new(0x100), 10, 4);
    b.bitmap_source_all(bmp).unwrap();
    // Source, then the layout with a stride of 20 bytes and 4 lines.
    assert_eq!(b.words, vec![0x01000100, 0x07380004 | (20 << 9), 0x28000000]);
}

#[test]
fn bitmap_source_all_adds_ext_format_and_palette() {
    let mut b = LogBuilder::new();
    let bmp: Bitmap<TestMainMem> = Bitmap {
        image_data: Ptr::new(0x200),
        palette_data: Some(Ptr::new(0x300)),
        format: options::BitmapExtFormat::CompressedRGBAASTC4x4KHR,
        width: 8,
        height: 8,
        stride: 32,
    };
    b.bitmap_source_all(bmp).unwrap();
    assert_eq!(b.words.len(), 5);
    assert_eq!(b.words[0], 0x01000200);
    assert_eq!(b.words[1] >> 19, (0x07 << 5) | 31);
    assert_eq!(b.words[3], 0x2e000000 | 37808);
    assert_eq!(b.words[4], 0x2a000300);
}

#[test]
fn draw_iter_brackets_vertices() {
    let mut b = LogBuilder::new();
    let vs: [Vertex2F; 2] = [Vertex2F::new(1, 2), Vertex2F::new(3, 4)];
    b.draw_iter(options::GraphicsPrimitive::Points, &vs[..]).unwrap();
    assert_eq!(b.words, vec![0x1f000002, 0x40008002, 0x40018004, 0x21000000]);
}

#[test]
fn draw_appends_begin_vertices_end() {
    let mut b = LogBuilder::new();
    b.draw(options::GraphicsPrimitive::LineStrip, |mut shape| {
        shape.vertex_2f((10, 10))?;
        shape.vertex_2f((100, 10))
    })
    .unwrap();
    assert_eq!(b.words.len(), 4);
    assert_eq!(b.words[0], 0x1f000004);
    assert_eq!(*b.words.last().unwrap(), 0x21000000);
}

#[test]
fn scissor_rect_appends_pos_and_size() {
    let mut b = LogBuilder::new();
    b.scissor_rect((10u16, 8u16, 100u16, 50u16)).unwrap();
    assert_eq!(b.words, vec![0x1b002808, 0x1c064032]);
}

#[test]
fn just_builder_forwards() {
    let mut b = LogBuilder::new();
    {
        let mut jb = just_builder(&mut b);
        jb.display().unwrap();
    }
    assert_eq!(b.words, vec![0x00000000]);
}

#[test]
fn pair_commands_stop_after_first_failure() {
    let mut b = LogBuilder::new();
    b.fail_after = Some(1);
    assert!(b.clear_color_rgba(evegfx::graphics::RGBA { r: 1, g: 2, b: 3, a: 4 }).is_err());
    assert_eq!(b.words, vec![0x02010203]);
}

#[test]
fn draw_returns_the_closure_error_and_skips_end() {
    let mut b = LogBuilder::new();
    let r = b.draw(options::GraphicsPrimitive::Points, |mut shape| {
        shape.vertex_2f((1, 1))?;
        Err(())
    });
    assert_eq!(r, Err(()));
    assert_eq!(b.words.len(), 2);
    assert_eq!(b.words[0], 0x1f000002);
}

#[test]
fn draw_refused_begin_leaves_log() {
    let mut b = LogBuilder::new();
    b.fail_after = Some(0);
    let mut called = false;
    let r = b.draw(options::GraphicsPrimitive::Points, |_shape| {
        called = true;
        Ok(())
    });
    assert_eq!(r, Err(()));
    assert!(!called);
    assert!(b.words.is_empty());
}

#[test]
fn vertex_2f_keeps_fifteen_signed_bits() {
    assert_eq!(DLCmd::vertex_2f((10, 20)).as_raw(), 0x40050014);
    assert_eq!(DLCmd::vertex_2f((-1, 0)).as_raw(), 0x7fff8000);
    assert_eq!(DLCmd::vertex_2f((-16384, 16383)).as_raw(), 0x60003fff);
    assert_eq!(DLCmd::vertex_2f_of(Vertex2F::new(10, 20)).as_raw(), 0x40050014);
}

#[test]
fn bitmap_transform_keeps_opcode_for_negative_fractions() {
    assert_eq!(DLCmd::bitmap_transform_a(MatrixCoeff::new_1_15(-25)), DLCmd::from_raw(0x1501e000));
    assert_eq!(DLCmd::bitmap_transform_with(0x1a, MatrixCoeff::new_8_8(2, 3)), DLCmd::from_raw(0x1a000203));
}

#[test]
fn bitmap_transform_matrix_of_appends_six_rows() {
    let mut b = LogBuilder::new();
    b.bitmap_transform_matrix_of(options::Matrix3x2::identity()).unwrap();
    assert_eq!(b.words, vec![0x15000100, 0x16000000, 0x17000000, 0x18000000, 0x19000100, 0x1a000000]);
}
