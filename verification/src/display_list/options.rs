//! Data types for various arguments to display list commands.

use vstd::prelude::*;
use vstd::std_specs::convert::{FromSpecImpl, IntoSpec, TryFromSpecImpl};

verus! {

/// Test function options for both alpha test and stencil test during drawing
/// operations. This is used by both the `alpha_test` and `stencil_test`
/// methods.
#[derive(Clone, Copy, PartialEq, Eq, Debug)]
pub enum TestFunc {
    Never,
    Less,
    LEqual,
    Greater,
    GEqual,
    Equal,
    NotEqual,
    Always,
}

impl TestFunc {
    /// The raw encoding of the value.
    pub open spec fn spec_raw(self) -> u8 {
        match self {
            TestFunc::Never => 0,
            TestFunc::Less => 1,
            TestFunc::LEqual => 2,
            TestFunc::Greater => 3,
            TestFunc::GEqual => 4,
            TestFunc::Equal => 5,
            TestFunc::NotEqual => 6,
            TestFunc::Always => 7,
        }
    }

    /// Returns the raw encoding of the value.
    pub fn to_raw(self) -> (r: u8)
        ensures
            r == self.spec_raw(),
    {
        match self {
            TestFunc::Never => 0,
            TestFunc::Less => 1,
            TestFunc::LEqual => 2,
            TestFunc::Greater => 3,
            TestFunc::GEqual => 4,
            TestFunc::Equal => 5,
            TestFunc::NotEqual => 6,
            TestFunc::Always => 7,
        }
    }

    /// Returns the value whose raw encoding is `raw`, if there is one.
    pub fn from_raw(raw: u8) -> (r: Option<Self>)
        ensures
            match r {
                Some(v) => v.spec_raw() == raw,
                None => forall|v: Self| v.spec_raw() != raw,
            },
    {
        match raw {
            0 => Some(TestFunc::Never),
            1 => Some(TestFunc::Less),
            2 => Some(TestFunc::LEqual),
            3 => Some(TestFunc::Greater),
            4 => Some(TestFunc::GEqual),
            5 => Some(TestFunc::Equal),
            6 => Some(TestFunc::NotEqual),
            7 => Some(TestFunc::Always),
            _ => None,
        }
    }
}

/// The kinds of graphics primitive that `begin` can start drawing.
#[derive(Clone, Copy, PartialEq, Eq, Debug)]
pub enum GraphicsPrimitive {
    Bitmaps,
    Points,
    Lines,
    LineStrip,
    EdgeStripR,
    EdgeStripL,
    EdgeStripA,
    EdgeStripB,
    Rects,
}

impl GraphicsPrimitive {
    /// The raw encoding of the value.
    pub open spec fn spec_raw(self) -> u8 {
        match self {
            GraphicsPrimitive::Bitmaps => 1,
            GraphicsPrimitive::Points => 2,
            GraphicsPrimitive::Lines => 3,
            GraphicsPrimitive::LineStrip => 4,
            GraphicsPrimitive::EdgeStripR => 5,
            GraphicsPrimitive::EdgeStripL => 6,
            GraphicsPrimitive::EdgeStripA => 7,
            GraphicsPrimitive::EdgeStripB => 8,
            GraphicsPrimitive::Rects => 9,
        }
    }

    /// Returns the raw encoding of the value.
    pub fn to_raw(self) -> (r: u8)
        ensures
            r == self.spec_raw(),
    {
        match self {
            GraphicsPrimitive::Bitmaps => 1,
            GraphicsPrimitive::Points => 2,
            GraphicsPrimitive::Lines => 3,
            GraphicsPrimitive::LineStrip => 4,
            GraphicsPrimitive::EdgeStripR => 5,
            GraphicsPrimitive::EdgeStripL => 6,
            GraphicsPrimitive::EdgeStripA => 7,
            GraphicsPrimitive::EdgeStripB => 8,
            GraphicsPrimitive::Rects => 9,
        }
    }

    /// Returns the value whose raw encoding is `raw`, if there is one.
    pub fn from_raw(raw: u8) -> (r: Option<Self>)
        ensures
            match r {
                Some(v) => v.spec_raw() == raw,
                None => forall|v: Self| v.spec_raw() != raw,
            },
    {
        match raw {
            1 => Some(GraphicsPrimitive::Bitmaps),
            2 => Some(GraphicsPrimitive::Points),
            3 => Some(GraphicsPrimitive::Lines),
            4 => Some(GraphicsPrimitive::LineStrip),
            5 => Some(GraphicsPrimitive::EdgeStripR),
            6 => Some(GraphicsPrimitive::EdgeStripL),
            7 => Some(GraphicsPrimitive::EdgeStripA),
            8 => Some(GraphicsPrimitive::EdgeStripB),
            9 => Some(GraphicsPrimitive::Rects),
            _ => None,
        }
    }
}

/// The pixel formats of a bitmap, including the extended formats.
#[derive(Clone, Copy, PartialEq, Eq, Debug)]
pub enum BitmapExtFormat {
    ARGB1555,
    L1,
    L4,
    L8,
    RGB332,
    ARGB2,
    ARGB4,
    RGB565,
    Text8x8,
    TextVGA,
    Bargraph,
    Paletted565,
    Paletted4444,
    Paletted8,
    L2,
    CompressedRGBAASTC4x4KHR,
    CompressedRGBAASTC5x4KHR,
    CompressedRGBAASTC5x5KHR,
    CompressedRGBAASTC6x5KHR,
    CompressedRGBAASTC6x6KHR,
    CompressedRGBAASTC8x5KHR,
    CompressedRGBAASTC8x6KHR,
    CompressedRGBAASTC8x8KHR,
    CompressedRGBAASTC10x5KHR,
    CompressedRGBAASTC10x6KHR,
    CompressedRGBAASTC10x8KHR,
    CompressedRGBAASTC10x10KHR,
    CompressedRGBAASTC12x10KHR,
    CompressedRGBAASTC12x12KHR,
}

impl BitmapExtFormat {
    /// The raw encoding of the value.
    pub open spec fn spec_raw(self) -> u16 {
        match self {
            BitmapExtFormat::ARGB1555 => 0,
            BitmapExtFormat::L1 => 1,
            BitmapExtFormat::L4 => 2,
            BitmapExtFormat::L8 => 3,
            BitmapExtFormat::RGB332 => 4,
            BitmapExtFormat::ARGB2 => 5,
            BitmapExtFormat::ARGB4 => 6,
            BitmapExtFormat::RGB565 => 7,
            BitmapExtFormat::Text8x8 => 9,
            BitmapExtFormat::TextVGA => 10,
            BitmapExtFormat::Bargraph => 11,
            BitmapExtFormat::Paletted565 => 14,
            BitmapExtFormat::Paletted4444 => 15,
            BitmapExtFormat::Paletted8 => 16,
            BitmapExtFormat::L2 => 17,
            BitmapExtFormat::CompressedRGBAASTC4x4KHR => 37808,
            BitmapExtFormat::CompressedRGBAASTC5x4KHR => 37809,
            BitmapExtFormat::CompressedRGBAASTC5x5KHR => 37810,
            BitmapExtFormat::CompressedRGBAASTC6x5KHR => 37811,
            BitmapExtFormat::CompressedRGBAASTC6x6KHR => 37812,
            BitmapExtFormat::CompressedRGBAASTC8x5KHR => 37813,
            BitmapExtFormat::CompressedRGBAASTC8x6KHR => 37814,
            BitmapExtFormat::CompressedRGBAASTC8x8KHR => 37815,
            BitmapExtFormat::CompressedRGBAASTC10x5KHR => 37816,
            BitmapExtFormat::CompressedRGBAASTC10x6KHR => 37817,
            BitmapExtFormat::CompressedRGBAASTC10x8KHR => 37818,
            BitmapExtFormat::CompressedRGBAASTC10x10KHR => 37819,
            BitmapExtFormat::CompressedRGBAASTC12x10KHR => 37820,
            BitmapExtFormat::CompressedRGBAASTC12x12KHR => 37821,
        }
    }

    /// Returns the raw encoding of the value.
    pub fn to_raw(self) -> (r: u16)
        ensures
            r == self.spec_raw(),
    {
        match self {
            BitmapExtFormat::ARGB1555 => 0,
            BitmapExtFormat::L1 => 1,
            BitmapExtFormat::L4 => 2,
            BitmapExtFormat::L8 => 3,
            BitmapExtFormat::RGB332 => 4,
            BitmapExtFormat::ARGB2 => 5,
            BitmapExtFormat::ARGB4 => 6,
            BitmapExtFormat::RGB565 => 7,
            BitmapExtFormat::Text8x8 => 9,
            BitmapExtFormat::TextVGA => 10,
            BitmapExtFormat::Bargraph => 11,
            BitmapExtFormat::Paletted565 => 14,
            BitmapExtFormat::Paletted4444 => 15,
            BitmapExtFormat::Paletted8 => 16,
            BitmapExtFormat::L2 => 17,
            BitmapExtFormat::CompressedRGBAASTC4x4KHR => 37808,
            BitmapExtFormat::CompressedRGBAASTC5x4KHR => 37809,
            BitmapExtFormat::CompressedRGBAASTC5x5KHR => 37810,
            BitmapExtFormat::CompressedRGBAASTC6x5KHR => 37811,
            BitmapExtFormat::CompressedRGBAASTC6x6KHR => 37812,
            BitmapExtFormat::CompressedRGBAASTC8x5KHR => 37813,
            BitmapExtFormat::CompressedRGBAASTC8x6KHR => 37814,
            BitmapExtFormat::CompressedRGBAASTC8x8KHR => 37815,
            BitmapExtFormat::CompressedRGBAASTC10x5KHR => 37816,
            BitmapExtFormat::CompressedRGBAASTC10x6KHR => 37817,
            BitmapExtFormat::CompressedRGBAASTC10x8KHR => 37818,
            BitmapExtFormat::CompressedRGBAASTC10x10KHR => 37819,
            BitmapExtFormat::CompressedRGBAASTC12x10KHR => 37820,
            BitmapExtFormat::CompressedRGBAASTC12x12KHR => 37821,
        }
    }

    /// Returns the value whose raw encoding is `raw`, if there is one.
    pub fn from_raw(raw: u16) -> (r: Option<Self>)
        ensures
            match r {
                Some(v) => v.spec_raw() == raw,
                None => forall|v: Self| v.spec_raw() != raw,
            },
    {
        match raw {
            0 => Some(BitmapExtFormat::ARGB1555),
            1 => Some(BitmapExtFormat::L1),
            2 => Some(BitmapExtFormat::L4),
            3 => Some(BitmapExtFormat::L8),
            4 => Some(BitmapExtFormat::RGB332),
            5 => Some(BitmapExtFormat::ARGB2),
            6 => Some(BitmapExtFormat::ARGB4),
            7 => Some(BitmapExtFormat::RGB565),
            9 => Some(BitmapExtFormat::Text8x8),
            10 => Some(BitmapExtFormat::TextVGA),
            11 => Some(BitmapExtFormat::Bargraph),
            14 => Some(BitmapExtFormat::Paletted565),
            15 => Some(BitmapExtFormat::Paletted4444),
            16 => Some(BitmapExtFormat::Paletted8),
            17 => Some(BitmapExtFormat::L2),
            37808 => Some(BitmapExtFormat::CompressedRGBAASTC4x4KHR),
            37809 => Some(BitmapExtFormat::CompressedRGBAASTC5x4KHR),
            37810 => Some(BitmapExtFormat::CompressedRGBAASTC5x5KHR),
            37811 => Some(BitmapExtFormat::CompressedRGBAASTC6x5KHR),
            37812 => Some(BitmapExtFormat::CompressedRGBAASTC6x6KHR),
            37813 => Some(BitmapExtFormat::CompressedRGBAASTC8x5KHR),
            37814 => Some(BitmapExtFormat::CompressedRGBAASTC8x6KHR),
            37815 => Some(BitmapExtFormat::CompressedRGBAASTC8x8KHR),
            37816 => Some(BitmapExtFormat::CompressedRGBAASTC10x5KHR),
            37817 => Some(BitmapExtFormat::CompressedRGBAASTC10x6KHR),
            37818 => Some(BitmapExtFormat::CompressedRGBAASTC10x8KHR),
            37819 => Some(BitmapExtFormat::CompressedRGBAASTC10x10KHR),
            37820 => Some(BitmapExtFormat::CompressedRGBAASTC12x10KHR),
            37821 => Some(BitmapExtFormat::CompressedRGBAASTC12x12KHR),
            _ => None,
        }
    }
}

/// The base pixel formats of a bitmap. `GLFormat` marks that the format is
/// given as a `BitmapExtFormat` instead.
#[derive(Clone, Copy, PartialEq, Eq, Debug)]
pub enum BitmapFormat {
    ARGB1555,
    L1,
    L4,
    L8,
    RGB332,
    ARGB2,
    ARGB4,
    RGB565,
    Text8x8,
    TextVGA,
    Bargraph,
    Paletted565,
    Paletted4444,
    Paletted8,
    L2,
    GLFormat,
}

impl BitmapFormat {
    /// The raw encoding of the value.
    pub open spec fn spec_raw(self) -> u8 {
        match self {
            BitmapFormat::ARGB1555 => 0,
            BitmapFormat::L1 => 1,
            BitmapFormat::L4 => 2,
            BitmapFormat::L8 => 3,
            BitmapFormat::RGB332 => 4,
            BitmapFormat::ARGB2 => 5,
            BitmapFormat::ARGB4 => 6,
            BitmapFormat::RGB565 => 7,
            BitmapFormat::Text8x8 => 9,
            BitmapFormat::TextVGA => 10,
            BitmapFormat::Bargraph => 11,
            BitmapFormat::Paletted565 => 14,
            BitmapFormat::Paletted4444 => 15,
            BitmapFormat::Paletted8 => 16,
            BitmapFormat::L2 => 17,
            BitmapFormat::GLFormat => 31,
        }
    }

    /// Returns the raw encoding of the value.
    pub fn to_raw(self) -> (r: u8)
        ensures
            r == self.spec_raw(),
    {
        match self {
            BitmapFormat::ARGB1555 => 0,
            BitmapFormat::L1 => 1,
            BitmapFormat::L4 => 2,
            BitmapFormat::L8 => 3,
            BitmapFormat::RGB332 => 4,
            BitmapFormat::ARGB2 => 5,
            BitmapFormat::ARGB4 => 6,
            BitmapFormat::RGB565 => 7,
            BitmapFormat::Text8x8 => 9,
            BitmapFormat::TextVGA => 10,
            BitmapFormat::Bargraph => 11,
            BitmapFormat::Paletted565 => 14,
            BitmapFormat::Paletted4444 => 15,
            BitmapFormat::Paletted8 => 16,
            BitmapFormat::L2 => 17,
            BitmapFormat::GLFormat => 31,
        }
    }

    /// Returns the value whose raw encoding is `raw`, if there is one.
    pub fn from_raw(raw: u8) -> (r: Option<Self>)
        ensures
            match r {
                Some(v) => v.spec_raw() == raw,
                None => forall|v: Self| v.spec_raw() != raw,
            },
    {
        match raw {
            0 => Some(BitmapFormat::ARGB1555),
            1 => Some(BitmapFormat::L1),
            2 => Some(BitmapFormat::L4),
            3 => Some(BitmapFormat::L8),
            4 => Some(BitmapFormat::RGB332),
            5 => Some(BitmapFormat::ARGB2),
            6 => Some(BitmapFormat::ARGB4),
            7 => Some(BitmapFormat::RGB565),
            9 => Some(BitmapFormat::Text8x8),
            10 => Some(BitmapFormat::TextVGA),
            11 => Some(BitmapFormat::Bargraph),
            14 => Some(BitmapFormat::Paletted565),
            15 => Some(BitmapFormat::Paletted4444),
            16 => Some(BitmapFormat::Paletted8),
            17 => Some(BitmapFormat::L2),
            31 => Some(BitmapFormat::GLFormat),
            _ => None,
        }
    }
}

/// A source for one channel of a swizzled bitmap.
#[derive(Clone, Copy, PartialEq, Eq, Debug)]
pub enum BitmapSwizzleSource {
    Zero,
    One,
    Red,
    Green,
    Blue,
    Alpha,
}

impl BitmapSwizzleSource {
    /// The raw encoding of the value.
    pub open spec fn spec_raw(self) -> u8 {
        match self {
            BitmapSwizzleSource::Zero => 0,
            BitmapSwizzleSource::One => 1,
            BitmapSwizzleSource::Red => 2,
            BitmapSwizzleSource::Green => 3,
            BitmapSwizzleSource::Blue => 4,
            BitmapSwizzleSource::Alpha => 5,
        }
    }

    /// Returns the raw encoding of the value.
    pub fn to_raw(self) -> (r: u8)
        ensures
            r == self.spec_raw(),
    {
        match self {
            BitmapSwizzleSource::Zero => 0,
            BitmapSwizzleSource::One => 1,
            BitmapSwizzleSource::Red => 2,
            BitmapSwizzleSource::Green => 3,
            BitmapSwizzleSource::Blue => 4,
            BitmapSwizzleSource::Alpha => 5,
        }
    }
}

/// The blending factors are EVE's constants: `ZERO` is 0 and `ONE` is 1,
/// then `SRC_ALPHA` and `DST_ALPHA` follow in turn, and each "one minus"
/// factor lies two above the factor it complements.
pub proof fn lemma_blend_factor_codes()
    ensures
        BlendFunc::Zero.spec_raw() == 0,
        BlendFunc::One.spec_raw() == BlendFunc::Zero.spec_raw() + 1,
        BlendFunc::SrcAlpha.spec_raw() == BlendFunc::One.spec_raw() + 1,
        BlendFunc::DstAlpha.spec_raw() == BlendFunc::SrcAlpha.spec_raw() + 1,
        BlendFunc::OneMinusSrcAlpha.spec_raw() == BlendFunc::SrcAlpha.spec_raw() + 2,
        BlendFunc::OneMinusDstAlpha.spec_raw() == BlendFunc::DstAlpha.spec_raw() + 2,
        BlendFunc::SrcAlpha.spec_raw() == 2 && BlendFunc::DstAlpha.spec_raw() == 3,
        BlendFunc::OneMinusSrcAlpha.spec_raw() == 4 && BlendFunc::OneMinusDstAlpha.spec_raw() == 5,
{
}

/// A blending factor for `blend_func`.
#[derive(Clone, Copy, PartialEq, Eq, Debug)]
pub enum BlendFunc {
    Zero,
    One,
    SrcAlpha,
    DstAlpha,
    OneMinusSrcAlpha,
    OneMinusDstAlpha,
}

impl BlendFunc {
    /// The raw encoding of the value.
    pub open spec fn spec_raw(self) -> u8 {
        match self {
            BlendFunc::Zero => 0,
            BlendFunc::One => 1,
            BlendFunc::SrcAlpha => 2,
            BlendFunc::DstAlpha => 3,
            BlendFunc::OneMinusSrcAlpha => 4,
            BlendFunc::OneMinusDstAlpha => 5,
        }
    }

    /// Returns the raw encoding of the value.
    pub fn to_raw(self) -> (r: u8)
        ensures
            r == self.spec_raw(),
    {
        match self {
            BlendFunc::Zero => 0,
            BlendFunc::One => 1,
            BlendFunc::SrcAlpha => 2,
            BlendFunc::DstAlpha => 3,
            BlendFunc::OneMinusSrcAlpha => 4,
            BlendFunc::OneMinusDstAlpha => 5,
        }
    }
}

/// An operation on the stencil buffer.
#[derive(Clone, Copy, PartialEq, Eq, Debug)]
pub enum StencilOp {
    Zero,
    Keep,
    Replace,
    Incr,
    Decr,
    Invert,
}

impl StencilOp {
    /// The raw encoding of the value.
    pub open spec fn spec_raw(self) -> u8 {
        match self {
            StencilOp::Zero => 0,
            StencilOp::Keep => 1,
            StencilOp::Replace => 2,
            StencilOp::Incr => 3,
            StencilOp::Decr => 4,
            StencilOp::Invert => 5,
        }
    }

    /// Returns the raw encoding of the value.
    pub fn to_raw(self) -> (r: u8)
        ensures
            r == self.spec_raw(),
    {
        match self {
            StencilOp::Zero => 0,
            StencilOp::Keep => 1,
            StencilOp::Replace => 2,
            StencilOp::Incr => 3,
            StencilOp::Decr => 4,
            StencilOp::Invert => 5,
        }
    }
}

/// The precision of `vertex_2f` coordinates, in subpixels per pixel.
#[derive(Clone, Copy, PartialEq, Eq, Debug)]
pub enum VertexFormat {
    Whole,
    Half,
    Quarter,
    Eighth,
    Sixteenth,
}

impl VertexFormat {
    /// The raw encoding of the value.
    pub open spec fn spec_raw(self) -> u8 {
        match self {
            VertexFormat::Whole => 0,
            VertexFormat::Half => 1,
            VertexFormat::Quarter => 2,
            VertexFormat::Eighth => 3,
            VertexFormat::Sixteenth => 4,
        }
    }

    /// Returns the raw encoding of the value.
    pub fn to_raw(self) -> (r: u8)
        ensures
            r == self.spec_raw(),
    {
        match self {
            VertexFormat::Whole => 0,
            VertexFormat::Half => 1,
            VertexFormat::Quarter => 2,
            VertexFormat::Eighth => 3,
            VertexFormat::Sixteenth => 4,
        }
    }
}

/// The filtering mode for drawing a bitmap.
#[derive(Clone, Copy, PartialEq, Eq, Debug)]
pub enum BitmapSizeFilter {
    Nearest,
    Bilinear,
}

impl BitmapSizeFilter {
    /// The raw encoding of the value.
    pub open spec fn spec_raw(self) -> u8 {
        match self {
            BitmapSizeFilter::Nearest => 0,
            BitmapSizeFilter::Bilinear => 1,
        }
    }

    /// Returns the raw encoding of the value.
    pub fn to_raw(self) -> (r: u8)
        ensures
            r == self.spec_raw(),
    {
        match self {
            BitmapSizeFilter::Nearest => 0,
            BitmapSizeFilter::Bilinear => 1,
        }
    }

    /// Returns the value whose raw encoding is `raw`, if there is one.
    pub fn from_raw(raw: u8) -> (r: Option<Self>)
        ensures
            match r {
                Some(v) => v.spec_raw() == raw,
                None => forall|v: Self| v.spec_raw() != raw,
            },
    {
        match raw {
            0 => Some(BitmapSizeFilter::Nearest),
            1 => Some(BitmapSizeFilter::Bilinear),
            _ => None,
        }
    }
}

/// How a bitmap wraps at its edges.
#[derive(Clone, Copy, PartialEq, Eq, Debug)]
pub enum BitmapWrapMode {
    Border,
    Repeat,
}

impl BitmapWrapMode {
    /// The raw encoding of the value.
    pub open spec fn spec_raw(self) -> u8 {
        match self {
            BitmapWrapMode::Border => 0,
            BitmapWrapMode::Repeat => 1,
        }
    }

    /// Returns the raw encoding of the value.
    pub fn to_raw(self) -> (r: u8)
        ensures
            r == self.spec_raw(),
    {
        match self {
            BitmapWrapMode::Border => 0,
            BitmapWrapMode::Repeat => 1,
        }
    }

    /// Returns the value whose raw encoding is `raw`, if there is one.
    pub fn from_raw(raw: u8) -> (r: Option<Self>)
        ensures
            match r {
                Some(v) => v.spec_raw() == raw,
                None => forall|v: Self| v.spec_raw() != raw,
            },
    {
        match raw {
            0 => Some(BitmapWrapMode::Border),
            1 => Some(BitmapWrapMode::Repeat),
            _ => None,
        }
    }
}

impl BitmapFormat {
    /// The number of bits each pixel (or character cell) occupies in memory.
    pub open spec fn bits_per_pixel(self) -> int {
        match self {
            BitmapFormat::ARGB1555 => 16,
            BitmapFormat::L1 => 1,
            BitmapFormat::L4 => 4,
            BitmapFormat::L8 => 8,
            BitmapFormat::RGB332 => 8,
            BitmapFormat::ARGB2 => 8,
            BitmapFormat::ARGB4 => 16,
            BitmapFormat::RGB565 => 16,
            BitmapFormat::Text8x8 => 8,
            BitmapFormat::TextVGA => 16,
            BitmapFormat::Bargraph => 8,
            BitmapFormat::Paletted565 => 8,
            BitmapFormat::Paletted4444 => 8,
            BitmapFormat::Paletted8 => 8,
            BitmapFormat::L2 => 2,
            BitmapFormat::GLFormat => 0,
        }
    }

    /// The bits that one pixel (or character cell) is made of, as the
    /// format's name lays them out: its colour and alpha channels, its
    /// luminance bits, its palette index byte, or a character byte and, for
    /// `TextVGA`, an attribute byte.
    pub open spec fn pixel_component_bits(self) -> int {
        match self {
            BitmapFormat::ARGB1555 => 1int + 5 + 5 + 5,
            BitmapFormat::ARGB4 => 4int + 4 + 4 + 4,
            BitmapFormat::RGB565 => 5int + 6 + 5,
            BitmapFormat::RGB332 => 3int + 3 + 2,
            BitmapFormat::ARGB2 => 2int + 2 + 2 + 2,
            BitmapFormat::L1 => 1,
            BitmapFormat::L2 => 2,
            BitmapFormat::L4 => 4,
            BitmapFormat::L8 => 8,
            BitmapFormat::Paletted565 | BitmapFormat::Paletted4444 | BitmapFormat::Paletted8 => 8,
            BitmapFormat::Text8x8 | BitmapFormat::Bargraph => 8,
            BitmapFormat::TextVGA => 8int + 8,
            BitmapFormat::GLFormat => 0,
        }
    }

    /// The widths for which computing the minimum stride stays within `u32`.
    pub open spec fn stride_fits(self, width: u32) -> bool {
        match self {
            BitmapFormat::ARGB1555 | BitmapFormat::ARGB4 | BitmapFormat::RGB565
            | BitmapFormat::TextVGA => width * 2 <= u32::MAX,
            BitmapFormat::L1 => width + 7 <= u32::MAX,
            BitmapFormat::L4 => width * 4 + 7 <= u32::MAX,
            BitmapFormat::L2 => width * 2 + 7 <= u32::MAX,
            _ => true,
        }
    }

    /// The most compact stride for `width` pixels: the bytes needed to hold
    /// `width * bits_per_pixel` bits, rounded up to a whole byte.
    pub open spec fn spec_minimum_stride(self, width: u32) -> int {
        (width * self.bits_per_pixel() + 7) / 8
    }

    /// A row of `width` pixels takes the bits that its pixels are made of,
    /// rounded up to whole bytes: two bytes a pixel for the 16-bit formats,
    /// one for the 8-bit ones.
    pub proof fn lemma_minimum_stride_from_components(self, width: u32)
        ensures
            self.spec_minimum_stride(width) == (width * self.pixel_component_bits() + 7) / 8,
            self.pixel_component_bits() == 16 ==> self.spec_minimum_stride(width) == 2 * width,
            self.pixel_component_bits() == 8 ==> self.spec_minimum_stride(width) == width,
            (self == BitmapFormat::ARGB1555 || self == BitmapFormat::ARGB4 || self == BitmapFormat::RGB565
                || self == BitmapFormat::TextVGA) ==> self.spec_minimum_stride(width) == 2 * width,
    {
        let w = width as int;
        assert((w * 16 + 7) / 8 == 2 * w) by (nonlinear_arith);
        assert((w * 8 + 7) / 8 == w) by (nonlinear_arith);
    }

    /// Computes the most compact possible stride for an image of the given
    /// width (in pixels) in the associated bitmap format.
    ///
    /// For bitmap formats with fewer than eight bits per pixel, the result
    /// is automatically padded to a round number of bytes. For the formats
    /// based on character cells the width is given in character cells.
    /// `BitmapFormat::GLFormat` is not a real format and always returns a
    /// stride of zero, as an invalid placeholder.
    pub fn minimum_stride(self, width: u32) -> (r: u32)
        requires
            self.stride_fits(width),
        ensures
            r == self.spec_minimum_stride(width),
    {
        match self {
            BitmapFormat::ARGB1555 => width * 2,
            BitmapFormat::L8 => width,
            BitmapFormat::RGB332 => width,
            BitmapFormat::ARGB2 => width,
            BitmapFormat::ARGB4 => width * 2,
            BitmapFormat::RGB565 => width * 2,
            BitmapFormat::Text8x8 => width,  // width in character cells
            BitmapFormat::TextVGA => width * 2,  // width in character cells
            BitmapFormat::Bargraph => width,
            BitmapFormat::Paletted565 => width,
            BitmapFormat::Paletted4444 => width,
            BitmapFormat::Paletted8 => width,
            // The remaining formats might need padding to achieve byte
            // alignment.
            BitmapFormat::L1 => Self::bytes_for_bits(width),
            BitmapFormat::L4 => Self::bytes_for_bits(width * 4),
            BitmapFormat::L2 => Self::bytes_for_bits(width * 2),
            BitmapFormat::GLFormat => 0,
        }
    }

    /// The number of whole bytes needed to hold `bits` bits.
    fn bytes_for_bits(bits: u32) -> (r: u32)
        requires
            bits + 7 <= u32::MAX,
        ensures
            r == (bits + 7) / 8,
    {
        (bits + 7) / 8
    }

    /// Returns `true` if the format requires an extended format to be
    /// specified and is therefore not self-sufficient.
    pub fn needs_ext_format(self) -> (r: bool)
        ensures
            r == (self == BitmapFormat::GLFormat),
    {
        match self {
            BitmapFormat::GLFormat => true,
            _ => false,
        }
    }
}

impl BitmapFormat {
    /// Distinct formats have distinct encodings.
    pub proof fn lemma_raw_injective(a: Self, b: Self)
        ensures
            a.spec_raw() == b.spec_raw() ==> a == b,
    {
    }
}

impl BitmapExtFormat {
    /// Distinct formats have distinct encodings.
    pub proof fn lemma_raw_injective(a: Self, b: Self)
        ensures
            a.spec_raw() == b.spec_raw() ==> a == b,
    {
    }

    /// The base format with the same encoding, or `GLFormat` for the formats
    /// that exist only as extended formats.
    pub open spec fn base_format(self) -> BitmapFormat {
        match self {
            BitmapExtFormat::ARGB1555 => BitmapFormat::ARGB1555,
            BitmapExtFormat::L1 => BitmapFormat::L1,
            BitmapExtFormat::L4 => BitmapFormat::L4,
            BitmapExtFormat::L8 => BitmapFormat::L8,
            BitmapExtFormat::RGB332 => BitmapFormat::RGB332,
            BitmapExtFormat::ARGB2 => BitmapFormat::ARGB2,
            BitmapExtFormat::ARGB4 => BitmapFormat::ARGB4,
            BitmapExtFormat::RGB565 => BitmapFormat::RGB565,
            BitmapExtFormat::Text8x8 => BitmapFormat::Text8x8,
            BitmapExtFormat::TextVGA => BitmapFormat::TextVGA,
            BitmapExtFormat::Bargraph => BitmapFormat::Bargraph,
            BitmapExtFormat::Paletted565 => BitmapFormat::Paletted565,
            BitmapExtFormat::Paletted4444 => BitmapFormat::Paletted4444,
            BitmapExtFormat::Paletted8 => BitmapFormat::Paletted8,
            BitmapExtFormat::L2 => BitmapFormat::L2,
            _ => BitmapFormat::GLFormat,
        }
    }
}

impl BitmapExtFormat {
    /// Returns the base format with the same encoding, or `GLFormat` for the
    /// formats that exist only as extended formats.
    pub(crate) fn to_base_format(self) -> (r: BitmapFormat)
        ensures
            r == self.base_format(),
    {
        let raw = self.to_raw();
        proof {
            BitmapExtFormat::lemma_base_format_raw(self);
        }
        if raw > 17 {
            return BitmapFormat::GLFormat;
        }
        match BitmapFormat::from_raw(raw as u8) {
            Some(v) => {
                proof {
                    BitmapFormat::lemma_raw_injective(v, self.base_format());
                }
                v
            },
            None => {
                proof {
                    assert(self.base_format().spec_raw() == raw as u8);
                }
                BitmapFormat::GLFormat
            },
        }
    }
}

impl From<BitmapExtFormat> for BitmapFormat {
    fn from(ext: BitmapExtFormat) -> (r: Self) {
        ext.to_base_format()
    }
}

impl FromSpecImpl<BitmapExtFormat> for BitmapFormat {
    open spec fn obeys_from_spec() -> bool {
        true
    }

    open spec fn from_spec(ext: BitmapExtFormat) -> Self {
        ext.base_format()
    }
}

impl BitmapExtFormat {
    /// The extended formats whose encodings are at most 17 are the base
    /// formats with the same encoding.
    proof fn lemma_base_format_raw(ext: BitmapExtFormat)
        ensures
            ext.spec_raw() <= 17 ==> ext.base_format().spec_raw() == ext.spec_raw(),
            ext.spec_raw() > 17 ==> ext.base_format() == BitmapFormat::GLFormat,
    {
    }
}


impl BitmapFormat {
    /// The extended format with the same encoding; every base format but
    /// `GLFormat` has one.
    pub open spec fn ext_format(self) -> Result<BitmapExtFormat, ()> {
        match self {
            BitmapFormat::ARGB1555 => Ok(BitmapExtFormat::ARGB1555),
            BitmapFormat::L1 => Ok(BitmapExtFormat::L1),
            BitmapFormat::L4 => Ok(BitmapExtFormat::L4),
            BitmapFormat::L8 => Ok(BitmapExtFormat::L8),
            BitmapFormat::RGB332 => Ok(BitmapExtFormat::RGB332),
            BitmapFormat::ARGB2 => Ok(BitmapExtFormat::ARGB2),
            BitmapFormat::ARGB4 => Ok(BitmapExtFormat::ARGB4),
            BitmapFormat::RGB565 => Ok(BitmapExtFormat::RGB565),
            BitmapFormat::Text8x8 => Ok(BitmapExtFormat::Text8x8),
            BitmapFormat::TextVGA => Ok(BitmapExtFormat::TextVGA),
            BitmapFormat::Bargraph => Ok(BitmapExtFormat::Bargraph),
            BitmapFormat::Paletted565 => Ok(BitmapExtFormat::Paletted565),
            BitmapFormat::Paletted4444 => Ok(BitmapExtFormat::Paletted4444),
            BitmapFormat::Paletted8 => Ok(BitmapExtFormat::Paletted8),
            BitmapFormat::L2 => Ok(BitmapExtFormat::L2),
            BitmapFormat::GLFormat => Err(()),
        }
    }
}

impl TryFrom<BitmapFormat> for BitmapExtFormat {
    type Error = ();

    fn try_from(fmt: BitmapFormat) -> (r: Result<Self, ()>) {
        let raw = fmt.to_raw();
        if raw > 17 {
            // Only the first formats are common to both encodings.
            return Err(());
        }
        proof {
            if fmt != BitmapFormat::GLFormat {
                assert(fmt.ext_format().unwrap().spec_raw() == fmt.spec_raw());
            }
        }
        match BitmapExtFormat::from_raw(raw as u16) {
            Some(v) => {
                proof {
                    BitmapExtFormat::lemma_raw_injective(v, fmt.ext_format().unwrap());
                }
                Ok(v)
            },
            None => Err(()),
        }
    }
}

impl TryFromSpecImpl<BitmapFormat> for BitmapExtFormat {
    open spec fn obeys_try_from_spec() -> bool {
        true
    }

    open spec fn try_from_spec(fmt: BitmapFormat) -> Result<Self, ()> {
        fmt.ext_format()
    }
}

/// `BitmapHandle` is a display list bitmap handle, numbered between zero and
/// 31.
#[derive(Copy, Clone, PartialEq, Eq, Debug)]
pub struct BitmapHandle(pub(crate) u8);

impl View for BitmapHandle {
    type V = u8;

    closed spec fn view(&self) -> u8 {
        self.0
    }
}

impl BitmapHandle {
    /// Mask representing the bits of a u8 that may be set in a bitmap handle.
    pub const MASK: u8 = 0x1f;


    /// The handle numbers are those below 32.
    #[verifier::type_invariant]
    spec fn in_range(self) -> bool {
        self.0 <= 31
    }

    /// The bitmap handle assigned by default for use by some coprocessor
    /// behaviors. If you aren't using the coprocessor, or if you've configured
    /// it to use a different handle for its internal work, then there's
    /// nothing special about this handle.
    pub fn default_scratch() -> (r: Self)
        ensures
            r@ == 15,
    {
        BitmapHandle(15)
    }

    /// Test whether the given raw value is within the expected range for a
    /// bitmap handle, returning `true` only if so.
    pub fn is_valid(raw: u8) -> (r: bool)
        ensures
            r == (raw <= 31),
    {
        assert((raw & !0x1fu8 == 0) == (raw <= 31)) by (bit_vector);
        (raw & !Self::MASK) == 0
    }

    /// Turns the given raw value into a valid BitmapHandle by masking out the
    /// bits that must always be zero for a valid handle.
    pub fn force_raw(raw: u8) -> (r: Self)
        ensures
            r@ == raw % 32,
    {
        assert(raw & 0x1f == raw % 32) by (bit_vector);
        BitmapHandle(raw & Self::MASK)
    }

    /// Returns `true` if the handle is one of the ones that has a preassigned
    /// special purpose.
    pub fn is_special(self) -> (r: bool)
        ensures
            r == (self@ >= 15),
    {
        self.0 >= 15
    }

    /// The raw handle number.
    pub fn to_raw(self) -> (r: u8)
        ensures
            r == self@,
            r <= 31,
    {
        proof {
            use_type_invariant(self);
        }
        self.0
    }
}

impl TryFrom<u8> for BitmapHandle {
    type Error = ();

    fn try_from(raw: u8) -> (r: Result<Self, Self::Error>) {
        if Self::is_valid(raw) {
            Ok(BitmapHandle(raw))
        } else {
            Err(())
        }
    }
}

impl TryFromSpecImpl<u8> for BitmapHandle {
    open spec fn obeys_try_from_spec() -> bool {
        true
    }

    open spec fn try_from_spec(raw: u8) -> Result<Self, ()> {
        if raw <= 31 {
            Ok(BitmapHandle::spec_new(raw))
        } else {
            Err(())
        }
    }
}

impl BitmapHandle {
    /// The handle numbered `raw`.
    pub closed spec fn spec_new(raw: u8) -> Self {
        BitmapHandle(raw)
    }

    pub proof fn lemma_spec_new(raw: u8)
        ensures
            Self::spec_new(raw)@ == raw,
    {
    }
}

impl From<BitmapHandle> for u8 {
    fn from(bmp: BitmapHandle) -> (r: u8) {
        bmp.0
    }
}

impl FromSpecImpl<BitmapHandle> for u8 {
    open spec fn obeys_from_spec() -> bool {
        true
    }

    open spec fn from_spec(bmp: BitmapHandle) -> u8 {
        bmp@
    }
}

impl From<BitmapHandle> for u32 {
    fn from(bmp: BitmapHandle) -> (r: u32) {
        bmp.0 as u32
    }
}

impl FromSpecImpl<BitmapHandle> for u32 {
    open spec fn obeys_from_spec() -> bool {
        true
    }

    open spec fn from_spec(bmp: BitmapHandle) -> u32 {
        bmp@ as u32
    }
}

/// Selects the source of each channel of a bitmap.
#[derive(Debug, Copy, Clone, PartialEq, Eq)]
pub struct BitmapSwizzle {
    pub r: BitmapSwizzleSource,
    pub g: BitmapSwizzleSource,
    pub b: BitmapSwizzleSource,
    pub a: BitmapSwizzleSource,
}

impl BitmapSwizzle {
    /// The encoding of the swizzle: three bits per channel, red highest.
    pub open spec fn spec_raw(&self) -> u32 {
        (self.r.spec_raw() as u32) << 9 | (self.g.spec_raw() as u32) << 6
            | (self.b.spec_raw() as u32) << 3 | (self.a.spec_raw() as u32)
    }

    pub fn as_raw(&self) -> (r: u32)
        ensures
            r == self.spec_raw(),
    {
        (self.r.to_raw() as u32) << 9 | (self.g.to_raw() as u32) << 6
            | (self.b.to_raw() as u32) << 3 | (self.a.to_raw() as u32)
    }
}

impl Default for BitmapSwizzle {
    /// Each channel takes its own source.
    fn default() -> (r: Self)
        ensures
            r == (BitmapSwizzle {
                r: BitmapSwizzleSource::Red,
                g: BitmapSwizzleSource::Green,
                b: BitmapSwizzleSource::Blue,
                a: BitmapSwizzleSource::Alpha,
            }),
    {
        BitmapSwizzle {
            r: BitmapSwizzleSource::Red,
            g: BitmapSwizzleSource::Green,
            b: BitmapSwizzleSource::Blue,
            a: BitmapSwizzleSource::Alpha,
        }
    }
}

/// Selects which of the color channels drawing may write to.
#[derive(Debug, Copy, Clone, PartialEq, Eq)]
pub struct ColorMask(u8);

impl View for ColorMask {
    type V = u8;

    closed spec fn view(&self) -> u8 {
        self.0
    }
}

/// The bit of each channel in a color mask.
pub open spec fn channel_bits(red: bool, green: bool, blue: bool, alpha: bool) -> u8 {
    (((0u8 | (if red { 8u8 } else { 0u8 })) | (if green { 4u8 } else { 0u8 })) | (if blue { 2u8 } else { 0u8 }))
        | (if alpha { 1u8 } else { 0u8 })
}

impl ColorMask {
    const RED_MASK: u8 = 0b1000;
    const GREEN_MASK: u8 = 0b0100;
    const BLUE_MASK: u8 = 0b0010;
    const ALPHA_MASK: u8 = 0b0001;

    pub fn new(red: bool, green: bool, blue: bool, alpha: bool) -> (r: Self)
        ensures
            r@ == channel_bits(red, green, blue, alpha),
    {
        proof {
            assert(forall|x: u8| #![auto] x | 0u8 == x) by (bit_vector);
        }
        let mut ret = ColorMask(0);
        if red {
            ret = ret.with_red();
        }
        if green {
            ret = ret.with_green();
        }
        if blue {
            ret = ret.with_blue();
        }
        if alpha {
            ret = ret.with_alpha();
        }
        ret
    }

    pub fn with_red(self) -> (r: Self)
        ensures
            r@ == self@ | 8,
    {
        ColorMask(self.0 | Self::RED_MASK)
    }

    pub fn without_red(self) -> (r: Self)
        ensures
            r@ == self@ & !8u8,
    {
        ColorMask(self.0 & !Self::RED_MASK)
    }

    pub fn with_green(self) -> (r: Self)
        ensures
            r@ == self@ | 4,
    {
        ColorMask(self.0 | Self::GREEN_MASK)
    }

    pub fn without_green(self) -> (r: Self)
        ensures
            r@ == self@ & !4u8,
    {
        ColorMask(self.0 & !Self::GREEN_MASK)
    }

    pub fn with_blue(self) -> (r: Self)
        ensures
            r@ == self@ | 2,
    {
        ColorMask(self.0 | Self::BLUE_MASK)
    }

    pub fn without_blue(self) -> (r: Self)
        ensures
            r@ == self@ & !2u8,
    {
        ColorMask(self.0 & !Self::BLUE_MASK)
    }

    pub fn with_alpha(self) -> (r: Self)
        ensures
            r@ == self@ | 1,
    {
        ColorMask(self.0 | Self::ALPHA_MASK)
    }

    pub fn without_alpha(self) -> (r: Self)
        ensures
            r@ == self@ & !1u8,
    {
        ColorMask(self.0 & !Self::ALPHA_MASK)
    }

    pub fn to_raw(self) -> (r: u8)
        ensures
            r == self@,
    {
        self.0
    }
}

impl Default for ColorMask {
    /// All channels are enabled by default.
    fn default() -> (r: Self)
        ensures
            r@ == 0b1111,
    {
        ColorMask(0b1111)
    }
}

/// A matrix coefficient for use with the bitmap transform matrix.
///
/// A coefficient is a 16-bit two's-complement fixed-point value, held in the
/// low 16 bits, with bit 16 (`P`) selecting its format: clear for 8.8 (eight
/// bits of whole number, eight of fraction), set for 1.15.
#[derive(Copy, Clone, PartialEq, Eq, Debug)]
pub struct MatrixCoeff(pub(crate) u32);

impl View for MatrixCoeff {
    type V = u32;

    closed spec fn view(&self) -> u32 {
        self.0
    }
}

/// The encoding of a whole number in 8.8 format: its two's-complement byte
/// becomes the whole-number byte, the fraction is zero.
pub open spec fn int_coeff(v: i8) -> u32 {
    ((v as u8) as u32) << 8
}

/// The power of ten just above `n`: ten for a single decimal digit, a
/// hundred for two, and so on up to five digits.
pub open spec fn decimal_scale(n: int) -> int {
    if n < 10 {
        10
    } else if n < 100 {
        100
    } else if n < 1000 {
        1000
    } else if n < 10000 {
        10000
    } else {
        100000
    }
}

/// The raw 1.15 value of the decimal fraction whose digits are those of
/// `frac`, keeping its sign: `5` is 0.5, `-25` is -0.25, `125` is 0.125,
/// scaled by 2^15 and truncated towards zero.
pub open spec fn frac_1_15_raw(frac: i16) -> int {
    let a: int = if frac < 0 { -frac } else { frac as int };
    let q = (a * 32768) / decimal_scale(a);
    if frac < 0 { -q } else { q }
}

/// The encoding of a 1.15 coefficient: the raw value in the low sixteen
/// bits, two's complement, and the `P` bit set.
pub open spec fn frac_1_15_coeff(frac: i16) -> u32 {
    ((frac_1_15_raw(frac) as i16) as u16 as u32) | 0x10000
}

impl MatrixCoeff {
    const P_MASK: u32 = 0x10000;

    pub closed spec fn spec_from_raw(raw: u32) -> Self {
        MatrixCoeff(raw)
    }

    pub proof fn lemma_spec_from_raw(raw: u32)
        ensures
            Self::spec_from_raw(raw)@ == raw,
    {
    }

    /// The coefficient zero.
    pub fn zero() -> (r: Self)
        ensures
            r@ == 0,
    {
        MatrixCoeff(0)
    }

    /// The coefficient one.
    pub fn one() -> (r: Self)
        ensures
            r@ == 0x100,
    {
        MatrixCoeff(0x100)
    }

    /// Creates a matrix coefficient with a whole number value.
    pub fn new_int(v: i8) -> (r: Self)
        ensures
            r@ == int_coeff(v),
    {
        let enc = (v as u8) as u32;
        MatrixCoeff(enc << 8)
    }

    /// Creates a matrix coefficient from an 8.8 encoding computed elsewhere,
    /// such as from a floating-point value scaled by 256.
    pub fn from_encoded_8_8(enc: i16) -> (r: Self)
        ensures
            r@ == enc as u16 as u32,
    {
        MatrixCoeff(enc as u16 as u32)
    }

    /// Creates a matrix coefficient from a 1.15 encoding computed elsewhere,
    /// such as from a floating-point value scaled by 32768.
    pub fn from_encoded_1_15(enc: i16) -> (r: Self)
        ensures
            r@ == (enc as u16 as u32) | 0x10000,
    {
        MatrixCoeff((enc as u16 as u32) | Self::P_MASK)
    }

    /// Creates a matrix coefficient with an eight-bit whole number part and
    /// an eight-bit fractional part.
    ///
    /// For example, use `MatrixCoeff::new_8_8(0, 128)` to represent the
    /// number 0.5, or `MatrixCoeff::new_8_8(2, 0)` to represent the number 2.
    pub fn new_8_8(whole: i8, frac: u8) -> (r: Self)
        ensures
            r@ == int_coeff(whole) | frac as u32,
    {
        let whole_part = Self::new_int(whole);
        // The whole part leaves the low eight bits clear, so the fractional
        // part lands there unchanged.
        let w = whole_part.0;
        proof {
            let b = whole as u8;
            assert(((b as u32) << 8) ^ (frac as u32) == ((b as u32) << 8) | (frac as u32)) by (bit_vector);
        }
        MatrixCoeff(w ^ (frac as u32))
    }

    /// Creates a matrix coefficient with a sign and a 15-bit fractional part.
    ///
    /// The digits of `frac` are the decimal digits of the fraction: use
    /// `MatrixCoeff::new_1_15(5)` to represent the number 0.5, or
    /// `MatrixCoeff::new_1_15(-25)` to represent the number -0.25. The value
    /// is approximated in 1.15 format, truncated towards zero.
    pub fn new_1_15(frac: i16) -> (r: Self)
        ensures
            r@ == frac_1_15_coeff(frac),
            -32768 < frac_1_15_raw(frac) < 32768,
    {
        let neg = frac < 0;
        let a: u32 = if neg { (0i32 - (frac as i32)) as u32 } else { frac as u32 };
        let scale: u32 = if a < 10 {
            10
        } else if a < 100 {
            100
        } else if a < 1000 {
            1000
        } else if a < 10000 {
            10000
        } else {
            100000
        };
        assert(a * 32768 <= 32768 * 32768) by (nonlinear_arith)
            requires
                a <= 32768,
        ;
        let q: u32 = a * 32768 / scale;
        assert(q < 32768) by (nonlinear_arith)
            requires
                a < scale,
                q as int == (a as int * 32768) / (scale as int),
                scale > 0,
        ;
        let raw: i32 = if neg { 0i32 - (q as i32) } else { q as i32 };
        proof {
            assert(a as int == (if frac < 0 { -frac } else { frac as int }));
            assert(scale as int == decimal_scale(a as int));
            assert(raw as int == frac_1_15_raw(frac));
        }
        MatrixCoeff((raw as i16 as u16 as u32) | Self::P_MASK)
    }

    /// Returns true if the value is encoded in the 8.8 format.
    pub fn is_8_8(self) -> (r: bool)
        ensures
            r == (self@ & 0x10000 == 0),
    {
        (self.0 & Self::P_MASK) == 0
    }

    /// Returns true if the value is encoded in the 1.15 format.
    pub fn is_1_15(self) -> (r: bool)
        ensures
            r == (self@ & 0x10000 != 0),
    {
        (self.0 & Self::P_MASK) != 0
    }

    /// The number of bits of the raw value that hold the fractional part.
    pub open spec fn spec_shift(self) -> usize {
        if self@ & 0x10000 == 0 {
            8
        } else {
            15
        }
    }

    /// Returns the number of bits in the result of `to_raw_value` that
    /// represent the fractional part.
    pub fn shift(self) -> (r: usize)
        ensures
            r == self.spec_shift(),
    {
        if self.is_8_8() {
            8
        } else {
            15
        }
    }

    pub(crate) fn to_raw(self) -> (r: u32)
        ensures
            r == self@,
    {
        self.0
    }

    /// Returns the raw 16-bit encoding of the value, discarding the format
    /// flag.
    pub fn to_raw_value(self) -> (r: i16)
        ensures
            r == self@ as i16,
    {
        self.0 as i16
    }

    /// Returns the integer part of the value, rounding down.
    pub fn to_i8(self) -> (r: i8)
        ensures
            r == ((self@ as i16) >> self.spec_shift()) as i8,
    {
        (self.to_raw_value() >> self.shift()) as i8
    }
}

impl From<i8> for MatrixCoeff {
    fn from(v: i8) -> (r: Self) {
        Self::new_int(v)
    }
}

impl FromSpecImpl<i8> for MatrixCoeff {
    open spec fn obeys_from_spec() -> bool {
        true
    }

    open spec fn from_spec(v: i8) -> Self {
        MatrixCoeff::spec_from_raw(int_coeff(v))
    }
}

impl From<MatrixCoeff> for i8 {
    fn from(v: MatrixCoeff) -> (r: i8) {
        v.to_i8()
    }
}

impl FromSpecImpl<MatrixCoeff> for i8 {
    open spec fn obeys_from_spec() -> bool {
        true
    }

    open spec fn from_spec(v: MatrixCoeff) -> i8 {
        ((v@ as i16) >> v.spec_shift()) as i8
    }
}

/// A 3 by 2 bitmap transformation matrix.
#[derive(Copy, Clone, PartialEq, Eq, Debug)]
pub struct Matrix3x2(
    pub(crate) (MatrixCoeff, MatrixCoeff, MatrixCoeff),
    pub(crate) (MatrixCoeff, MatrixCoeff, MatrixCoeff),
);

impl Matrix3x2 {
    /// Returns the two rows of the matrix.
    pub(crate) fn coeff_rows(self) -> (r: ((MatrixCoeff, MatrixCoeff, MatrixCoeff), (MatrixCoeff, MatrixCoeff, MatrixCoeff)))
        ensures
            r == self.rows(),
    {
        (self.0, self.1)
    }

    /// The two rows of the matrix.
    pub closed spec fn rows(self) -> ((MatrixCoeff, MatrixCoeff, MatrixCoeff), (MatrixCoeff, MatrixCoeff, MatrixCoeff)) {
        (self.0, self.1)
    }

    /// The identity transformation.
    pub fn identity() -> (r: Self)
        ensures
            r.rows().0.0@ == 0x100 && r.rows().0.1@ == 0 && r.rows().0.2@ == 0,
            r.rows().1.0@ == 0 && r.rows().1.1@ == 0x100 && r.rows().1.2@ == 0,
    {
        Matrix3x2(
            (MatrixCoeff::one(), MatrixCoeff::zero(), MatrixCoeff::zero()),
            (MatrixCoeff::zero(), MatrixCoeff::one(), MatrixCoeff::zero()),
        )
    }

    /// A matrix from its two rows of coefficients.
    pub fn from_rows(
        r0: (MatrixCoeff, MatrixCoeff, MatrixCoeff),
        r1: (MatrixCoeff, MatrixCoeff, MatrixCoeff),
    ) -> (r: Self)
        ensures
            r.rows() == (r0, r1),
    {
        Matrix3x2(r0, r1)
    }
}

impl<A, B, C, D, E, F> From<((A, B, C), (D, E, F))> for Matrix3x2 where
    A: Into<MatrixCoeff>,
    B: Into<MatrixCoeff>,
    C: Into<MatrixCoeff>,
    D: Into<MatrixCoeff>,
    E: Into<MatrixCoeff>,
    F: Into<MatrixCoeff>,
 {
    fn from(coeffs: ((A, B, C), (D, E, F))) -> (r: Self) {
        let a: MatrixCoeff = coeffs.0.0.into();
        let b: MatrixCoeff = coeffs.0.1.into();
        let c: MatrixCoeff = coeffs.0.2.into();
        let d: MatrixCoeff = coeffs.1.0.into();
        let e: MatrixCoeff = coeffs.1.1.into();
        let f: MatrixCoeff = coeffs.1.2.into();
        Matrix3x2((a, b, c), (d, e, f))
    }
}

impl<A, B, C, D, E, F> FromSpecImpl<((A, B, C), (D, E, F))> for Matrix3x2 where
    A: Into<MatrixCoeff>,
    B: Into<MatrixCoeff>,
    C: Into<MatrixCoeff>,
    D: Into<MatrixCoeff>,
    E: Into<MatrixCoeff>,
    F: Into<MatrixCoeff>,
 {
    /// The conversion is known when the conversions of all six coefficients
    /// are.
    open spec fn obeys_from_spec() -> bool {
        &&& <A as IntoSpec<MatrixCoeff>>::obeys_into_spec()
        &&& <B as IntoSpec<MatrixCoeff>>::obeys_into_spec()
        &&& <C as IntoSpec<MatrixCoeff>>::obeys_into_spec()
        &&& <D as IntoSpec<MatrixCoeff>>::obeys_into_spec()
        &&& <E as IntoSpec<MatrixCoeff>>::obeys_into_spec()
        &&& <F as IntoSpec<MatrixCoeff>>::obeys_into_spec()
    }

    /// The matrix whose rows are the converted coefficients.
    open spec fn from_spec(coeffs: ((A, B, C), (D, E, F))) -> Self {
        Matrix3x2::spec_from_rows(
            (coeffs.0.0.into_spec(), coeffs.0.1.into_spec(), coeffs.0.2.into_spec()),
            (coeffs.1.0.into_spec(), coeffs.1.1.into_spec(), coeffs.1.2.into_spec()),
        )
    }
}

impl Matrix3x2 {
    /// The matrix with the given rows.
    pub closed spec fn spec_from_rows(
        r0: (MatrixCoeff, MatrixCoeff, MatrixCoeff),
        r1: (MatrixCoeff, MatrixCoeff, MatrixCoeff),
    ) -> Self {
        Matrix3x2(r0, r1)
    }

    /// The matrix made from two rows has those rows.
    pub proof fn lemma_spec_from_rows(r0: (MatrixCoeff, MatrixCoeff, MatrixCoeff), r1: (MatrixCoeff, MatrixCoeff, MatrixCoeff))
        ensures
            Self::spec_from_rows(r0, r1).rows() == (r0, r1),
    {
    }
}

impl TestFunc {
    /// Distinct functions have distinct encodings, so `from_raw` of a
    /// function's encoding gives back that function.
    pub proof fn lemma_raw_injective(a: Self, b: Self)
        ensures
            a.spec_raw() == b.spec_raw() ==> a == b,
    {
    }
}

impl GraphicsPrimitive {
    /// Distinct primitives have distinct encodings, so `from_raw` of a
    /// primitive's encoding gives back that primitive.
    pub proof fn lemma_raw_injective(a: Self, b: Self)
        ensures
            a.spec_raw() == b.spec_raw() ==> a == b,
    {
    }
}

impl BitmapSizeFilter {
    /// Distinct filters have distinct encodings, so `from_raw` of a filter's
    /// encoding gives back that filter.
    pub proof fn lemma_raw_injective(a: Self, b: Self)
        ensures
            a.spec_raw() == b.spec_raw() ==> a == b,
    {
    }
}

impl BitmapWrapMode {
    /// Distinct wrap modes have distinct encodings, so `from_raw` of a wrap
    /// mode's encoding gives back that wrap mode.
    pub proof fn lemma_raw_injective(a: Self, b: Self)
        ensures
            a.spec_raw() == b.spec_raw() ==> a == b,
    {
    }
}

/// Converting a base format other than `GLFormat` to its extended format and
/// back gives the base format again, and an extended format whose base format
/// is not `GLFormat` is the extended format of that base format.
pub proof fn lemma_format_conversion_roundtrip(f: BitmapFormat, e: BitmapExtFormat)
    ensures
        f != BitmapFormat::GLFormat ==> (f.ext_format() matches Ok(x) && x.base_format() == f),
        e.base_format() != BitmapFormat::GLFormat ==> e.base_format().ext_format() == Ok::<BitmapExtFormat, ()>(e),
{
}

/// An extended format that names a base format has that format's code:
/// the extended codes extend the base ones.
pub proof fn lemma_ext_format_codes(e: BitmapExtFormat)
    ensures
        e.base_format() != BitmapFormat::GLFormat ==> e.spec_raw() == e.base_format().spec_raw() as u16,
        e.base_format() == BitmapFormat::GLFormat ==> e.spec_raw() >= 0x93b0,
{
}

/// The number of subpixels per pixel that a vertex format's name gives.
pub open spec fn vertex_format_subpixels(v: VertexFormat) -> nat {
    match v {
        VertexFormat::Whole => 1,
        VertexFormat::Half => 2,
        VertexFormat::Quarter => 4,
        VertexFormat::Eighth => 8,
        VertexFormat::Sixteenth => 16,
    }
}

/// A vertex format's code is the power of two of its subpixels per pixel.
pub proof fn lemma_vertex_format_codes(v: VertexFormat)
    ensures
        vertex_format_subpixels(v) == vstd::arithmetic::power2::pow2(v.spec_raw() as nat),
{
    vstd::arithmetic::power2::lemma2_to64();
}

/// The comparison functions have EVE's codes, in EVE's order: `NEVER` 0,
/// `LESS` 1, `LEQUAL` 2, `GREATER` 3, `GEQUAL` 4, `EQUAL` 5, `NOTEQUAL` 6,
/// `ALWAYS` 7.
pub proof fn lemma_test_func_codes()
    ensures
        TestFunc::Never.spec_raw() == 0,
        TestFunc::LEqual.spec_raw() == TestFunc::Less.spec_raw() + 1 && TestFunc::Less.spec_raw() == 1,
        TestFunc::GEqual.spec_raw() == TestFunc::Greater.spec_raw() + 1 && TestFunc::Greater.spec_raw() == 3,
        TestFunc::NotEqual.spec_raw() == TestFunc::Equal.spec_raw() + 1 && TestFunc::Equal.spec_raw() == 5,
        TestFunc::Always.spec_raw() == 7,
{
}

/// The graphics primitives have EVE's codes: `BITMAPS` 1, `POINTS` 2,
/// `LINES` 3, `LINE_STRIP` 4, the edge strips `R`, `L`, `A`, `B` 5 to 8 and
/// `RECTS` 9.
pub proof fn lemma_primitive_codes()
    ensures
        GraphicsPrimitive::Bitmaps.spec_raw() == 1,
        GraphicsPrimitive::Points.spec_raw() == 2,
        GraphicsPrimitive::Lines.spec_raw() == 3,
        GraphicsPrimitive::LineStrip.spec_raw() == 4,
        GraphicsPrimitive::EdgeStripR.spec_raw() == 5,
        GraphicsPrimitive::EdgeStripL.spec_raw() == 6,
        GraphicsPrimitive::EdgeStripA.spec_raw() == 7,
        GraphicsPrimitive::EdgeStripB.spec_raw() == 8,
        GraphicsPrimitive::Rects.spec_raw() == 9,
{
}

/// The stencil operations and swizzle sources have EVE's codes: `ZERO` 0,
/// `KEEP` 1, `REPLACE` 2, `INCR` 3, `DECR` 4, `INVERT` 5; and `ZERO` 0,
/// `ONE` 1, then red, green, blue and alpha 2 to 5.
pub proof fn lemma_stencil_and_swizzle_codes()
    ensures
        StencilOp::Zero.spec_raw() == 0 && StencilOp::Keep.spec_raw() == 1,
        StencilOp::Replace.spec_raw() == 2 && StencilOp::Incr.spec_raw() == 3,
        StencilOp::Decr.spec_raw() == 4 && StencilOp::Invert.spec_raw() == 5,
        BitmapSwizzleSource::Zero.spec_raw() == 0 && BitmapSwizzleSource::One.spec_raw() == 1,
        BitmapSwizzleSource::Red.spec_raw() == 2 && BitmapSwizzleSource::Green.spec_raw() == 3,
        BitmapSwizzleSource::Blue.spec_raw() == 4 && BitmapSwizzleSource::Alpha.spec_raw() == 5,
{
}

/// A mask made from channel flags has exactly the bits of the enabled
/// channels: red `8`, green `4`, blue `2`, alpha `1`.
pub proof fn lemma_channel_bits(red: bool, green: bool, blue: bool, alpha: bool)
    ensures
        (channel_bits(red, green, blue, alpha) & 8u8 != 0) == red,
        (channel_bits(red, green, blue, alpha) & 4u8 != 0) == green,
        (channel_bits(red, green, blue, alpha) & 2u8 != 0) == blue,
        (channel_bits(red, green, blue, alpha) & 1u8 != 0) == alpha,
        channel_bits(red, green, blue, alpha) < 16,
{
    let r: u8 = if red { 8 } else { 0 };
    let g: u8 = if green { 4 } else { 0 };
    let b: u8 = if blue { 2 } else { 0 };
    let a: u8 = if alpha { 1 } else { 0 };
    assert(((((0u8 | r) | g) | b) | a) & 8u8 == r && ((((0u8 | r) | g) | b) | a) & 4u8 == g
        && ((((0u8 | r) | g) | b) | a) & 2u8 == b && ((((0u8 | r) | g) | b) | a) & 1u8 == a
        && ((((0u8 | r) | g) | b) | a) < 16) by (bit_vector)
        requires
            r == 8 || r == 0,
            g == 4 || g == 0,
            b == 2 || b == 0,
            a == 1 || a == 0,
    ;
}

/// Enabling or disabling one channel of a mask leaves the other channels as
/// they were, and of enabling and disabling the same channel the later one
/// wins.
pub proof fn lemma_color_mask_channel(m: u8, bit: u8, other: u8)
    requires
        bit == 8 || bit == 4 || bit == 2 || bit == 1,
        other == 8 || other == 4 || other == 2 || other == 1,
        bit != other,
    ensures
        (m | bit) & other == m & other,
        (m & !bit) & other == m & other,
        (m | bit) & bit == bit,
        (m & !bit) & bit == 0,
        ((m | bit) & !bit) == (m & !bit),
        ((m & !bit) | bit) == (m | bit),
{
    assert((m | bit) & other == m & other && (m & !bit) & other == m & other && (m | bit) & bit == bit
        && (m & !bit) & bit == 0 && ((m | bit) & !bit) == (m & !bit) && ((m & !bit) | bit) == (m | bit))
        by (bit_vector)
        requires
            bit == 8 || bit == 4 || bit == 2 || bit == 1,
            other == 8 || other == 4 || other == 2 || other == 1,
            bit != other,
    ;
}

/// A whole-number coefficient is in the 8.8 format and its integer part is
/// the number it was made from.
pub proof fn lemma_int_coeff_roundtrip(v: i8)
    ensures
        int_coeff(v) & 0x10000 == 0,
        (((int_coeff(v) as i16) >> 8i16) as i8) == v,
{
    assert(((((v as u8) as u32) << 8) & 0x10000 == 0) && (((((v as u8) as u32) << 8) as i16) >> 8i16) as i8 == v)
        by (bit_vector);
}

/// A 1.15 coefficient always has its format flag set, so it is never taken
/// for an 8.8 one.
pub proof fn lemma_frac_1_15_flag(frac: i16)
    ensures
        frac_1_15_coeff(frac) & 0x10000 != 0,
{
    let low = (frac_1_15_raw(frac) as i16) as u16 as u32;
    assert((low | 0x10000) & 0x10000 != 0) by (bit_vector);
}

} // verus!
