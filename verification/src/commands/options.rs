//! Various types used as arguments to coprocessor commands.

use vstd::prelude::*;

verus! {

/// The `OPT_NODL` option bit.
pub const OPT_NODL: u32 = 2;

/// The `OPT_NOTEAR` option bit.
pub const OPT_NOTEAR: u32 = 4;

/// The `OPT_FULLSCREEN` option bit.
pub const OPT_FULLSCREEN: u32 = 8;

/// The `OPT_SOUND` option bit.
pub const OPT_SOUND: u32 = 32;

/// Implemented by the option sets of the coprocessor commands, which all
/// start out with no option selected.
pub trait Options: Clone + Copy + PartialEq + Eq {
    /// The option set with no option selected.
    spec fn spec_new() -> Self;

    fn new() -> (r: Self)
        ensures
            r == Self::spec_new(),
    ;
}

/// Returns the option set of type `T` with no option selected.
pub fn defaults<T: Options>() -> (r: T)
    ensures
        r == T::spec_new(),
{
    T::new()
}

/// Options for the `CMD_PLAYVIDEO` command.
#[derive(Clone, Copy, PartialEq, Eq, Debug)]
pub struct VideoPlayback(u32);

impl View for VideoPlayback {
    type V = u32;

    /// The raw option bits.
    closed spec fn view(&self) -> u32 {
        self.0
    }
}

impl Options for VideoPlayback {
    closed spec fn spec_new() -> Self {
        VideoPlayback(0)
    }

    fn new() -> (r: Self)
        ensures
            r@ == 0,
    {
        VideoPlayback(0)
    }
}

impl VideoPlayback {
    /// Adds the option that synchronizes the video to the display refresh.
    pub fn no_tear(self) -> (r: Self)
        ensures
            r@ == self@ | OPT_NOTEAR,
    {
        VideoPlayback(self.0 | OPT_NOTEAR)
    }

    /// Adds the option that scales the video to fill the screen.
    pub fn fullscreen(self) -> (r: Self)
        ensures
            r@ == self@ | OPT_FULLSCREEN,
    {
        VideoPlayback(self.0 | OPT_FULLSCREEN)
    }

    /// Adds the option that plays the video's audio track too.
    pub fn decode_audio(self) -> (r: Self)
        ensures
            r@ == self@ | OPT_SOUND,
    {
        VideoPlayback(self.0 | OPT_SOUND)
    }

    pub fn to_raw(self) -> (r: u32)
        ensures
            r == self@,
    {
        self.0
    }
}

/// Options for the `CMD_LOADIMAGE` command.
#[derive(Clone, Copy, PartialEq, Eq, Debug)]
pub struct LoadImage(u32);

impl View for LoadImage {
    type V = u32;

    /// The raw option bits.
    closed spec fn view(&self) -> u32 {
        self.0
    }
}

impl Options for LoadImage {
    closed spec fn spec_new() -> Self {
        LoadImage(0)
    }

    fn new() -> (r: Self)
        ensures
            r@ == 0,
    {
        LoadImage(0)
    }
}

impl LoadImage {
    /// Selects the color mode of a JPEG image, in the lowest bit.
    pub fn jpeg_color_mode(self, mode: JPEGColorMode) -> (r: Self)
        ensures
            r@ == (self@ & !1u32) | mode.spec_raw(),
    {
        LoadImage((self.0 & (!0b1)) | mode.to_raw())
    }

    /// Adds the option that leaves the display list alone.
    pub fn no_display_list(self) -> (r: Self)
        ensures
            r@ == self@ | OPT_NODL,
    {
        LoadImage(self.0 | OPT_NODL)
    }

    /// Adds the option that scales the image to fill the screen.
    pub fn scale_to_screen(self) -> (r: Self)
        ensures
            r@ == self@ | OPT_FULLSCREEN,
    {
        LoadImage(self.0 | OPT_FULLSCREEN)
    }

    pub fn to_raw(self) -> (r: u32)
        ensures
            r == self@,
    {
        self.0
    }
}

/// Options for the `CMD_BUTTON` command.
#[derive(Clone, Copy, PartialEq, Eq, Debug)]
pub struct Button(u32);

impl View for Button {
    type V = u32;

    /// The raw option bits.
    closed spec fn view(&self) -> u32 {
        self.0
    }
}

impl Options for Button {
    closed spec fn spec_new() -> Self {
        Button(0)
    }

    fn new() -> (r: Self)
        ensures
            r@ == 0,
    {
        Button(0)
    }
}

impl Button {
    /// Selects the rendering style, in bit 8.
    pub fn style(self, style: WidgetStyle) -> (r: Self)
        ensures
            r@ == (self@ & !256u32) | style.spec_raw(),
    {
        let mask: u32 = !256;
        Button((self.0 & mask) | style.to_raw())
    }

    pub fn to_raw(self) -> (r: u32)
        ensures
            r == self@,
    {
        self.0
    }
}

/// Options for the `CMD_TEXT` command.
#[derive(Clone, Copy, PartialEq, Eq, Debug)]
pub struct Text(u32);

impl View for Text {
    type V = u32;

    /// The raw option bits.
    closed spec fn view(&self) -> u32 {
        self.0
    }
}

impl Options for Text {
    closed spec fn spec_new() -> Self {
        Text(0)
    }

    fn new() -> (r: Self)
        ensures
            r@ == 0,
    {
        Text(0)
    }
}

impl Text {
    pub fn to_raw(self) -> (r: u32)
        ensures
            r == self@,
    {
        self.0
    }
}

/// Rendering style (flat or 3D) for various widgets that can support these
/// two rendering styles.
#[derive(Clone, Copy, PartialEq, Eq, Debug)]
pub enum WidgetStyle {
    Flat,
    ThreeD,
}

impl WidgetStyle {
    /// The option bits of the style.
    pub open spec fn spec_raw(self) -> u32 {
        match self {
            WidgetStyle::Flat => 256,
            WidgetStyle::ThreeD => 0,
        }
    }

    pub fn to_raw(self) -> (r: u32)
        ensures
            r == self.spec_raw(),
    {
        match self {
            WidgetStyle::Flat => 256,
            WidgetStyle::ThreeD => 0,
        }
    }
}

/// The color mode that a JPEG image is decoded into.
#[derive(Clone, Copy, PartialEq, Eq, Debug)]
pub enum JPEGColorMode {
    RGB565,
    Monochrome,
}

impl JPEGColorMode {
    /// The option bit of the color mode.
    pub open spec fn spec_raw(self) -> u32 {
        match self {
            JPEGColorMode::RGB565 => 0,
            JPEGColorMode::Monochrome => 1,
        }
    }

    pub fn to_raw(self) -> (r: u32)
        ensures
            r == self.spec_raw(),
    {
        match self {
            JPEGColorMode::RGB565 => 0,
            JPEGColorMode::Monochrome => 1,
        }
    }
}

/// A reference to a font previously registered in the coprocessor.
#[derive(Debug, Clone, Copy, PartialEq, Eq)]
pub struct FontRef(u8);

impl View for FontRef {
    type V = u8;

    /// The font index.
    closed spec fn view(&self) -> u8 {
        self.0
    }
}

impl FontRef {
    const MASK: u8 = 0b00011111;

    /// Takes the given value modulo 32 and uses it to construct a font
    /// reference.
    pub fn new_raw(v: u8) -> (r: Self)
        ensures
            r@ == v % 32,
    {
        assert(v & 0b00011111 == v % 32) by (bit_vector);
        FontRef(v & Self::MASK)
    }

    /// Returns the raw representation of the font reference index, which is
    /// always less than 32.
    pub fn to_raw(self) -> (r: u8)
        ensures
            r == self@,
            r < 32,
    {
        proof {
            use_type_invariant(self);
        }
        self.0
    }

    /// A font reference always indexes one of the 32 font slots.
    #[verifier::type_invariant]
    closed spec fn in_range(self) -> bool {
        self.0 < 32
    }
}


/// Of two widget styles set one after the other the later one wins, and the
/// other option bits stay as they were.
pub proof fn lemma_style_last_wins(v: u32, first: WidgetStyle, second: WidgetStyle)
    ensures
        (((v & !256u32) | first.spec_raw()) & !256u32) | second.spec_raw() == (v & !256u32) | second.spec_raw(),
        ((v & !256u32) | second.spec_raw()) & !256u32 == v & !256u32,
{
    let a = first.spec_raw();
    let b = second.spec_raw();
    assert((((v & !256u32) | a) & !256u32) | b == (v & !256u32) | b && ((v & !256u32) | b) & !256u32
        == v & !256u32) by (bit_vector)
        requires
            a == 0 || a == 256,
            b == 0 || b == 256,
    ;
}

/// Of two JPEG color modes set one after the other the later one wins, and
/// the other option bits stay as they were.
pub proof fn lemma_jpeg_color_mode_last_wins(v: u32, first: JPEGColorMode, second: JPEGColorMode)
    ensures
        (((v & !1u32) | first.spec_raw()) & !1u32) | second.spec_raw() == (v & !1u32) | second.spec_raw(),
        ((v & !1u32) | second.spec_raw()) & !1u32 == v & !1u32,
{
    let a = first.spec_raw();
    let b = second.spec_raw();
    assert((((v & !1u32) | a) & !1u32) | b == (v & !1u32) | b && ((v & !1u32) | b) & !1u32 == v & !1u32)
        by (bit_vector)
        requires
            a == 0 || a == 1,
            b == 0 || b == 1,
    ;
}

} // verus!
