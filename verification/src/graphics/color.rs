//! Colors for drawing operations.

use vstd::prelude::*;
use vstd::std_specs::convert::FromSpecImpl;

verus! {

#[derive(Clone, Copy, PartialEq, Eq, Debug)]
pub struct RGB {
    pub r: u8,
    pub g: u8,
    pub b: u8,
}

#[derive(Clone, Copy, PartialEq, Eq, Debug)]
pub struct RGBA {
    pub r: u8,
    pub g: u8,
    pub b: u8,
    pub a: u8,
}

impl RGB {
    /// The same color, fully opaque.
    pub open spec fn spec_as_rgba(self) -> RGBA {
        RGBA { r: self.r, g: self.g, b: self.b, a: 0xff }
    }

    pub fn as_rgba(self) -> (c: RGBA)
        ensures
            c == self.spec_as_rgba(),
    {
        RGBA { r: self.r, g: self.g, b: self.b, a: 0xff }
    }
}

impl RGBA {
    /// The same color without its alpha channel.
    pub open spec fn spec_as_rgb(self) -> RGB {
        RGB { r: self.r, g: self.g, b: self.b }
    }

    pub fn as_rgb(self) -> (c: RGB)
        ensures
            c == self.spec_as_rgb(),
    {
        RGB { r: self.r, g: self.g, b: self.b }
    }
}

impl From<RGBA> for RGB {
    fn from(src: RGBA) -> (c: Self) {
        src.as_rgb()
    }
}

impl FromSpecImpl<RGBA> for RGB {
    open spec fn obeys_from_spec() -> bool {
        true
    }

    open spec fn from_spec(src: RGBA) -> Self {
        src.spec_as_rgb()
    }
}

impl From<RGB> for RGBA {
    fn from(src: RGB) -> (c: Self) {
        src.as_rgba()
    }
}

impl FromSpecImpl<RGB> for RGBA {
    open spec fn obeys_from_spec() -> bool {
        true
    }

    open spec fn from_spec(src: RGB) -> Self {
        src.spec_as_rgba()
    }
}


/// Making a color opaque and dropping its alpha again gives the color back.
pub proof fn lemma_rgb_rgba_roundtrip(c: RGB)
    ensures
        c.spec_as_rgba().spec_as_rgb() == c,
        c.spec_as_rgba().a == 0xff,
{
}

} // verus!
