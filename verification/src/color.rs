//! Colors for drawing operations, under their earlier names.

use vstd::prelude::*;
use vstd::std_specs::convert::FromSpecImpl;

verus! {

#[derive(Clone, Copy, PartialEq, Eq, Debug)]
pub struct EVEColorRGB {
    pub r: u8,
    pub g: u8,
    pub b: u8,
}

#[derive(Clone, Copy, PartialEq, Eq, Debug)]
pub struct EVEColorRGBA {
    pub r: u8,
    pub g: u8,
    pub b: u8,
    pub a: u8,
}

impl EVEColorRGB {
    /// The same color, fully opaque.
    pub open spec fn spec_as_rgba(self) -> EVEColorRGBA {
        EVEColorRGBA { r: self.r, g: self.g, b: self.b, a: 0xff }
    }

    pub fn as_rgba(self) -> (c: EVEColorRGBA)
        ensures
            c == self.spec_as_rgba(),
    {
        EVEColorRGBA { r: self.r, g: self.g, b: self.b, a: 0xff }
    }
}

impl EVEColorRGBA {
    /// The same color without its alpha channel.
    pub open spec fn spec_as_rgb(self) -> EVEColorRGB {
        EVEColorRGB { r: self.r, g: self.g, b: self.b }
    }

    pub fn as_rgb(self) -> (c: EVEColorRGB)
        ensures
            c == self.spec_as_rgb(),
    {
        EVEColorRGB { r: self.r, g: self.g, b: self.b }
    }
}

impl From<EVEColorRGBA> for EVEColorRGB {
    fn from(src: EVEColorRGBA) -> (c: Self) {
        src.as_rgb()
    }
}

impl FromSpecImpl<EVEColorRGBA> for EVEColorRGB {
    open spec fn obeys_from_spec() -> bool {
        true
    }

    open spec fn from_spec(src: EVEColorRGBA) -> Self {
        src.spec_as_rgb()
    }
}

impl From<EVEColorRGB> for EVEColorRGBA {
    fn from(src: EVEColorRGB) -> (c: Self) {
        src.as_rgba()
    }
}

impl FromSpecImpl<EVEColorRGB> for EVEColorRGBA {
    open spec fn obeys_from_spec() -> bool {
        true
    }

    open spec fn from_spec(src: EVEColorRGB) -> Self {
        src.spec_as_rgba()
    }
}

} // verus!
