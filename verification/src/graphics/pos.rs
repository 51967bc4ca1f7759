//! Positions and rectangles in the various coordinate systems of EVE.

use vstd::prelude::*;
use vstd::std_specs::convert::FromSpecImpl;

verus! {

/// A coordinate system: the type of its coordinates, and how a coordinate is
/// brought into the range that the system can represent.
pub trait CoordinateSystem {
    type Dim: Copy + core::fmt::Debug + PartialEq + Eq;

    /// The representable coordinate that `v` becomes.
    spec fn spec_mask(v: Self::Dim) -> Self::Dim;

    fn mask_value(v: Self::Dim) -> (r: Self::Dim)
        ensures
            r == Self::spec_mask(v),
    ;
}

/// Coordinates for the `VERTEX2F` display list command, scaled by the current
/// vertex format: a signed 15-bit field, -16384 to 16383 in whole pixels.
/// Only the low fifteen bits of a coordinate are kept.
#[derive(Debug, Clone, Copy, PartialEq, Eq)]
pub struct Scaled;

impl CoordinateSystem for Scaled {
    type Dim = i16;

    open spec fn spec_mask(v: i16) -> i16 {
        ((v as u16) & 0x7fff) as i16
    }

    fn mask_value(v: i16) -> (r: i16) {
        ((v as u16) & 0b111111111111111) as i16
    }
}

/// Coordinates for the `VERTEX2II` display list command, in whole pixels from
/// 0 to 511. Only the low nine bits of a coordinate are kept.
#[derive(Debug, Clone, Copy, PartialEq, Eq)]
pub struct Fixed;

impl CoordinateSystem for Fixed {
    type Dim = u16;

    open spec fn spec_mask(v: u16) -> u16 {
        v & 0x1ff
    }

    fn mask_value(v: u16) -> (r: u16) {
        v & 0b111111111
    }
}

/// Coordinates of the global translation offset, in sixteenths of a pixel.
#[derive(Debug, Clone, Copy, PartialEq, Eq)]
pub struct ForGlobalTranslate;

impl CoordinateSystem for ForGlobalTranslate {
    type Dim = i16;

    open spec fn spec_mask(v: i16) -> i16 {
        v
    }

    fn mask_value(v: i16) -> (r: i16) {
        v
    }
}

/// Coordinates of coprocessor widgets, in whole pixels.
#[derive(Debug, Clone, Copy, PartialEq, Eq)]
pub struct ForCoprocessorWidgets;

impl CoordinateSystem for ForCoprocessorWidgets {
    type Dim = i16;

    open spec fn spec_mask(v: i16) -> i16 {
        v
    }

    fn mask_value(v: i16) -> (r: i16) {
        v
    }
}

/// Coordinates of the scissor rectangle, in whole pixels.
#[derive(Debug, Clone, Copy, PartialEq, Eq)]
pub struct ForScissor;

impl CoordinateSystem for ForScissor {
    type Dim = u16;

    open spec fn spec_mask(v: u16) -> u16 {
        v
    }

    fn mask_value(v: u16) -> (r: u16) {
        v
    }
}

/// Vertex type for the `VERTEX2F` display list command.
pub type Vertex2F = Vertex2D<Scaled>;

/// Vertex type for the `VERTEX2II` display list command.
pub type Vertex2II = Vertex2D<Fixed>;

/// Vertex type for representing the global translation offset for subsequent
/// drawing commands.
pub type GlobalTranslation = Vertex2D<ForGlobalTranslate>;

/// Vertex type for specifying the rendering location of widgets provided by
/// the EVE coprocessor.
pub type WidgetPos = Vertex2D<ForCoprocessorWidgets>;

/// The top left corner of the scissor rectangle.
pub type ScissorPos = Vertex2D<ForScissor>;

/// A position in coordinate system `S`.
#[derive(Debug, PartialEq, Eq, Copy)]
pub struct Vertex2D<S: CoordinateSystem> {
    pub(crate) x: S::Dim,
    pub(crate) y: S::Dim,
}

impl<S: CoordinateSystem> Clone for Vertex2D<S> {
    fn clone(&self) -> (r: Self)
        ensures
            r == *self,
    {
        Vertex2D { x: self.x, y: self.y }
    }
}

impl<S: CoordinateSystem> Vertex2D<S> {
    pub closed spec fn spec_x(self) -> S::Dim {
        self.x
    }

    pub closed spec fn spec_y(self) -> S::Dim {
        self.y
    }

    /// The vertex that `new(x, y)` makes.
    pub closed spec fn spec_new(x: S::Dim, y: S::Dim) -> Self {
        Vertex2D { x: S::spec_mask(x), y: S::spec_mask(y) }
    }

    pub proof fn lemma_spec_new(x: S::Dim, y: S::Dim)
        ensures
            Self::spec_new(x, y).spec_x() == S::spec_mask(x),
            Self::spec_new(x, y).spec_y() == S::spec_mask(y),
    {
    }

    pub fn new(x: S::Dim, y: S::Dim) -> (v: Self)
        ensures
            v == Self::spec_new(x, y),
    {
        Vertex2D { x: S::mask_value(x), y: S::mask_value(y) }
    }

    pub fn coords(self) -> (r: (S::Dim, S::Dim))
        ensures
            r == (self.spec_x(), self.spec_y()),
    {
        (self.x, self.y)
    }
}

impl<S: CoordinateSystem> From<(S::Dim, S::Dim)> for Vertex2D<S> {
    fn from(coords: (S::Dim, S::Dim)) -> (v: Self) {
        Self::new(coords.0, coords.1)
    }
}

impl<S: CoordinateSystem> FromSpecImpl<(S::Dim, S::Dim)> for Vertex2D<S> {
    open spec fn obeys_from_spec() -> bool {
        true
    }

    open spec fn from_spec(coords: (S::Dim, S::Dim)) -> Self {
        Self::spec_new(coords.0, coords.1)
    }
}

/// Description of a rectangular region to render a coprocessor widget into.
#[derive(Debug, PartialEq, Eq, Clone, Copy)]
pub struct WidgetRect {
    pub(crate) x: i16,
    pub(crate) y: i16,
    pub(crate) w: i16,
    pub(crate) h: i16,
}

impl WidgetRect {
    /// The position and size of the rectangle.
    pub closed spec fn spec_parts(self) -> (i16, i16, i16, i16) {
        (self.x, self.y, self.w, self.h)
    }

    pub fn new(x: i16, y: i16, w: i16, h: i16) -> (r: Self)
        ensures
            r.spec_parts() == (x, y, w, h),
    {
        WidgetRect { x: x, y: y, w: w, h: h }
    }

    pub fn top_left(self) -> (p: WidgetPos)
        ensures
            p == WidgetPos::spec_new(self.spec_parts().0, self.spec_parts().1),
            p.spec_x() == self.spec_parts().0,
            p.spec_y() == self.spec_parts().1,
    {
        WidgetPos::new(self.x, self.y)
    }

    /// The corner opposite the top left one.
    pub fn bottom_right(self) -> (p: WidgetPos)
        requires
            i16::MIN <= self.spec_parts().0 + self.spec_parts().2 <= i16::MAX,
            i16::MIN <= self.spec_parts().1 + self.spec_parts().3 <= i16::MAX,
        ensures
            p.spec_x() == self.spec_parts().0 + self.spec_parts().2,
            p.spec_y() == self.spec_parts().1 + self.spec_parts().3,
    {
        WidgetPos::new(self.x + self.w, self.y + self.h)
    }

    pub fn size(self) -> (r: (i16, i16))
        ensures
            r == (self.spec_parts().2, self.spec_parts().3),
    {
        (self.w, self.h)
    }
}

impl From<(i16, i16, i16, i16)> for WidgetRect {
    fn from(coords: (i16, i16, i16, i16)) -> (r: Self) {
        Self::new(coords.0, coords.1, coords.2, coords.3)
    }
}

impl FromSpecImpl<(i16, i16, i16, i16)> for WidgetRect {
    open spec fn obeys_from_spec() -> bool {
        true
    }

    open spec fn from_spec(coords: (i16, i16, i16, i16)) -> Self {
        WidgetRect::spec_from_parts(coords)
    }
}

impl WidgetRect {
    pub closed spec fn spec_from_parts(p: (i16, i16, i16, i16)) -> Self {
        WidgetRect { x: p.0, y: p.1, w: p.2, h: p.3 }
    }

    pub proof fn lemma_spec_from_parts(p: (i16, i16, i16, i16))
        ensures
            Self::spec_from_parts(p).spec_parts() == p,
    {
    }
}

/// The scissor rectangle, which clips all drawing.
#[derive(Debug, PartialEq, Eq, Clone, Copy)]
pub struct ScissorRect {
    pub(crate) x: u16,
    pub(crate) y: u16,
    pub(crate) w: u16,
    pub(crate) h: u16,
}

impl ScissorRect {
    /// The position and size of the rectangle.
    pub closed spec fn spec_parts(self) -> (u16, u16, u16, u16) {
        (self.x, self.y, self.w, self.h)
    }

    pub closed spec fn spec_from_parts(p: (u16, u16, u16, u16)) -> Self {
        ScissorRect { x: p.0, y: p.1, w: p.2, h: p.3 }
    }

    pub proof fn lemma_spec_from_parts(p: (u16, u16, u16, u16))
        ensures
            Self::spec_from_parts(p).spec_parts() == p,
    {
    }

    pub fn new(x: u16, y: u16, w: u16, h: u16) -> (r: Self)
        ensures
            r.spec_parts() == (x, y, w, h),
    {
        ScissorRect { x: x, y: y, w: w, h: h }
    }

    pub fn top_left(self) -> (p: ScissorPos)
        ensures
            p == ScissorPos::spec_new(self.spec_parts().0, self.spec_parts().1),
            p.spec_x() == self.spec_parts().0,
            p.spec_y() == self.spec_parts().1,
    {
        ScissorPos::new(self.x, self.y)
    }

    pub fn size(self) -> (r: (u16, u16))
        ensures
            r == (self.spec_parts().2, self.spec_parts().3),
    {
        (self.w, self.h)
    }
}

impl From<(u16, u16, u16, u16)> for ScissorRect {
    fn from(coords: (u16, u16, u16, u16)) -> (r: Self) {
        Self::new(coords.0, coords.1, coords.2, coords.3)
    }
}

impl FromSpecImpl<(u16, u16, u16, u16)> for ScissorRect {
    open spec fn obeys_from_spec() -> bool {
        true
    }

    open spec fn from_spec(coords: (u16, u16, u16, u16)) -> Self {
        ScissorRect::spec_from_parts(coords)
    }
}

} // verus!
