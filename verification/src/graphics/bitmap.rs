//! Bitmaps stored in the memory of an EVE device.

use crate::display_list::options::{BitmapExtFormat, BitmapFormat};
use crate::memory::region::{region_addr, RegionLayout};
use crate::memory::{Ptr, Slice};
use vstd::prelude::*;

verus! {

/// Represents a bitmap stored in the EVE device's memory space, capturing
/// both the physical location of the bitmap (and optional palette) and
/// the pixel format stored there.
pub struct Bitmap<MR: RegionLayout> {
    pub image_data: Ptr<MR>,
    pub palette_data: Option<Ptr<MR>>,
    pub format: BitmapExtFormat,
    pub width: u32,
    pub height: u32,
    pub stride: u32,
}

impl<MR: RegionLayout> Bitmap<MR> {
    /// Constructs a new `Bitmap` with the given dimensions and pixel format,
    /// with no associated palette.
    ///
    /// The stride is the smallest stride possible for the given width in the
    /// given pixel format. Only the base pixel formats are supported, not
    /// `BitmapFormat::GLFormat`.
    pub fn new_without_palette(format: BitmapFormat, base: Ptr<MR>, width: u32, height: u32) -> (b: Self)
        requires
            format != BitmapFormat::GLFormat,
            format.stride_fits(width),
        ensures
            b.image_data == base,
            b.palette_data is None,
            Ok::<BitmapExtFormat, ()>(b.format) == format.ext_format(),
            b.width == width,
            b.height == height,
            b.stride == format.spec_minimum_stride(width),
    {
        let ext_format = match BitmapExtFormat::try_from(format) {
            Ok(fmt) => fmt,
            Err(_) => {
                proof {
                    assert(false);
                }
                BitmapExtFormat::ARGB1555
            },
        };
        Bitmap {
            image_data: base,
            palette_data: None,
            format: ext_format,
            width: width,
            height: height,
            stride: format.minimum_stride(width),
        }
    }

    /// Returns the length of the span of bytes representing the pixels in
    /// graphics memory (not including the palette data, if any).
    pub fn byte_length(&mut self) -> (r: u32)
        requires
            old(self).height * old(self).stride <= u32::MAX,
        ensures
            r == old(self).height * old(self).stride,
            *final(self) == *old(self),
    {
        proof {
            vstd::arithmetic::mul::lemma_mul_is_commutative(self.height as int, self.stride as int);
        }
        self.height * self.stride
    }

    /// Returns the block of memory representing the pixels in graphics memory
    /// (not including the palette data, if any).
    pub fn data_slice(&mut self) -> (s: Slice<MR>)
        requires
            old(self).height * old(self).stride <= u32::MAX,
            old(self).image_data@ + old(self).height * old(self).stride <= u32::MAX,
        ensures
            s.start() == old(self).image_data,
            s.end()@ == region_addr::<MR>(old(self).image_data@ + old(self).height * old(self).stride),
            *final(self) == *old(self),
    {
        let len = self.byte_length();
        self.image_data.slice_length(len)
    }
}

} // verus!
