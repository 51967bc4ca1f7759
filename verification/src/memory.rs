//! Pointers in the EVE memory space.

pub mod region;

pub(crate) mod ptr;
mod ptr_cmp;
mod slice;

pub use ptr::Ptr;
pub use slice::Slice;

pub use region::{
    region_valid, regions_disjoint, CommandErrMem, CommandMem, DisplayListMem, ExtFlashMem, FontMem,
    HostAccessible, MainMem, MemoryRegion, RegionLayout, RegisterMem,
};
