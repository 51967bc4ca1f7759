//! Types for representing EVE memory regions at compile time.

use super::ptr::Ptr;
use crate::models::Model;
use core::marker::PhantomData;
use vstd::prelude::*;

verus! {

/// The layout of a memory region: where it starts, how long it is, and a name
/// for debugging output.
pub trait RegionLayout: core::marker::Sized + core::fmt::Debug + core::marker::Copy {
    /// The model whose memory map this region belongs to.
    type Model;

    const BASE_ADDR: u32;
    const LENGTH: u32;
    const DEBUG_NAME: &'static str;
}

/// A region can hand out pointers when it is non-empty and lies entirely
/// within the 32-bit address space.
pub open spec fn region_valid<R: RegionLayout>() -> bool {
    &&& 0 < R::LENGTH
    &&& R::BASE_ADDR + R::LENGTH <= 0x1_0000_0000
}

/// The absolute address that `R::ptr(raw)` designates: `raw` is taken
/// modulo the region length and added to the region base.
pub open spec fn region_addr<R: RegionLayout>(raw: int) -> int {
    R::BASE_ADDR + raw % (R::LENGTH as int)
}

/// A trait implemented by all memory regions that [`Ptr`](Ptr) instances can
/// refer to.
///
/// Within the context of a particular model none of the available memory
/// regions may overlap. Memory regions exist only at compile time; at runtime
/// we deal only in absolute addresses represented as `u32`.
pub trait MemoryRegion: RegionLayout {
    /// Creates a pointer in the selected memory region.
    ///
    /// The given value is interpreted as an offset into the memory region,
    /// modulo the size of the region.
    fn ptr(raw: u32) -> (p: Ptr<Self>)
        requires
            region_valid::<Self>(),
        ensures
            p@ == region_addr::<Self>(raw as int),
    {
        Ptr::from_region_offset(raw)
    }
}

pub trait MainMem: MemoryRegion + HostAccessible {}

pub trait FontMem: MemoryRegion + HostAccessible {}

pub trait DisplayListMem: MemoryRegion + HostAccessible {}

pub trait RegisterMem: MemoryRegion + HostAccessible {}

pub trait CommandMem: MemoryRegion + HostAccessible {}

/// Implemented by memory regions where the coprocessor reports its fault
/// messages, as a buffer of `RAW_MESSAGE_LEN` bytes.
pub trait CommandErrMem: MemoryRegion + HostAccessible {
    const RAW_MESSAGE_LEN: usize;
}

/// Implemented by memory regions that can be accessed indirectly via the
/// `CMD_FLASH...` family of coprocessor commands.
pub trait ExtFlashMem: MemoryRegion {}

/// Implemented by memory regions that can be directly read or written by
/// the host controller. Memory regions implementing this trait may only
/// use the lower 22 bits of the address space, with the topmost 10 bits
/// always set to zero.
pub trait HostAccessible: MemoryRegion {
    /// The region lies within the lower 22 bits of the address space.
    proof fn lemma_host_accessible()
        ensures
            Self::BASE_ADDR + Self::LENGTH <= 0x40_0000,
    ;
}

/// The regions `A` and `B` share no address.
pub open spec fn regions_disjoint<A: RegionLayout, B: RegionLayout>() -> bool {
    A::BASE_ADDR + A::LENGTH <= B::BASE_ADDR || B::BASE_ADDR + B::LENGTH <= A::BASE_ADDR
}


/// Every region address lies in the region.
pub proof fn lemma_region_addr_in_region<R: RegionLayout>(raw: int)
    requires
        region_valid::<R>(),
    ensures
        R::BASE_ADDR <= region_addr::<R>(raw) < R::BASE_ADDR + R::LENGTH,
{
}

/// Offsets that differ by the region length name the same address.
pub proof fn lemma_region_addr_periodic<R: RegionLayout>(raw: int)
    requires
        region_valid::<R>(),
    ensures
        region_addr::<R>(raw + R::LENGTH) == region_addr::<R>(raw),
{
    let len = R::LENGTH as int;
    assert((raw + len) % len == raw % len) by {
        vstd::arithmetic::div_mod::lemma_mod_add_multiples_vanish(raw, len);
    }
}

/// An offset within the region names the address that far past its base.
pub proof fn lemma_region_addr_offset<R: RegionLayout>(offset: int)
    requires
        region_valid::<R>(),
        0 <= offset < R::LENGTH,
    ensures
        region_addr::<R>(offset) == R::BASE_ADDR + offset,
{
    vstd::arithmetic::div_mod::lemma_small_mod(offset as nat, R::LENGTH as nat);
}


/// Addresses in two regions that share no address are different, so
/// pointers into different regions of a model are never equal.
pub proof fn lemma_disjoint_region_addrs_differ<A: RegionLayout, B: RegionLayout>(a: int, b: int)
    requires
        region_valid::<A>(),
        region_valid::<B>(),
        regions_disjoint::<A, B>(),
    ensures
        region_addr::<A>(a) != region_addr::<B>(b),
{
}

/// Every address in a region that the host can access fits in the 22 bits
/// of an SPI memory header.
pub proof fn lemma_host_accessible_addr<R: HostAccessible>(raw: int)
    requires
        region_valid::<R>(),
    ensures
        region_addr::<R>(raw) < 0x40_0000,
{
    R::lemma_host_accessible();
}

} // verus!
