use super::region::{region_addr, region_valid, HostAccessible, RegionLayout};
use core::marker::PhantomData;
use vstd::prelude::*;
use vstd::std_specs::ops::{AddSpecImpl, SubSpecImpl};

verus! {

/// A pointer to a memory address within a particular memory region identified
/// by type parameter `R`.
///
/// Pointers are parameterized by memory region so that other parts of this
/// library which consume pointers can statically constrain what memory regions
/// they are able to refer to.
#[derive(Copy, Debug)]
pub struct Ptr<R: RegionLayout> {
    pub(crate) addr: u32,
    pub(crate) _region: PhantomData<R>,
}

impl<R: RegionLayout> View for Ptr<R> {
    type V = int;

    /// The absolute address of the pointer.
    closed spec fn view(&self) -> int {
        self.addr as int
    }
}

impl<R: RegionLayout> Clone for Ptr<R> {
    fn clone(&self) -> (r: Self)
        ensures
            r == *self,
    {
        *self
    }
}

impl<R: RegionLayout> Ptr<R> {
    /// Every pointer lies within its (valid) region.
    #[verifier::type_invariant]
    pub(crate) closed spec fn in_region(self) -> bool {
        &&& region_valid::<R>()
        &&& R::BASE_ADDR <= self.addr
        &&& self.addr < R::BASE_ADDR + R::LENGTH
    }

    pub(crate) fn from_region_offset(raw: u32) -> (p: Self)
        requires
            region_valid::<R>(),
        ensures
            p@ == region_addr::<R>(raw as int),
    {
        let off = raw % R::LENGTH;
        Ptr { addr: R::BASE_ADDR + off, _region: PhantomData }
    }

    /// Constructs a new pointer from the given offset into the region,
    /// taken modulo the region length.
    pub fn new(offset: u32) -> (p: Self)
        requires
            region_valid::<R>(),
        ensures
            p@ == region_addr::<R>(offset as int),
    {
        Ptr::from_region_offset(offset)
    }

    /// Returns the absolute address of the pointer.
    pub fn to_raw(self) -> (r: u32)
        ensures
            r == self@,
            R::BASE_ADDR <= r < R::BASE_ADDR + R::LENGTH,
    {
        proof {
            use_type_invariant(self);
        }
        self.addr
    }

    /// Returns the offset of the pointer relative to its containing memory
    /// region.
    pub fn to_raw_offset(self) -> (r: u32)
        ensures
            r == self@ - R::BASE_ADDR,
            r < R::LENGTH,
    {
        proof {
            use_type_invariant(self);
        }
        self.addr - R::BASE_ADDR
    }

    /// A pointer `len` bytes further on, taken modulo the region.
    pub fn offset_by(self, len: u32) -> (p: Self)
        requires
            self@ + len <= u32::MAX,
        ensures
            p@ == region_addr::<R>(self@ + len),
    {
        proof {
            use_type_invariant(self);
        }
        Ptr::from_region_offset(self.addr + len)
    }

    /// The slice of `len` bytes starting at this pointer.
    pub fn slice_length(self, len: u32) -> (s: super::Slice<R>)
        requires
            self@ + len <= u32::MAX,
        ensures
            s.start() == self,
            s.end()@ == region_addr::<R>(self@ + len),
    {
        let end = self.offset_by(len);
        super::Slice::from_bounds(self, end)
    }
}

/// The three bytes of a "write memory" header: the top six bits of the
/// 22-bit address marked with the write flag, then the middle and low bytes.
pub open spec fn spi_write_header(addr: u32) -> Seq<u8> {
    seq![(((addr >> 16) & 0x3f) | 0x80) as u8, (addr >> 8) as u8, addr as u8]
}

/// The four bytes of a "read memory" header: the 22-bit address, most
/// significant byte first, then a dummy byte.
pub open spec fn spi_read_header(addr: u32) -> Seq<u8> {
    seq![((addr >> 16) & 0x3f) as u8, (addr >> 8) as u8, addr as u8, 0u8]
}

impl<R: HostAccessible> Ptr<R> {
    /// Writes the three bytes needed to form a "write memory" header for the
    /// pointer's address.
    pub fn build_spi_write_header(self, into: &mut [u8; 3])
        ensures
            final(into)@ == spi_write_header(self@ as u32),
    {
        into[0] = (((self.addr >> 16) & 0b00111111) | 0b10000000) as u8;
        into[1] = (self.addr >> 8) as u8;
        into[2] = (self.addr >> 0) as u8;
        proof {
            let a = self.addr;
            assert(a >> 0 == a) by (bit_vector);
            assert(final(into)@ =~= spi_write_header(self@ as u32));
        }
    }

    /// Writes the four bytes needed to form a "read memory" header for the
    /// pointer's address.
    pub fn build_spi_read_header(self, into: &mut [u8; 4])
        ensures
            final(into)@ == spi_read_header(self@ as u32),
    {
        into[0] = ((self.addr >> 16) & 0b00111111) as u8;
        into[1] = (self.addr >> 8) as u8;
        into[2] = (self.addr >> 0) as u8;
        into[3] = 0;
        proof {
            let a = self.addr;
            assert(a >> 0 == a) by (bit_vector);
            assert(final(into)@ =~= spi_read_header(self@ as u32));
        }
    }
}

impl<R: RegionLayout> Ptr<R> {
    /// The pointer that `self + offset` (or `self - offset`) designates: the
    /// new absolute address, taken back into the region modulo its length.
    pub closed spec fn moved_to(self, addr: int) -> Self {
        Ptr { addr: region_addr::<R>(addr) as u32, _region: PhantomData }
    }

    pub proof fn lemma_moved_to(self, addr: int)
        requires
            region_valid::<R>(),
        ensures
            self.moved_to(addr)@ == region_addr::<R>(addr),
    {
    }
}

impl<R: RegionLayout> core::ops::Add<u32> for Ptr<R> {
    type Output = Self;

    fn add(self, offset: u32) -> (p: Self) {
        proof {
            use_type_invariant(self);
        }
        Ptr::from_region_offset(self.addr + offset)
    }
}

impl<R: RegionLayout> AddSpecImpl<u32> for Ptr<R> {
    open spec fn obeys_add_spec() -> bool {
        true
    }

    open spec fn add_req(self, offset: u32) -> bool {
        self@ + offset <= u32::MAX
    }

    open spec fn add_spec(self, offset: u32) -> Self {
        self.moved_to(self@ + offset)
    }
}

impl<R: RegionLayout> core::ops::Add<i32> for Ptr<R> {
    type Output = Self;

    fn add(self, offset: i32) -> (p: Self) {
        proof {
            use_type_invariant(self);
        }
        Ptr::from_region_offset(self.addr + (offset as u32))
    }
}

impl<R: RegionLayout> AddSpecImpl<i32> for Ptr<R> {
    open spec fn obeys_add_spec() -> bool {
        true
    }

    /// The offset is reinterpreted as unsigned, as the `as u32` cast does.
    open spec fn add_req(self, offset: i32) -> bool {
        self@ + (offset as u32) <= u32::MAX
    }

    open spec fn add_spec(self, offset: i32) -> Self {
        self.moved_to(self@ + (offset as u32))
    }
}

impl<R: RegionLayout> core::ops::Sub<u32> for Ptr<R> {
    type Output = Self;

    fn sub(self, offset: u32) -> (p: Self) {
        proof {
            use_type_invariant(self);
        }
        Ptr::from_region_offset(self.addr - offset)
    }
}

impl<R: RegionLayout> SubSpecImpl<u32> for Ptr<R> {
    open spec fn obeys_sub_spec() -> bool {
        true
    }

    open spec fn sub_req(self, offset: u32) -> bool {
        self@ - offset >= 0
    }

    open spec fn sub_spec(self, offset: u32) -> Self {
        self.moved_to(self@ - offset)
    }
}

impl<R: RegionLayout> core::ops::Sub<i32> for Ptr<R> {
    type Output = Self;

    fn sub(self, offset: i32) -> (p: Self) {
        proof {
            use_type_invariant(self);
        }
        Ptr::from_region_offset(self.addr - (offset as u32))
    }
}

impl<R: RegionLayout> SubSpecImpl<i32> for Ptr<R> {
    open spec fn obeys_sub_spec() -> bool {
        true
    }

    /// The offset is reinterpreted as unsigned, as the `as u32` cast does.
    open spec fn sub_req(self, offset: i32) -> bool {
        self@ - (offset as u32) >= 0
    }

    open spec fn sub_spec(self, offset: i32) -> Self {
        self.moved_to(self@ - (offset as u32))
    }
}


/// The address that an SPI memory header names: the low six bits of its
/// first byte, then its second and third bytes.
pub open spec fn header_addr(h: Seq<u8>) -> u32 {
    ((h[0] & 0x3f) as u32) << 16 | (h[1] as u32) << 8 | (h[2] as u32)
}

/// A header names the address it was made for, when the address fits in 22
/// bits, as every address of a region that the host can access does; the
/// top two bits of its first byte tell a write (`10`) from a read (`00`).
pub proof fn lemma_spi_header_roundtrip(addr: u32)
    requires
        addr < 0x40_0000,
    ensures
        header_addr(spi_write_header(addr)) == addr,
        header_addr(spi_read_header(addr)) == addr,
        spi_write_header(addr)[0] & 0xc0 == 0x80,
        spi_read_header(addr)[0] & 0xc0 == 0,
{
    assert(((((((addr >> 16) & 0x3f) | 0x80) as u8) & 0x3f) as u32) << 16 | (((addr >> 8) as u8) as u32) << 8
        | ((addr as u8) as u32) == addr) by (bit_vector)
        requires
            addr < 0x40_0000,
    ;
    assert((((((addr >> 16) & 0x3f) as u8) & 0x3f) as u32) << 16 | (((addr >> 8) as u8) as u32) << 8
        | ((addr as u8) as u32) == addr) by (bit_vector)
        requires
            addr < 0x40_0000,
    ;
    assert(((((addr >> 16) & 0x3f) | 0x80) as u8) & 0xc0 == 0x80) by (bit_vector);
    assert((((addr >> 16) & 0x3f) as u8) & 0xc0 == 0) by (bit_vector);
}


/// Moves the pointer on by `offset`, taken back into the region modulo its
/// length; the sum of address and offset wraps around at 2^32.
impl<R: RegionLayout> core::ops::AddAssign<u32> for Ptr<R> {
    fn add_assign(&mut self, offset: u32)
        ensures
            final(self)@ == region_addr::<R>((old(self)@ + offset) % 0x1_0000_0000),
    {
        proof {
            use_type_invariant(&*self);
        }
        *self = Ptr::from_region_offset(self.addr.wrapping_add(offset));
    }
}

/// Moves the pointer by `offset`, reinterpreted as unsigned as the `as u32`
/// cast does, taken back into the region modulo its length; the sum wraps
/// around at 2^32.
impl<R: RegionLayout> core::ops::AddAssign<i32> for Ptr<R> {
    fn add_assign(&mut self, offset: i32)
        ensures
            final(self)@ == region_addr::<R>((old(self)@ + (offset as u32)) % 0x1_0000_0000),
    {
        proof {
            use_type_invariant(&*self);
        }
        *self = Ptr::from_region_offset(self.addr.wrapping_add(offset as u32));
    }
}

/// Moves the pointer back by `offset`, taken back into the region modulo its
/// length; the difference wraps around at 2^32.
impl<R: RegionLayout> core::ops::SubAssign<u32> for Ptr<R> {
    fn sub_assign(&mut self, offset: u32)
        ensures
            final(self)@ == region_addr::<R>((old(self)@ - offset) % 0x1_0000_0000),
    {
        proof {
            use_type_invariant(&*self);
        }
        *self = Ptr::from_region_offset(self.addr.wrapping_sub(offset));
    }
}

/// Moves the pointer back by `offset`, reinterpreted as unsigned as the
/// `as u32` cast does, taken back into the region modulo its length; the
/// difference wraps around at 2^32.
impl<R: RegionLayout> core::ops::SubAssign<i32> for Ptr<R> {
    fn sub_assign(&mut self, offset: i32)
        ensures
            final(self)@ == region_addr::<R>((old(self)@ - (offset as u32)) % 0x1_0000_0000),
    {
        proof {
            use_type_invariant(&*self);
        }
        *self = Ptr::from_region_offset(self.addr.wrapping_sub(offset as u32));
    }
}

} // verus!
