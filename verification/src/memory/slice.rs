use super::ptr::Ptr;
use super::region::RegionLayout;
use vstd::prelude::*;
use vstd::std_specs::convert::FromSpecImpl;

verus! {

/// A consecutive sequence of memory addresses in a particular region.
#[derive(Debug, Copy)]
pub struct Slice<R: RegionLayout> {
    start_: Ptr<R>,  // inclusive
    end_: Ptr<R>,  // exclusive
}

impl<R: RegionLayout> Clone for Slice<R> {
    fn clone(&self) -> (r: Self)
        ensures
            r == *self,
    {
        *self
    }
}

impl<R: RegionLayout> Slice<R> {
    /// The first address of the slice.
    pub closed spec fn start(self) -> Ptr<R> {
        self.start_
    }

    /// The address just past the end of the slice.
    pub closed spec fn end(self) -> Ptr<R> {
        self.end_
    }

    pub(crate) fn from_bounds(start: Ptr<R>, end: Ptr<R>) -> (s: Self)
        ensures
            s.start() == start,
            s.end() == end,
    {
        Slice { start_: start, end_: end }
    }

    /// The number of bytes in the slice.
    pub fn len(&self) -> (r: u32)
        requires
            self.start()@ <= self.end()@,
        ensures
            r == self.end()@ - self.start()@,
    {
        self.end_.to_raw() - self.start_.to_raw()
    }

    /// Whether the pointer lies in the slice.
    pub fn contains(&self, ptr: Ptr<R>) -> (r: bool)
        ensures
            r == (self.start()@ <= ptr@ < self.end()@),
    {
        ptr.to_raw() >= self.start_.to_raw() && ptr.to_raw() < self.end_.to_raw()
    }

    pub fn bounds(self) -> (r: (Ptr<R>, Ptr<R>))
        ensures
            r == (self.start(), self.end()),
    {
        (self.start_, self.end_)
    }

    pub fn raw_bounds(self) -> (r: (u32, u32))
        ensures
            r.0 == self.start()@,
            r.1 == self.end()@,
    {
        (self.start_.to_raw(), self.end_.to_raw())
    }
}

impl<R: RegionLayout> core::convert::From<core::ops::Range<Ptr<R>>> for Slice<R> {
    fn from(range: core::ops::Range<Ptr<R>>) -> (s: Self) {
        Slice { start_: range.start, end_: range.end }
    }
}

impl<R: RegionLayout> FromSpecImpl<core::ops::Range<Ptr<R>>> for Slice<R> {
    open spec fn obeys_from_spec() -> bool {
        true
    }

    open spec fn from_spec(range: core::ops::Range<Ptr<R>>) -> Self {
        Slice::from_range_spec(range.start, range.end)
    }
}

impl<R: RegionLayout> Slice<R> {
    pub closed spec fn from_range_spec(start: Ptr<R>, end: Ptr<R>) -> Self {
        Slice { start_: start, end_: end }
    }

    pub proof fn lemma_from_range_spec(start: Ptr<R>, end: Ptr<R>)
        ensures
            Self::from_range_spec(start, end).start() == start,
            Self::from_range_spec(start, end).end() == end,
    {
    }
}

} // verus!
