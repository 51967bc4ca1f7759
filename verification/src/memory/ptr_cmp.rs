//! Comparisons between pointers of the same model.
//!
//! Pointers from different memory regions of the same model are comparable:
//! since the regions of a model are disjoint, they are never equal, and they
//! order as the regions lie in the memory map.

use super::ptr::Ptr;
use super::region::RegionLayout;
use vstd::prelude::*;
use vstd::std_specs::cmp::{PartialEqSpecImpl, PartialOrdSpecImpl};
use core::cmp::Ordering;

verus! {

impl<R1: RegionLayout, R2: RegionLayout<Model = R1::Model>> PartialEq<Ptr<R2>> for Ptr<R1> {
    fn eq(&self, other: &Ptr<R2>) -> (r: bool) {
        self.to_raw() == other.to_raw()
    }
}

impl<R1: RegionLayout, R2: RegionLayout<Model = R1::Model>> PartialEqSpecImpl<Ptr<R2>> for Ptr<R1> {
    open spec fn obeys_eq_spec() -> bool {
        true
    }

    open spec fn eq_spec(&self, other: &Ptr<R2>) -> bool {
        self@ == other@
    }
}

impl<R: RegionLayout> Eq for Ptr<R> {
}

impl<R1: RegionLayout, R2: RegionLayout<Model = R1::Model>> PartialOrd<Ptr<R2>> for Ptr<R1> {
    fn partial_cmp(&self, other: &Ptr<R2>) -> (r: Option<Ordering>) {
        let a = self.to_raw();
        let b = other.to_raw();
        if a == b {
            Some(Ordering::Equal)
        } else if a < b {
            Some(Ordering::Less)
        } else {
            Some(Ordering::Greater)
        }
    }
}

impl<R1: RegionLayout, R2: RegionLayout<Model = R1::Model>> PartialOrdSpecImpl<Ptr<R2>> for Ptr<R1> {
    open spec fn obeys_partial_cmp_spec() -> bool {
        true
    }

    open spec fn partial_cmp_spec(&self, other: &Ptr<R2>) -> Option<Ordering> {
        if self@ == other@ {
            Some(Ordering::Equal)
        } else if self@ < other@ {
            Some(Ordering::Less)
        } else {
            Some(Ordering::Greater)
        }
    }
}

} // verus!
