//! Types representing the characteristics of the different EVE models.

pub mod bt815;
pub mod fake;

use crate::memory;
use crate::memory::region_valid;
use crate::memory::regions_disjoint;
use crate::memory::MemoryRegion;
use crate::memory::RegionLayout;
use vstd::prelude::*;

verus! {

/// All of the memory regions of the model can hand out pointers.
pub open spec fn model_valid<M: Model>() -> bool {
    &&& region_valid::<M::MainMem>()
    &&& region_valid::<M::DisplayListMem>()
    &&& region_valid::<M::RegisterMem>()
    &&& region_valid::<M::CommandMem>()
}

/// Implemented by types that represent the characteristics of different
/// specific models of EVE.
///
/// This trait is intended only for implementation inside this crate. Models
/// are relevant only at compile time, to help generate the correct address
/// offsets for the different memory maps in different generations of EVE.
pub trait Model: Sized + core::fmt::Debug {
    type MainMem: memory::MainMem;
    type DisplayListMem: memory::DisplayListMem;
    type RegisterMem: memory::RegisterMem;
    type CommandMem: memory::CommandMem;

    /// Every memory region of the model can hand out pointers, no two of
    /// its regions overlap, and the display list memory holds whole command
    /// words, starts at a multiple of its length and leaves room for one
    /// more word below the top of the address space.
    proof fn lemma_layout_valid()
        ensures
            region_valid::<Self::MainMem>(),
            region_valid::<Self::DisplayListMem>(),
            region_valid::<Self::RegisterMem>(),
            region_valid::<Self::CommandMem>(),
            4 <= Self::DisplayListMem::LENGTH,
            Self::DisplayListMem::LENGTH % 4 == 0,
            Self::DisplayListMem::BASE_ADDR % Self::DisplayListMem::LENGTH == 0,
            Self::DisplayListMem::BASE_ADDR + Self::DisplayListMem::LENGTH + 4 <= 0x1_0000_0000,
            regions_disjoint::<Self::MainMem, Self::DisplayListMem>(),
            regions_disjoint::<Self::MainMem, Self::RegisterMem>(),
            regions_disjoint::<Self::MainMem, Self::CommandMem>(),
            regions_disjoint::<Self::DisplayListMem, Self::RegisterMem>(),
            regions_disjoint::<Self::DisplayListMem, Self::CommandMem>(),
            regions_disjoint::<Self::RegisterMem, Self::CommandMem>(),
    ;

    /// A pointer to the given register in this model's register memory.
    fn reg_ptr(reg: crate::registers::Register) -> (p: memory::Ptr<Self::RegisterMem>)
        ensures
            p@ == memory::region::region_addr::<Self::RegisterMem>(reg.spec_offset() as int),
    {
        proof {
            Self::lemma_layout_valid();
        }
        Self::RegisterMem::ptr(reg.offset())
    }
}

/// Implemented by model types that have an external flash memory space.
pub trait WithExtFlashMem: Model {
    type ExtFlashMem: memory::ExtFlashMem;
}

/// Implemented by model types that have some memory space set aside for
/// reporting coprocessor fault messages.
pub trait WithCommandErrMem: Model {
    type CommandErrMem: memory::CommandErrMem;
}

/// Implemented by model types whose coprocessor offers the first level of
/// its API.
pub trait WithCoprocessorAPILevel1: Model {}

/// Implemented by model types whose coprocessor offers the second level of
/// its API.
pub trait WithCoprocessorAPILevel2: Model {}

} // verus!
