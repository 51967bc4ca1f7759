//! A fake implementation of `Model` for testing and examples.

use crate::memory;
use vstd::prelude::*;

verus! {

/// A fake implementation of `Model` for testing and examples.
#[derive(Debug, Copy, Clone, PartialEq, Eq)]
pub struct Model;

impl super::Model for Model {
    type MainMem = MainMem;
    type DisplayListMem = DisplayListMem;
    type RegisterMem = RegisterMem;
    type CommandMem = CommandMem;

    proof fn lemma_layout_valid() {
        assert(<MainMem as memory::RegionLayout>::BASE_ADDR == 0x000000);
        assert(<MainMem as memory::RegionLayout>::LENGTH == 0x100000);
        assert(<DisplayListMem as memory::RegionLayout>::BASE_ADDR == 0x300000);
        assert(<DisplayListMem as memory::RegionLayout>::LENGTH == 0x2000);
        assert(<RegisterMem as memory::RegionLayout>::BASE_ADDR == 0x302000);
        assert(<RegisterMem as memory::RegionLayout>::LENGTH == 0x1000);
        assert(<CommandMem as memory::RegionLayout>::BASE_ADDR == 0x308000);
        assert(<CommandMem as memory::RegionLayout>::LENGTH == 0x1000);
    }
}

/// Where the regions of this model lie: main memory at 0 (1 MiB), display
/// list memory at `0x300000` (8 KiB), registers at `0x302000` (4 KiB) and
/// coprocessor command memory at `0x308000` (4 KiB).
pub proof fn lemma_region_layout()
    ensures
        <MainMem as memory::RegionLayout>::BASE_ADDR == 0x000000,
        <MainMem as memory::RegionLayout>::LENGTH == 0x100000,
        <DisplayListMem as memory::RegionLayout>::BASE_ADDR == 0x300000,
        <DisplayListMem as memory::RegionLayout>::LENGTH == 0x2000,
        <RegisterMem as memory::RegionLayout>::BASE_ADDR == 0x302000,
        <RegisterMem as memory::RegionLayout>::LENGTH == 0x1000,
        <CommandMem as memory::RegionLayout>::BASE_ADDR == 0x308000,
        <CommandMem as memory::RegionLayout>::LENGTH == 0x1000,
{
}

impl super::WithExtFlashMem for Model {
    type ExtFlashMem = ExtFlashMem;
}

impl super::WithCommandErrMem for Model {
    type CommandErrMem = CommandErrMem;
}

impl super::WithCoprocessorAPILevel1 for Model {
}

impl super::WithCoprocessorAPILevel2 for Model {
}

#[derive(Debug, Copy, Clone, PartialEq, Eq)]
pub struct MainMem;

impl memory::MemoryRegion for MainMem {
}

impl memory::RegionLayout for MainMem {
    type Model = Model;

    const BASE_ADDR: u32 = 0x000000;
    const LENGTH: u32 = 0x100000;
    const DEBUG_NAME: &'static str = "MainMem";
}

impl memory::HostAccessible for MainMem {
    proof fn lemma_host_accessible() {
        assert(<MainMem as memory::RegionLayout>::BASE_ADDR == 0x0);
        assert(<MainMem as memory::RegionLayout>::LENGTH == 0x100000);
    }
}

impl memory::MainMem for MainMem {
}

#[derive(Debug, Copy, Clone, PartialEq, Eq)]
pub struct DisplayListMem;

impl memory::MemoryRegion for DisplayListMem {
}

impl memory::RegionLayout for DisplayListMem {
    type Model = Model;

    const BASE_ADDR: u32 = 0x300000;
    const LENGTH: u32 = 0x2000;
    const DEBUG_NAME: &'static str = "DisplayListMem";
}

impl memory::HostAccessible for DisplayListMem {
    proof fn lemma_host_accessible() {
        assert(<DisplayListMem as memory::RegionLayout>::BASE_ADDR == 0x300000);
        assert(<DisplayListMem as memory::RegionLayout>::LENGTH == 0x2000);
    }
}

impl memory::DisplayListMem for DisplayListMem {
}

#[derive(Debug, Copy, Clone, PartialEq, Eq)]
pub struct RegisterMem;

impl memory::MemoryRegion for RegisterMem {
}

impl memory::RegionLayout for RegisterMem {
    type Model = Model;

    const BASE_ADDR: u32 = 0x302000;
    const LENGTH: u32 = 0x1000;
    const DEBUG_NAME: &'static str = "RegisterMem";
}

impl memory::HostAccessible for RegisterMem {
    proof fn lemma_host_accessible() {
        assert(<RegisterMem as memory::RegionLayout>::BASE_ADDR == 0x302000);
        assert(<RegisterMem as memory::RegionLayout>::LENGTH == 0x1000);
    }
}

impl memory::RegisterMem for RegisterMem {
}

#[derive(Debug, Copy, Clone, PartialEq, Eq)]
pub struct CommandMem;

impl memory::MemoryRegion for CommandMem {
}

impl memory::RegionLayout for CommandMem {
    type Model = Model;

    const BASE_ADDR: u32 = 0x308000;
    const LENGTH: u32 = 0x1000;
    const DEBUG_NAME: &'static str = "CommandMem";
}

impl memory::HostAccessible for CommandMem {
    proof fn lemma_host_accessible() {
        assert(<CommandMem as memory::RegionLayout>::BASE_ADDR == 0x308000);
        assert(<CommandMem as memory::RegionLayout>::LENGTH == 0x1000);
    }
}

impl memory::CommandMem for CommandMem {
}

#[derive(Debug, Copy, Clone, PartialEq, Eq)]
pub struct CommandErrMem;

impl memory::MemoryRegion for CommandErrMem {
}

impl memory::RegionLayout for CommandErrMem {
    type Model = Model;

    const BASE_ADDR: u32 = 0x309800;
    const LENGTH: u32 = 128;
    const DEBUG_NAME: &'static str = "CommandErrMem";
}

impl memory::HostAccessible for CommandErrMem {
    proof fn lemma_host_accessible() {
        assert(<CommandErrMem as memory::RegionLayout>::BASE_ADDR == 0x309800);
        assert(<CommandErrMem as memory::RegionLayout>::LENGTH == 0x80);
    }
}

impl memory::CommandErrMem for CommandErrMem {
    const RAW_MESSAGE_LEN: usize = 128;
}

#[derive(Debug, Copy, Clone, PartialEq, Eq)]
pub struct ExtFlashMem;

impl memory::MemoryRegion for ExtFlashMem {
}

impl memory::RegionLayout for ExtFlashMem {
    type Model = Model;

    const BASE_ADDR: u32 = 0x800000;
    const LENGTH: u32 = 0x10000000;
    const DEBUG_NAME: &'static str = "ExtFlashMem";
}

impl memory::ExtFlashMem for ExtFlashMem {
}

} // verus!
