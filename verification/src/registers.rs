//! The registers of the first EVE generation, by their register addresses.

use crate::memory::region::region_addr;
use crate::memory::{MemoryRegion, Ptr};
use crate::models::Model;
use vstd::prelude::*;

pub use crate::low_level::registers::Register;

verus! {

/// Represents a register within the MEM_REG region on an EVE device.
#[derive(Clone, Copy, PartialEq, Eq, Debug)]
#[allow(non_camel_case_types)]
pub enum EVERegister {
    ADAPTIVE_FRAMERATE,
    CPURESET,
    CSPREAD,
    CMD_READ,
    CMD_WRITE,
    CMDB_SPACE,
    CMDB_WRITE,
    DITHER,
    DLSWAP,
    FREQUENCY,
    GPIO,
    GPIO_DIR,
    HCYCLE,
    HOFFSET,
    HSIZE,
    HSYNC0,
    HSYNC1,
    ID,
    OUTBITS,
    PCLK,
    PCLK_POL,
    SWIZZLE,
    VCYCLE,
    VOFFSET,
    VSIZE,
    VSYNC0,
    VSYNC1,
}

impl EVERegister {
    /// The offset of the register within the register memory.
    pub open spec fn spec_offset(self) -> u32 {
        match self {
            EVERegister::ADAPTIVE_FRAMERATE => 0x57c,
            EVERegister::CPURESET => 0x20,
            EVERegister::CSPREAD => 0x68,
            EVERegister::CMD_READ => 0xf8,
            EVERegister::CMD_WRITE => 0xfc,
            EVERegister::CMDB_SPACE => 0x574,
            EVERegister::CMDB_WRITE => 0x578,
            EVERegister::DITHER => 0x60,
            EVERegister::DLSWAP => 0x54,
            EVERegister::FREQUENCY => 0x0c,
            EVERegister::GPIO => 0x94,
            EVERegister::GPIO_DIR => 0x90,
            EVERegister::HCYCLE => 0x2c,
            EVERegister::HOFFSET => 0x30,
            EVERegister::HSIZE => 0x34,
            EVERegister::HSYNC0 => 0x38,
            EVERegister::HSYNC1 => 0x3c,
            EVERegister::ID => 0x00,
            EVERegister::OUTBITS => 0x5c,
            EVERegister::PCLK => 0x70,
            EVERegister::PCLK_POL => 0x6c,
            EVERegister::SWIZZLE => 0x64,
            EVERegister::VCYCLE => 0x40,
            EVERegister::VOFFSET => 0x44,
            EVERegister::VSIZE => 0x48,
            EVERegister::VSYNC0 => 0x4c,
            EVERegister::VSYNC1 => 0x50,
        }
    }

    /// Returns the offset of the register within the register memory.
    pub fn offset(self) -> (r: u32)
        ensures
            r == self.spec_offset(),
    {
        match self {
            EVERegister::ADAPTIVE_FRAMERATE => 0x57c,
            EVERegister::CPURESET => 0x20,
            EVERegister::CSPREAD => 0x68,
            EVERegister::CMD_READ => 0xf8,
            EVERegister::CMD_WRITE => 0xfc,
            EVERegister::CMDB_SPACE => 0x574,
            EVERegister::CMDB_WRITE => 0x578,
            EVERegister::DITHER => 0x60,
            EVERegister::DLSWAP => 0x54,
            EVERegister::FREQUENCY => 0x0c,
            EVERegister::GPIO => 0x94,
            EVERegister::GPIO_DIR => 0x90,
            EVERegister::HCYCLE => 0x2c,
            EVERegister::HOFFSET => 0x30,
            EVERegister::HSIZE => 0x34,
            EVERegister::HSYNC0 => 0x38,
            EVERegister::HSYNC1 => 0x3c,
            EVERegister::ID => 0x00,
            EVERegister::OUTBITS => 0x5c,
            EVERegister::PCLK => 0x70,
            EVERegister::PCLK_POL => 0x6c,
            EVERegister::SWIZZLE => 0x64,
            EVERegister::VCYCLE => 0x40,
            EVERegister::VOFFSET => 0x44,
            EVERegister::VSIZE => 0x48,
            EVERegister::VSYNC0 => 0x4c,
            EVERegister::VSYNC1 => 0x50,
        }
    }

    /// A pointer to the register in the register memory of model `M`.
    pub fn ptr<M: Model>(self) -> (p: Ptr<M::RegisterMem>)
        ensures
            p@ == region_addr::<M::RegisterMem>(self.spec_offset() as int),
    {
        proof {
            M::lemma_layout_valid();
        }
        M::RegisterMem::ptr(self.offset())
    }
}

} // verus!
