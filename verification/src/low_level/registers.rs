//! The registers in the register memory of an EVE device.

use crate::memory::{MemoryRegion, Ptr};
use crate::memory::region::{region_addr, region_valid};
use crate::models::Model;
use vstd::prelude::*;

verus! {

/// The absolute address of register `r` in the memory map of model `M`.
pub open spec fn reg_addr<M: Model>(r: Register) -> u32 {
    region_addr::<M::RegisterMem>(r.spec_offset() as int) as u32
}

/// Represents a register within the MEM_REG region on an EVE device.
#[derive(Clone, Copy, PartialEq, Eq, Debug)]
#[allow(non_camel_case_types)]
pub enum Register {
    ADAPTIVE_FRAMERATE,
    CLOCK,
    CMD_DL,
    CMD_READ,
    CMD_WRITE,
    CMDB_SPACE,
    CMDB_WRITE,
    COPRO_PATCH_PTR,
    CPURESET,
    CSPREAD,
    DITHER,
    DLSWAP,
    FLASH_STATUS,
    FLASH_SIZE,
    FRAMES,
    FREQUENCY,
    GPIO,
    GPIO_DIR,
    GPIO_X,
    GPIOX_DIR,
    HCYCLE,
    HOFFSET,
    HSIZE,
    HSYNC0,
    HSYNC1,
    ID,
    INT_EN,
    INT_FLAGS,
    INT_MASK,
    MACRO_0,
    MACRO_1,
    MEDIAFIFO_READ,
    MEDIAFIFO_WRITE,
    OUTBITS,
    PCLK,
    PCLK_POL,
    PLAY,
    PLAY_CONTROL,
    PLAYBACK_FORMAT,
    PLAYBACK_FREQ,
    PLAYBACK_LENGTH,
    PLAYBACK_LOOP,
    PLAYBACK_PAUSE,
    PLAYBACK_PLAY,
    PLAYBACK_READPTR,
    PLAYBACK_START,
    PWM_DUTY,
    PWM_HZ,
    ROTATE,
    SOUND,
    SPI_WIDTH,
    SWIZZLE,
    TAG,
    TAG_X,
    TAG_Y,
    TRACKER,
    TRACKER_1,
    TRACKER_2,
    TRACKER_3,
    TRACKER_4,
    VCYCLE,
    VOFFSET,
    VOL_PB,
    VSIZE,
    VSYNC0,
    VSYNC1,
}

impl Register {
    /// The offset of the register within the register memory.
    pub open spec fn spec_offset(self) -> u16 {
        match self {
            Register::ADAPTIVE_FRAMERATE => 0x57c,
            Register::CLOCK => 0x08,
            Register::CMD_DL => 0x100,
            Register::CMD_READ => 0xf8,
            Register::CMD_WRITE => 0xfc,
            Register::CMDB_SPACE => 0x574,
            Register::CMDB_WRITE => 0x578,
            Register::COPRO_PATCH_PTR => 0x7162,
            Register::CPURESET => 0x20,
            Register::CSPREAD => 0x68,
            Register::DITHER => 0x60,
            Register::DLSWAP => 0x54,
            Register::FLASH_STATUS => 0x5f0,
            Register::FLASH_SIZE => 0x7024,
            Register::FRAMES => 0x04,
            Register::FREQUENCY => 0x0c,
            Register::GPIO => 0x94,
            Register::GPIO_DIR => 0x90,
            Register::GPIO_X => 0x9c,
            Register::GPIOX_DIR => 0x98,
            Register::HCYCLE => 0x2c,
            Register::HOFFSET => 0x30,
            Register::HSIZE => 0x34,
            Register::HSYNC0 => 0x38,
            Register::HSYNC1 => 0x3c,
            Register::ID => 0x00,
            Register::INT_EN => 0xac,
            Register::INT_FLAGS => 0xa8,
            Register::INT_MASK => 0xb0,
            Register::MACRO_0 => 0xd8,
            Register::MACRO_1 => 0xdc,
            Register::MEDIAFIFO_READ => 0x7014,
            Register::MEDIAFIFO_WRITE => 0x7018,
            Register::OUTBITS => 0x5c,
            Register::PCLK => 0x70,
            Register::PCLK_POL => 0x6c,
            Register::PLAY => 0x8c,
            Register::PLAY_CONTROL => 0x714e,
            Register::PLAYBACK_FORMAT => 0xc4,
            Register::PLAYBACK_FREQ => 0xc0,
            Register::PLAYBACK_LENGTH => 0xb8,
            Register::PLAYBACK_LOOP => 0xc8,
            Register::PLAYBACK_PAUSE => 0x5ec,
            Register::PLAYBACK_PLAY => 0xcc,
            Register::PLAYBACK_READPTR => 0xbc,
            Register::PLAYBACK_START => 0xb4,
            Register::PWM_DUTY => 0xd4,
            Register::PWM_HZ => 0xd0,
            Register::ROTATE => 0x58,
            Register::SOUND => 0x88,
            Register::SPI_WIDTH => 0x180,
            Register::SWIZZLE => 0x64,
            Register::TAG => 0x7c,
            Register::TAG_X => 0x74,
            Register::TAG_Y => 0x78,
            Register::TRACKER => 0x7000,
            Register::TRACKER_1 => 0x7004,
            Register::TRACKER_2 => 0x7008,
            Register::TRACKER_3 => 0x700C,
            Register::TRACKER_4 => 0x7010,
            Register::VCYCLE => 0x40,
            Register::VOFFSET => 0x44,
            Register::VOL_PB => 0x84,
            Register::VSIZE => 0x48,
            Register::VSYNC0 => 0x4c,
            Register::VSYNC1 => 0x50,
        }
    }

    /// Returns a pointer to the register in the register memory of model `M`.
    pub fn ptr<M: crate::models::Model>(self) -> (p: Ptr<M::RegisterMem>)
        ensures
            p@ == region_addr::<M::RegisterMem>(self.spec_offset() as int),
    {
        proof {
            M::lemma_layout_valid();
        }
        M::RegisterMem::ptr(self.offset())
    }

    /// Returns the offset of the register address within the register memory.
    pub fn offset(self) -> (r: u32)
        ensures
            r == self.spec_offset(),
    {
        match self {
            Register::ADAPTIVE_FRAMERATE => 0x57c,
            Register::CLOCK => 0x08,
            Register::CMD_DL => 0x100,
            Register::CMD_READ => 0xf8,
            Register::CMD_WRITE => 0xfc,
            Register::CMDB_SPACE => 0x574,
            Register::CMDB_WRITE => 0x578,
            Register::COPRO_PATCH_PTR => 0x7162,
            Register::CPURESET => 0x20,
            Register::CSPREAD => 0x68,
            Register::DITHER => 0x60,
            Register::DLSWAP => 0x54,
            Register::FLASH_STATUS => 0x5f0,
            Register::FLASH_SIZE => 0x7024,
            Register::FRAMES => 0x04,
            Register::FREQUENCY => 0x0c,
            Register::GPIO => 0x94,
            Register::GPIO_DIR => 0x90,
            Register::GPIO_X => 0x9c,
            Register::GPIOX_DIR => 0x98,
            Register::HCYCLE => 0x2c,
            Register::HOFFSET => 0x30,
            Register::HSIZE => 0x34,
            Register::HSYNC0 => 0x38,
            Register::HSYNC1 => 0x3c,
            Register::ID => 0x00,
            Register::INT_EN => 0xac,
            Register::INT_FLAGS => 0xa8,
            Register::INT_MASK => 0xb0,
            Register::MACRO_0 => 0xd8,
            Register::MACRO_1 => 0xdc,
            Register::MEDIAFIFO_READ => 0x7014,
            Register::MEDIAFIFO_WRITE => 0x7018,
            Register::OUTBITS => 0x5c,
            Register::PCLK => 0x70,
            Register::PCLK_POL => 0x6c,
            Register::PLAY => 0x8c,
            Register::PLAY_CONTROL => 0x714e,
            Register::PLAYBACK_FORMAT => 0xc4,
            Register::PLAYBACK_FREQ => 0xc0,
            Register::PLAYBACK_LENGTH => 0xb8,
            Register::PLAYBACK_LOOP => 0xc8,
            Register::PLAYBACK_PAUSE => 0x5ec,
            Register::PLAYBACK_PLAY => 0xcc,
            Register::PLAYBACK_READPTR => 0xbc,
            Register::PLAYBACK_START => 0xb4,
            Register::PWM_DUTY => 0xd4,
            Register::PWM_HZ => 0xd0,
            Register::ROTATE => 0x58,
            Register::SOUND => 0x88,
            Register::SPI_WIDTH => 0x180,
            Register::SWIZZLE => 0x64,
            Register::TAG => 0x7c,
            Register::TAG_X => 0x74,
            Register::TAG_Y => 0x78,
            Register::TRACKER => 0x7000,
            Register::TRACKER_1 => 0x7004,
            Register::TRACKER_2 => 0x7008,
            Register::TRACKER_3 => 0x700C,
            Register::TRACKER_4 => 0x7010,
            Register::VCYCLE => 0x40,
            Register::VOFFSET => 0x44,
            Register::VOL_PB => 0x84,
            Register::VSIZE => 0x48,
            Register::VSYNC0 => 0x4c,
            Register::VSYNC1 => 0x50,
        }
    }

    /// Returns the index of the register within the register file, as if the
    /// register file were an array of `u32`.
    pub fn index(self) -> (r: usize)
        ensures
            r == self.spec_offset() / 4,
    {
        (self.offset() / 4) as usize
    }
}

} // verus!
