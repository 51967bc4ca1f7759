//! The host commands that an EVE device accepts on its SPI interface.

use vstd::prelude::*;

verus! {

/// A host command, sent to the device outside of its memory map to control
/// its power state and clocks.
#[derive(Clone, Copy, PartialEq, Eq, Debug)]
#[allow(non_camel_case_types)]
pub enum HostCmd {
    ACTIVE,
    STANDBY,
    SLEEP,
    PWRDOWN,
    CLKEXT,
    CLKINT,
    CLKSEL,
    RST_PULSE,
    PINDRIVE,
    PIN_PD_STATE,
}

impl HostCmd {
    /// The command byte of the host command.
    pub open spec fn spec_raw(self) -> u8 {
        match self {
            HostCmd::ACTIVE => 0x00,
            HostCmd::STANDBY => 0x41,
            HostCmd::SLEEP => 0x42,
            HostCmd::PWRDOWN => 0x43,
            HostCmd::CLKEXT => 0x44,
            HostCmd::CLKINT => 0x48,
            HostCmd::CLKSEL => 0x61,
            HostCmd::RST_PULSE => 0x68,
            HostCmd::PINDRIVE => 0x70,
            HostCmd::PIN_PD_STATE => 0x71,
        }
    }

    /// Returns the command whose command byte is `raw`, if there is one.
    pub fn from_raw(raw: u8) -> (r: Option<Self>)
        ensures
            match r {
                Some(c) => c.spec_raw() == raw,
                None => forall|c: Self| c.spec_raw() != raw,
            },
    {
        match raw {
            0x00 => Some(HostCmd::ACTIVE),
            0x41 => Some(HostCmd::STANDBY),
            0x42 => Some(HostCmd::SLEEP),
            0x43 => Some(HostCmd::PWRDOWN),
            0x44 => Some(HostCmd::CLKEXT),
            0x48 => Some(HostCmd::CLKINT),
            0x61 => Some(HostCmd::CLKSEL),
            0x68 => Some(HostCmd::RST_PULSE),
            0x70 => Some(HostCmd::PINDRIVE),
            0x71 => Some(HostCmd::PIN_PD_STATE),
            _ => None,
        }
    }

    /// Returns the command byte of the host command.
    pub fn to_raw(self) -> (r: u8)
        ensures
            r == self.spec_raw(),
    {
        match self {
            HostCmd::ACTIVE => 0x00,
            HostCmd::STANDBY => 0x41,
            HostCmd::SLEEP => 0x42,
            HostCmd::PWRDOWN => 0x43,
            HostCmd::CLKEXT => 0x44,
            HostCmd::CLKINT => 0x48,
            HostCmd::CLKSEL => 0x61,
            HostCmd::RST_PULSE => 0x68,
            HostCmd::PINDRIVE => 0x70,
            HostCmd::PIN_PD_STATE => 0x71,
        }
    }
}

/// Different commands have different command bytes, so `from_raw` of a
/// command's byte gives back that command.
pub proof fn lemma_host_cmd_raw_injective(c: HostCmd, d: HostCmd)
    ensures
        c.spec_raw() == d.spec_raw() ==> c == d,
{
}

} // verus!
