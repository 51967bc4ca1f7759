//! Choices made while initializing an EVE chip.

use vstd::prelude::*;

verus! {

/// Selects whether the EVE chip should use its internal oscillator or if
/// it should expect external clock signals.
#[derive(Clone, Copy, PartialEq, Eq, Debug)]
pub enum EVEClockSource {
    Internal,
    External,
}

} // verus!
