//! A description of a graphics mode: the video timings and the electrical
//! characteristics of the RGB interface together.

use crate::config::DIMENSION_MASK;
use vstd::prelude::*;

pub use crate::config::{dimension_is_valid, ClockFrequency, ClockPolarity};

verus! {

/// A graphics mode: its video timings and the electrical characteristics of
/// its RGB interface.
#[derive(Debug)]
pub struct EVEGraphicsMode {
    pub timings: EVEGraphicsTimings,
    pub electrical: EVERGBElectricalMode,
}

/// The timing parameters for video output.
#[derive(Debug)]
pub struct EVEGraphicsTimings {
    pub sysclk_freq: ClockFrequency,
    pub pclk_div: u8,
    pub pclk_pol: ClockPolarity,
    pub horiz: EVEGraphicsModeDimension,
    pub vert: EVEGraphicsModeDimension,
}

/// The period transition cycles for one dimension (horizontal or vertical)
/// of the video raster.
#[derive(Debug, PartialEq, Eq)]
pub struct EVEGraphicsModeDimension {
    pub total: u16,
    pub visible: u16,
    pub offset: u16,
    pub sync_start: u16,
    pub sync_end: u16,
}

/// The electrical characteristics of the EVE RGB interface.
#[derive(Debug)]
pub struct EVERGBElectricalMode {
    pub pclk_spread: bool,
    pub channel_bits: (u8, u8, u8),
    pub dither: bool,
}

/// The dimension with the given period sizes: each event counted in steps
/// into the cycle, kept to the twelve bits that the registers hold.
pub open spec fn spec_mode_dimension(active: u16, front_porch: u16, sync: u16, back_porch: u16) -> EVEGraphicsModeDimension {
    EVEGraphicsModeDimension {
        total: ((active + front_porch + sync + back_porch) as u16) & DIMENSION_MASK,
        visible: active & DIMENSION_MASK,
        offset: ((front_porch + sync + back_porch) as u16) & DIMENSION_MASK,
        sync_start: front_porch & DIMENSION_MASK,
        sync_end: ((front_porch + sync) as u16) & DIMENSION_MASK,
    }
}

impl EVEGraphicsTimings {
    /// Timing settings to approximate what's expected for a 720p signal.
    /// This mode is only available on EVE devices that are able to
    /// switch the system clock to 72MHz, thus allowing this mode to
    /// use a 72MHz pixel clock, which is approximately the 74.25MHz that
    /// 720p nominally requires.
    pub fn mode_720p() -> (r: Self)
        ensures
            r.sysclk_freq == ClockFrequency::F72MHz,
            r.pclk_div == 1,
            r.pclk_pol == ClockPolarity::RisingEdge,
            r.horiz == spec_mode_dimension(1280, 110, 40, 220),
            r.vert == spec_mode_dimension(720, 5, 5, 370),
    {
        EVEGraphicsTimings {
            sysclk_freq: ClockFrequency::F72MHz,
            pclk_div: 1,
            pclk_pol: ClockPolarity::RisingEdge,
            horiz: EVEGraphicsModeDimension::calculate(1280, 110, 40, 220),
            vert: EVEGraphicsModeDimension::calculate(720, 5, 5, 370),
        }
    }
}

impl EVEGraphicsModeDimension {
    /// Calculates an `EVEGraphicsModeDimension` from the sizes of the
    /// individual periods in the cycle.
    ///
    /// An EVEGraphicsModeDimension captures the number of cycles _into_ a
    /// cycle where each event occurs, but when describing a mode we often
    /// speak of how many cycles each period has on its own, and so this
    /// function allows converting from the latter to the former automatically.
    pub fn calculate(active: u16, front_porch: u16, sync: u16, back_porch: u16) -> (r: Self)
        requires
            active + front_porch + sync + back_porch <= u16::MAX,
        ensures
            r == spec_mode_dimension(active, front_porch, sync, back_porch),
    {
        EVEGraphicsModeDimension {
            total: (active + front_porch + sync + back_porch) & DIMENSION_MASK,
            visible: (active) & DIMENSION_MASK,
            offset: (front_porch + sync + back_porch) & DIMENSION_MASK,
            sync_start: (front_porch) & DIMENSION_MASK,
            sync_end: (front_porch + sync) & DIMENSION_MASK,
        }
    }
}

} // verus!
