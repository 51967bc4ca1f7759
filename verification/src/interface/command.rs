use vstd::prelude::*;

verus! {

/// A higher-level interface trait tailored to the needs of the coprocessor
/// API, for situations where application code is isolated from the actual
/// transport hardware and interacts with the EVE coprocessor via a system
/// call interface or similar.
pub trait CommandInterface {
    type Error;

    /// Write the raw command words given in `cmds` to the EVE coprocessor,
    /// blocking if there isn't yet enough space in the coprocessor buffer
    /// or in any other intermediate buffer.
    fn write_commands(&mut self, cmds: &[u32]) -> Result<(), Self::Error>;

    /// Block for the coprocessor to complete all of the commands already
    /// written into its buffer, and then capture one or more raw words from
    /// the most recently-written words backwards into `results`.
    fn wait(&mut self, results: &mut [u32]) -> Result<(), Self::Error>;
}

} // verus!
