//! The core's image of the binary I/O lines it owns.
//!
//! Every line the core drives is an already-configured push-pull output,
//! handed over by the embedding layer at startup.  The core owns each line
//! exclusively, so the level it last drove is the level the pin holds; an
//! [`OutputLine`] records that level, and the embedding layer mirrors every
//! level change onto the physical pin.  [`InputLine`] stands for a feedback
//! sense input that the hardware provides but the core deliberately never
//! reads.

use vstd::prelude::*;

verus! {

/// One binary output line, exclusively owned by the core.
///
/// Holds the level the line is currently driven to.  `set_high` and
/// `set_low` are the only mutations; there is no read-back from the
/// hardware, only the commanded level.
pub struct OutputLine {
    high: bool,
}

impl OutputLine {
    /// The level the line is currently driven to.
    pub closed spec fn is_high(&self) -> bool {
        self.high
    }

    /// Takes ownership of a line that the embedding layer has configured
    /// and left at the given level.
    pub fn new(initially_high: bool) -> (line: OutputLine)
        ensures
            line.is_high() == initially_high,
    {
        OutputLine { high: initially_high }
    }

    /// Drives the line high.
    pub fn set_high(&mut self)
        ensures
            final(self).is_high(),
    {
        self.high = true;
    }

    /// Drives the line low.
    pub fn set_low(&mut self)
        ensures
            !final(self).is_high(),
    {
        self.high = false;
    }

    /// The commanded level, for observers and for the embedding layer to
    /// mirror onto the pin.
    pub fn is_set_high(&self) -> (high: bool)
        ensures
            high == self.is_high(),
    {
        self.high
    }
}

/// One digital sense input, reserved and never read by the core.
pub struct InputLine {}

impl InputLine {
    /// Takes ownership of a configured sense input.
    pub fn new() -> (line: InputLine) {
        InputLine {}
    }
}

} // verus!
