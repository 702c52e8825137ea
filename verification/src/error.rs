//! The kinds of failure the engine reports.

use vstd::prelude::*;

verus! {

/// Why an operation of the engine did not complete.
#[derive(Clone, Copy, Debug, PartialEq, Eq, Structural, Hash)]
pub enum RemoteError {
    /// A GPIO line could not be opened or requested.
    HardwareAcquisition,
    /// A sampling window closed without a single edge event.
    NoSignal,
    /// A command word was not one of the four known ones.
    InvalidCommand,
    /// A line offset or a position name does not belong to an indicator line.
    InvalidInput,
    /// A seek used up its attempts without reaching the target.
    SeekNotConverging,
    /// A press was asked for on an output line that is still being held.
    LineBusy,
    /// A release was asked for on an output line that is not being held.
    LineIdle,
    /// A release was asked for before the minimum dwell had passed.
    DwellNotElapsed,
}

impl RemoteError {
    /// The text of each kind, as a sequence of characters.
    pub open spec fn text(self) -> Seq<char> {
        match self {
            RemoteError::HardwareAcquisition => "hardware acquisition failed"@,
            RemoteError::NoSignal => "no signal within the observation window"@,
            RemoteError::InvalidCommand => "invalid command"@,
            RemoteError::InvalidInput => "invalid input value"@,
            RemoteError::SeekNotConverging => "seek did not converge"@,
            RemoteError::LineBusy => "output line is busy"@,
            RemoteError::LineIdle => "output line is not held"@,
            RemoteError::DwellNotElapsed => "minimum dwell has not elapsed"@,
        }
    }

    /// The kind of failure as text, for a transport layer to hand on.
    pub fn message(&self) -> (s: &'static str)
        ensures
            s@ == self.text(),
    {
        match self {
            RemoteError::HardwareAcquisition => "hardware acquisition failed",
            RemoteError::NoSignal => "no signal within the observation window",
            RemoteError::InvalidCommand => "invalid command",
            RemoteError::InvalidInput => "invalid input value",
            RemoteError::SeekNotConverging => "seek did not converge",
            RemoteError::LineBusy => "output line is busy",
            RemoteError::LineIdle => "output line is not held",
            RemoteError::DwellNotElapsed => "minimum dwell has not elapsed",
        }
    }

    /// The kind of failure as an owned string.
    pub fn to_string(&self) -> (s: String)
        ensures
            s@ == self.text(),
    {
        String::from_str(self.message())
    }
}

} // verus!
