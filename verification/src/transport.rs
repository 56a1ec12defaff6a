//! The exchange between the switching logic and whoever holds the displays.
//!
//! The library decides; its caller performs. Each [`Action`] names one piece
//! of blocking work on the display transport, and each [`Response`] reports
//! how that work ended.

use crate::display::{Display, DisplayInfo};
use vstd::prelude::*;
use vstd::string::StringExecFns;

verus! {

/// One piece of work on the display transport.
#[derive(Clone, Copy, Debug, PartialEq, Eq, Structural)]
pub enum Action {
    /// List every display that the transport can reach, opening each.
    Enumerate,
    /// Read the capabilities of an open display and refresh what is known
    /// of it.
    UpdateCapabilities { handle: usize },
    /// Set a VCP feature of an open display to a value.
    SetVcpFeature { handle: usize, code: u8, value: u16 },
    /// Wait out the communication delay of an open display, after which its
    /// handle may be closed.
    Sleep { handle: usize },
}

/// How a piece of transport work ended.
#[derive(Debug)]
pub enum Response {
    /// The displays that were found, in the transport's order.
    Displays(Vec<Display>),
    /// What is known of the display after its capabilities were read.
    Capabilities(DisplayInfo),
    /// The work was done and there is nothing to report.
    Done,
    /// The work failed.
    Failed,
}

/// What can go wrong while switching inputs.
#[derive(Clone, Copy, Debug, PartialEq, Eq, Structural)]
pub enum Error {
    /// The transport could not list its displays.
    EnumerationFailed,
    /// The display does not advertise the input select feature.
    CapabilityUnavailable,
    /// The display was told to switch and the transport reported a failure.
    /// The switch may have happened all the same.
    TransportFailure,
}

impl Error {
    /// The text that describes each error.
    pub open spec fn text(self) -> Seq<char> {
        match self {
            Error::EnumerationFailed => "Could not enumerate displays"@,
            Error::CapabilityUnavailable => "Could not access input source feature"@,
            Error::TransportFailure => "Could not set input source feature"@,
        }
    }

    /// A description of the error, for a log line.
    pub fn message(&self) -> (text: String)
        ensures
            text@ == self.text(),
    {
        match self {
            Error::EnumerationFailed => String::from_str("Could not enumerate displays"),
            Error::CapabilityUnavailable => String::from_str(
                "Could not access input source feature",
            ),
            Error::TransportFailure => String::from_str("Could not set input source feature"),
        }
    }
}

} // verus!
