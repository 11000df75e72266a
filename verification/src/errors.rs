//! The failure taxonomy of the adapter.

use vstd::prelude::*;

verus! {

/// How the operating system reported a failure: a raw error code where one
/// survives the platform layer, otherwise only the textual report.
#[derive(Clone, Debug, PartialEq, Eq)]
pub enum OsFailure {
    Code(i32),
    Message(String),
}

/// Everything a caller of the adapter can be handed back.
///
/// A zero-length read is deliberately absent: it is a value, not an error
/// (see `transfer::ReadEvent`). Would-block and interrupted conditions are
/// absorbed inside the transfer loop and never surface either.
#[derive(Clone, Debug, PartialEq, Eq)]
pub enum Error {
    /// The device could not be opened: missing, busy, or access denied.
    DeviceOpen(OsFailure),
    /// Line-discipline or settings access failed during construction.
    Configuration(OsFailure),
    /// The device timeout parameters could not be overridden at construction.
    TimeoutOverride(OsFailure),
    /// A genuine transfer failure during read, write or flush.
    Io(OsFailure),
}

} // verus!
