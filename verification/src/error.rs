//! Failures the rendering and completion core can report.

use vstd::prelude::*;

verus! {

/// What went wrong during a rendering or completion operation.
///
/// A spawn failure is caught at session creation and leaves the session
/// absent; daemon I/O and decode failures spoil a single completion cycle;
/// a terminal failure is fatal to the current write but leaves the cursor
/// model's already-applied state intact.
#[derive(Clone, Copy, PartialEq, Eq, Structural, Debug)]
pub enum IRustError {
    /// The completion daemon process could not be started.
    SubprocessSpawnFailed,
    /// Writing to or reading from the daemon failed.
    SubprocessIoFailed,
    /// The daemon's response was not valid text.
    ResponseDecodeFailed,
    /// A terminal write failed.
    TerminalIoFailed,
}

impl IRustError {
    /// A short description for status messages.
    pub fn description(&self) -> (s: &'static str)
        ensures
            self is SubprocessSpawnFailed ==> s@ == "could not start the completion daemon"@,
            self is SubprocessIoFailed ==> s@ == "the completion daemon stopped responding"@,
            self is ResponseDecodeFailed ==> s@ == "the completion daemon sent malformed text"@,
            self is TerminalIoFailed ==> s@ == "a terminal write failed"@,
    {
        match self {
            IRustError::SubprocessSpawnFailed => "could not start the completion daemon",
            IRustError::SubprocessIoFailed => "the completion daemon stopped responding",
            IRustError::ResponseDecodeFailed => "the completion daemon sent malformed text",
            IRustError::TerminalIoFailed => "a terminal write failed",
        }
    }
}

} // verus!
