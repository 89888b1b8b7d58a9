use vstd::prelude::*;

verus! {

/// Why a terminal operation failed. Texts carry the operating system's own
/// description of the failure.
#[derive(Debug, PartialEq, Eq)]
pub enum TerminalError {
    /// No pseudo-terminal could be allocated.
    PtyOpen(String),
    /// The shell could not be started.
    Spawn(String),
    /// The input writer or the output reader could not be obtained.
    HandleAcquisition(String),
    /// No live session has this identifier.
    SessionNotFound(u32),
    /// Writing input to the session failed.
    Write(String),
    /// Flushing input to the session failed.
    Flush(String),
    /// Resizing the session's terminal failed.
    Resize(String),
}

} // verus!
