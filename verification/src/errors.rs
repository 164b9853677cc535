//! The error taxonomy of the session manager.

use vstd::prelude::*;

verus! {

/// Which stage of the manager's work failed. `PtyAllocation` is the backend
/// refusing a PTY pair, `Spawn` is the process failing to start, `IoSetup` is
/// the reader or writer handle failing to come off the master side, and `Io`
/// covers write and resize failures on an established session.
#[derive(Clone, Copy, Debug, PartialEq, Eq, Structural)]
pub enum ErrorKind {
    PtyAllocation,
    Spawn,
    IoSetup,
    Io,
}

/// An error surfaced synchronously to the caller of open, write or resize:
/// the failed stage together with a human-readable reason.
#[derive(Debug)]
pub struct Error {
    pub kind: ErrorKind,
    pub reason: String,
}

impl Error {
    /// Pair a stage with the reason the operating system gave.
    pub fn new(kind: ErrorKind, reason: String) -> (e: Error)
        ensures
            e.kind == kind,
            e.reason == reason,
    {
        Error { kind, reason }
    }
}

} // verus!
