//! The session slot and the outcome rules of open, write and resize.
//!
//! Exactly one session is live at a time. Its two exclusive handles — the
//! writable end of the PTY and the resize-capable master — live in one
//! mutable slot. The embedding program performs the operating-system calls
//! and feeds their outcomes to the functions here, which decide what is
//! stored and what the caller is told.

use vstd::prelude::*;

use crate::errors::{Error, ErrorKind};

verus! {

/// The manager's one mutable slot: the active session's input writer and its
/// resize handle. Both are absent until a session is opened; opening a new
/// session replaces both at once, superseding the previous session's handles.
pub struct SessionSlot<W, M> {
    pub writer: Option<W>,
    pub master: Option<M>,
}

impl<W, M> SessionSlot<W, M> {
    /// Before any session is opened, the slot holds nothing.
    pub fn empty() -> (s: Self)
        ensures
            s.writer is None,
            s.master is None,
    {
        SessionSlot { writer: None, master: None }
    }

    /// Store a fresh session's handles, both in one call: no caller of this
    /// slot can observe a state where one handle is set and the other is not.
    /// Whatever the slot held before — nothing, or a superseded session's
    /// handles — is discarded.
    pub fn install(&mut self, w: W, m: M)
        ensures
            final(self).writer == Some(w),
            final(self).master == Some(m),
    {
        self.writer = Some(w);
        self.master = Some(m);
    }

    /// Whether an input writer is currently stored.
    pub fn has_writer(&self) -> (b: bool)
        ensures
            b == (self.writer is Some),
    {
        self.writer.is_some()
    }

    /// Whether a resize handle is currently stored.
    pub fn has_master(&self) -> (b: bool)
        ensures
            b == (self.master is Some),
    {
        self.master.is_some()
    }

    /// Lend the writer out for one write call; the resize handle stays put.
    pub fn take_writer(&mut self) -> (r: Option<W>)
        ensures
            r == old(self).writer,
            final(self).writer is None,
            final(self).master == old(self).master,
    {
        self.writer.take()
    }

    /// Put the writer back after a write call; the resize handle stays put.
    pub fn restore_writer(&mut self, w: W)
        ensures
            final(self).writer == Some(w),
            final(self).master == old(self).master,
    {
        self.writer = Some(w);
    }

    /// Lend the resize handle out for one resize call; the writer stays put.
    pub fn take_master(&mut self) -> (r: Option<M>)
        ensures
            r == old(self).master,
            final(self).master is None,
            final(self).writer == old(self).writer,
    {
        self.master.take()
    }

    /// Put the resize handle back after a resize call; the writer stays put.
    pub fn restore_master(&mut self, m: M)
        ensures
            final(self).master == Some(m),
            final(self).writer == old(self).writer,
    {
        self.master = Some(m);
    }

    /// Commit the outcome of an open attempt. On success the slot takes the
    /// new session's handles; on failure the slot is left exactly as it was,
    /// so the previous session, if any, stays usable, and the error is passed
    /// through to the caller.
    pub fn apply_open(&mut self, outcome: Result<(W, M), Error>) -> (r: Result<(), Error>)
        ensures
            outcome matches Ok(h) ==> {
                &&& final(self).writer == Some(h.0)
                &&& final(self).master == Some(h.1)
                &&& r is Ok
            },
            outcome matches Err(e) ==> {
                &&& *final(self) == *old(self)
                &&& r == Err::<(), Error>(e)
            },
    {
        match outcome {
            Ok((w, m)) => {
                self.install(w, m);
                Ok(())
            },
            Err(e) => Err(e),
        }
    }
}

/// The stages of an open attempt that can fail, in the order they run:
/// allocating the PTY pair, spawning the process on its slave side, cloning
/// an independent reader off the master, and taking the writer off the
/// master.
#[derive(Clone, Copy, Debug, PartialEq, Eq, Structural)]
pub enum OpenStage {
    Allocate,
    Spawn,
    CloneReader,
    TakeWriter,
}

/// The error reported when an open attempt fails at the given stage: PTY
/// allocation failures, spawn failures, and handle-setup failures each carry
/// their own kind, with the reason passed through verbatim.
pub fn open_failure(stage: OpenStage, reason: String) -> (e: Error)
    ensures
        e.reason == reason,
        e.kind == match stage {
            OpenStage::Allocate => ErrorKind::PtyAllocation,
            OpenStage::Spawn => ErrorKind::Spawn,
            OpenStage::CloneReader => ErrorKind::IoSetup,
            OpenStage::TakeWriter => ErrorKind::IoSetup,
        },
{
    let kind = match stage {
        OpenStage::Allocate => ErrorKind::PtyAllocation,
        OpenStage::Spawn => ErrorKind::Spawn,
        OpenStage::CloneReader => ErrorKind::IoSetup,
        OpenStage::TakeWriter => ErrorKind::IoSetup,
    };
    Error::new(kind, reason)
}

/// The caller-visible result of a send-input request. With no session open
/// (`writer_present` false) there is nothing to write to and the request
/// succeeds as a no-op; with a session open, the outcome of the write-and-
/// flush is passed to this function, and a failure is reported as an `Io`
/// error carrying the reason.
pub fn write_outcome(writer_present: bool, io_result: Option<Result<(), String>>) -> (r: Result<
    (),
    Error,
>)
    requires
        writer_present <==> io_result is Some,
    ensures
        !writer_present ==> r is Ok,
        io_result matches Some(inner) ==> match inner {
            Ok(()) => r is Ok,
            Err(reason) => r matches Err(e) && e.kind == ErrorKind::Io && e.reason == reason,
        },
{
    match io_result {
        None => Ok(()),
        Some(Ok(())) => Ok(()),
        Some(Err(reason)) => Err(Error::new(ErrorKind::Io, reason)),
    }
}

/// The caller-visible result of a resize request, with the same rule as
/// input: no session is a silent no-op, and a failed resize of the PTY is an
/// `Io` error carrying the reason.
pub fn resize_outcome(master_present: bool, io_result: Option<Result<(), String>>) -> (r: Result<
    (),
    Error,
>)
    requires
        master_present <==> io_result is Some,
    ensures
        !master_present ==> r is Ok,
        io_result matches Some(inner) ==> match inner {
            Ok(()) => r is Ok,
            Err(reason) => r matches Err(e) && e.kind == ErrorKind::Io && e.reason == reason,
        },
{
    match io_result {
        None => Ok(()),
        Some(Ok(())) => Ok(()),
        Some(Err(reason)) => Err(Error::new(ErrorKind::Io, reason)),
    }
}

} // verus!
