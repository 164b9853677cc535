//! The exit watcher of one session.
//!
//! The embedding program blocks on the spawned process and hands the outcome
//! in once. The watcher turns it into at most one exit report: a terminated
//! process is reported with its exit code, exactly once; a failed wait is
//! reported not at all — an accepted gap, since the relay's end of stream
//! still reaches the sink independently.

use vstd::prelude::*;

verus! {

/// The outcome of waiting on the spawned process.
#[derive(Clone, Copy, Debug, PartialEq, Eq, Structural)]
pub enum WaitEvent {
    /// The process terminated with this exit code.
    Exited(u32),
    /// The wait itself failed; the process's fate is unknown.
    Failed,
}

/// The exit report owed for one wait outcome: the exit code of a terminated
/// process, nothing for a failed wait.
pub open spec fn report_of(event: WaitEvent) -> Option<u32> {
    match event {
        WaitEvent::Exited(code) => Some(code),
        WaitEvent::Failed => None,
    }
}

/// The watcher's state: whether it has concluded, and (as ghost history) the
/// exit codes it has reported.
pub struct Watcher {
    pub done: bool,
    pub reports: Ghost<Seq<u32>>,
}

impl Watcher {
    /// The watcher's invariant: over its whole life it reports at most one
    /// exit code, and none before it concludes.
    pub open spec fn wf(self) -> bool {
        &&& self.reports@.len() <= 1
        &&& !self.done ==> self.reports@.len() == 0
    }

    /// A fresh watcher: not yet concluded, nothing reported.
    pub fn new() -> (w: Watcher)
        ensures
            w.wf(),
            !w.done,
            w.reports@ == Seq::<u32>::empty(),
    {
        Watcher { done: false, reports: Ghost(Seq::empty()) }
    }

    /// Conclude the wait. A terminated process is reported with exactly its
    /// exit code; a failed wait reports nothing. Concluding requires a
    /// watcher that has not concluded before and leaves it concluded, so a
    /// session's exit can never be reported twice.
    pub fn conclude(&mut self, event: WaitEvent) -> (report: Option<u32>)
        requires
            old(self).wf(),
            !old(self).done,
        ensures
            final(self).wf(),
            final(self).done,
            report == report_of(event),
            final(self).reports@ == match report {
                Some(code) => seq![code],
                None => Seq::<u32>::empty(),
            },
    {
        self.done = true;
        match event {
            WaitEvent::Exited(code) => {
                let ghost reported: Seq<u32> = seq![code];
                self.reports = Ghost(reported);
                Some(code)
            },
            WaitEvent::Failed => {
                proof {
                    assert(old(self).reports@ =~= Seq::<u32>::empty());
                }
                None
            },
        }
    }
}

} // verus!
