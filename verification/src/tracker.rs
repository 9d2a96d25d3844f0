//! Exit State Tracker: a write-once cell for the final exit status of one
//! instance. The cell is written exactly once by the execution worker and
//! read any number of times thereafter; it never changes after the first
//! successful write. The blocking and wakeup around the cell (a mutex and
//! condition variable in the embedding process) carry these semantics
//! across threads; the cell itself is the sequential core they protect.

use vstd::prelude::*;

verus! {

/// The final status of one instance: the exit code and the moment of
/// completion, as nanoseconds since the epoch.
#[derive(Clone, Copy, PartialEq, Eq, Structural, Debug)]
pub struct ExitRecord {
    pub exit_code: u32,
    pub completion_time: u64,
}

/// A second `record` call: a programming-contract violation, reported to
/// the caller rather than swallowed.
#[derive(Clone, Copy, PartialEq, Eq, Structural, Debug)]
pub struct StateViolation;

/// The write-once cell. Empty at construction; `record` fills it at most
/// once; `try_value` and `await_value` read whatever has been recorded.
pub struct ExitStateTracker {
    value: Option<ExitRecord>,
}

impl ExitStateTracker {
    /// The value recorded so far, if any.
    pub closed spec fn recorded(&self) -> Option<ExitRecord> {
        self.value
    }

    /// Whether a `record` attempt on this tracker would be accepted.
    pub open spec fn accepts_record(&self) -> bool {
        self.recorded() is None
    }

    /// The cell after a `record(code, time)` attempt: filled if it was
    /// empty, unchanged otherwise.
    pub closed spec fn record_transition(self, code: u32, time: u64) -> ExitStateTracker {
        if self.value is None {
            ExitStateTracker { value: Some(ExitRecord { exit_code: code, completion_time: time }) }
        } else {
            self
        }
    }

    /// Creates an empty cell.
    pub fn new() -> (t: Self)
        ensures
            t.recorded() is None,
            t.accepts_record(),
    {
        ExitStateTracker { value: None }
    }

    /// Records the final status. Accepted exactly once: the first call
    /// fills the cell, every later call is rejected and changes nothing.
    pub fn record(&mut self, code: u32, time: u64) -> (r: Result<(), StateViolation>)
        ensures
            *final(self) == old(self).record_transition(code, time),
            r is Ok <==> old(self).accepts_record(),
            old(self).accepts_record() ==> final(self).recorded() == Some(
                ExitRecord { exit_code: code, completion_time: time },
            ),
            !old(self).accepts_record() ==> r == Err::<(), StateViolation>(StateViolation)
                && *final(self) == *old(self),
    {
        match self.value {
            None => {
                self.value = Some(ExitRecord { exit_code: code, completion_time: time });
                Ok(())
            },
            Some(_) => Err(StateViolation),
        }
    }

    /// Reads the cell without blocking.
    pub fn try_value(&self) -> (r: Option<ExitRecord>)
        ensures
            r == self.recorded(),
    {
        self.value
    }

    /// Reads the recorded value. Blocking until a value is recorded is the
    /// embedding process's affair; here that wait has already ended, so a
    /// value must be present, and the one recorded pair is returned.
    pub fn await_value(&self) -> (r: ExitRecord)
        requires
            self.recorded() is Some,
        ensures
            Some(r) == self.recorded(),
    {
        match self.value {
            Some(rec) => rec,
            None => vstd::pervasive::unreached(),
        }
    }

    /// Law: once `record(code, time)` is accepted, the cell holds exactly
    /// that pair, every subsequent read observes it, every further record
    /// attempt is rejected, and no further attempt changes the cell.
    pub proof fn lemma_write_once(self, code: u32, time: u64, code2: u32, time2: u64)
        requires
            self.accepts_record(),
        ensures
            self.record_transition(code, time).recorded() == Some(
                ExitRecord { exit_code: code, completion_time: time },
            ),
            !self.record_transition(code, time).accepts_record(),
            self.record_transition(code, time).record_transition(code2, time2)
                == self.record_transition(code, time),
    {
    }
}

} // verus!
