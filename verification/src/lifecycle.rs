//! Lifecycle Controller: start, kill, wait and delete for one instance.
//! The controller owns the instance's state machine and its Exit State
//! Tracker; the dedicated worker that actually executes the workload, and
//! the channel that forwards the eventual value to a waiter, live in the
//! embedding process and drive this controller through its methods.

use vstd::prelude::*;

use crate::tracker::{ExitRecord, ExitStateTracker, StateViolation};

verus! {

/// Signal number for terminate-immediately.
pub const SIG_TERMINATE_IMMEDIATELY: u32 = 9;

/// Signal number for interrupt.
pub const SIG_INTERRUPT: u32 = 2;

/// The lifecycle of one instance.
#[derive(Clone, Copy, PartialEq, Eq, Structural, Debug)]
pub enum InstanceState {
    Created,
    Starting,
    Running,
    Exited,
}

/// Why a lifecycle operation was refused.
#[derive(Clone, Copy, PartialEq, Eq, Structural, Debug)]
pub enum LifecycleError {
    /// `kill` was handed a signal outside the minimal supported set.
    UnsupportedSignal,
    /// The operation is not valid in the instance's current state.
    InvalidState,
}

/// The minimal fixed signal set that `kill` accepts.
pub open spec fn supported_signal(signal: u32) -> bool {
    signal == SIG_TERMINATE_IMMEDIATELY || signal == SIG_INTERRUPT
}

/// One instance: its state, its shutdown flag, and its write-once exit
/// cell.
pub struct LifecycleController {
    state: InstanceState,
    shutdown_requested: bool,
    tracker: ExitStateTracker,
}

impl LifecycleController {
    pub closed spec fn state(&self) -> InstanceState {
        self.state
    }

    pub closed spec fn shutdown_requested(&self) -> bool {
        self.shutdown_requested
    }

    pub closed spec fn tracker(&self) -> ExitStateTracker {
        self.tracker
    }

    /// A value is recorded exactly for an exited instance.
    pub open spec fn wf(&self) -> bool {
        self.tracker().recorded() is Some <==> self.state() is Exited
    }

    /// A fresh instance: created, no shutdown requested, no exit recorded.
    pub fn new() -> (c: Self)
        ensures
            c.wf(),
            c.state() is Created,
            !c.shutdown_requested(),
            c.tracker().recorded() is None,
    {
        LifecycleController {
            state: InstanceState::Created,
            shutdown_requested: false,
            tracker: ExitStateTracker::new(),
        }
    }

    /// Accepts the start request: only a created instance can start, and it
    /// moves to `Starting`. Spawning the single dedicated worker is the
    /// embedding process's side of this step.
    pub fn start(&mut self) -> (r: Result<(), LifecycleError>)
        requires
            old(self).wf(),
        ensures
            final(self).wf(),
            old(self).state() is Created ==> r is Ok && final(self).state() is Starting
                && final(self).shutdown_requested() == old(self).shutdown_requested()
                && final(self).tracker() == old(self).tracker(),
            !(old(self).state() is Created) ==> r == Err::<(), LifecycleError>(
                LifecycleError::InvalidState,
            ) && *final(self) == *old(self),
    {
        match self.state {
            InstanceState::Created => {
                self.state = InstanceState::Starting;
                Ok(())
            },
            _ => Err(LifecycleError::InvalidState),
        }
    }

    /// The worker reports that the workload is underway.
    pub fn mark_running(&mut self) -> (r: Result<(), LifecycleError>)
        requires
            old(self).wf(),
        ensures
            final(self).wf(),
            old(self).state() is Starting ==> r is Ok && final(self).state() is Running
                && final(self).shutdown_requested() == old(self).shutdown_requested()
                && final(self).tracker() == old(self).tracker(),
            !(old(self).state() is Starting) ==> r == Err::<(), LifecycleError>(
                LifecycleError::InvalidState,
            ) && *final(self) == *old(self),
    {
        match self.state {
            InstanceState::Starting => {
                self.state = InstanceState::Running;
                Ok(())
            },
            _ => Err(LifecycleError::InvalidState),
        }
    }

    /// Requests shutdown. Only terminate-immediately and interrupt are
    /// accepted; any other signal is refused and leaves the instance —
    /// including the shutdown flag — exactly as it was. An accepted signal
    /// sets the shutdown flag on an instance that has not exited and is a
    /// no-op on one that has.
    pub fn kill(&mut self, signal: u32) -> (r: Result<(), LifecycleError>)
        requires
            old(self).wf(),
        ensures
            final(self).wf(),
            !supported_signal(signal) ==> r == Err::<(), LifecycleError>(
                LifecycleError::UnsupportedSignal,
            ) && *final(self) == *old(self),
            supported_signal(signal) && old(self).state() is Exited ==> r is Ok && *final(self)
                == *old(self),
            supported_signal(signal) && !(old(self).state() is Exited) ==> r is Ok
                && final(self).shutdown_requested()
                && final(self).state() == old(self).state()
                && final(self).tracker() == old(self).tracker(),
    {
        if signal != SIG_TERMINATE_IMMEDIATELY && signal != SIG_INTERRUPT {
            return Err(LifecycleError::UnsupportedSignal);
        }
        match self.state {
            InstanceState::Exited => Ok(()),
            _ => {
                self.shutdown_requested = true;
                Ok(())
            },
        }
    }

    /// Whether a shutdown has been requested; the worker polls this flag
    /// while it races natural completion.
    pub fn is_shutdown_requested(&self) -> (r: bool)
        ensures
            r == self.shutdown_requested(),
    {
        self.shutdown_requested
    }

    /// The instance's current state.
    pub fn current_state(&self) -> (r: InstanceState)
        ensures
            r == self.state(),
    {
        self.state
    }

    /// The worker reports completion: records the final status in the
    /// write-once cell and moves the instance to `Exited`. Exactly the
    /// first report is accepted; a second is a `StateViolation` and
    /// changes nothing.
    pub fn complete(&mut self, code: u32, time: u64) -> (r: Result<(), StateViolation>)
        requires
            old(self).wf(),
        ensures
            final(self).wf(),
            r is Ok <==> old(self).tracker().accepts_record(),
            old(self).tracker().accepts_record() ==> final(self).state() is Exited
                && final(self).tracker().recorded() == Some(
                ExitRecord { exit_code: code, completion_time: time },
            ) && final(self).shutdown_requested() == old(self).shutdown_requested(),
            !old(self).tracker().accepts_record() ==> r == Err::<(), StateViolation>(
                StateViolation,
            ) && *final(self) == *old(self),
    {
        match self.tracker.record(code, time) {
            Ok(_) => {
                self.state = InstanceState::Exited;
                Ok(())
            },
            Err(v) => Err(v),
        }
    }

    /// Reads the recorded final status, if any; forwarding it through a
    /// waiter's channel is the embedding process's side of `wait`.
    pub fn wait(&self) -> (r: Option<ExitRecord>)
        ensures
            r == self.tracker().recorded(),
    {
        self.tracker.try_value()
    }

    /// Deletes the instance. Valid from `Created` or `Exited`, idempotent,
    /// and never an error merely because there is nothing left to remove;
    /// refused while the instance is starting or running.
    pub fn delete(&mut self) -> (r: Result<(), LifecycleError>)
        requires
            old(self).wf(),
        ensures
            final(self).wf(),
            *final(self) == *old(self),
            (old(self).state() is Created || old(self).state() is Exited) <==> r is Ok,
            !(old(self).state() is Created || old(self).state() is Exited) ==> r == Err::<
                (),
                LifecycleError,
            >(LifecycleError::InvalidState),
    {
        match self.state {
            InstanceState::Created => Ok(()),
            InstanceState::Exited => Ok(()),
            _ => Err(LifecycleError::InvalidState),
        }
    }
}

} // verus!
