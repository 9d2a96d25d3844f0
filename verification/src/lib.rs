//! Workload dispatch and instance lifecycle for a container shim that can
//! run a launch request either as a conventional native process or under
//! an embedded language runtime. The library classifies executable
//! content from raw bytes and permission bits, plans the redirection of
//! the standard streams, resolves an application definition from a local
//! manifest or from tagged content layers down to its single trigger,
//! tracks the final exit status in a write-once cell, and drives the
//! whole dispatch as a state machine whose every transition is specified.
//! The embedding process performs the filesystem, network and thread work
//! the dispatcher asks for and feeds the outcomes back as events.

pub mod addr;
pub mod detect;
pub mod dispatch;
pub mod engines;
pub mod handlers;
pub mod lifecycle;
pub mod outside;
pub mod resolver;
pub mod stdio;
pub mod text;
pub mod tracker;

use vstd::prelude::*;

verus! {

/// Exit code for a workload that ends cleanly or after a requested shutdown.
pub const EXIT_CLEAN: u32 = 0;

/// Exit code for an embedded workload that terminates abnormally.
pub const EXIT_ABNORMAL: u32 = 137;

/// Exit code for a failure during setup, before the workload began running.
pub const EXIT_STARTUP_FAILURE: u32 = 139;

/// Maps the outcome of a completed embedded workload to the process exit
/// code: a clean return terminates the process with `EXIT_CLEAN`, a failed
/// run with `EXIT_ABNORMAL`.
pub fn completion_code(run_ok: bool) -> (code: u32)
    ensures
        run_ok ==> code == EXIT_CLEAN,
        !run_ok ==> code == EXIT_ABNORMAL,
{
    if run_ok {
        EXIT_CLEAN
    } else {
        EXIT_ABNORMAL
    }
}

} // verus!
