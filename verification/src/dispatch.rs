//! Workload Dispatcher: composes the detector, the redirector and the
//! resolver to decide and drive the correct execution path. A native
//! classification delegates entirely to the native-process collaborator,
//! whose status is returned unchanged; an embedded classification
//! redirects standard streams, resolves the application, builds the
//! matching trigger executor from a closed table, and drives it to
//! completion. The dispatcher is a state machine: the embedding process
//! performs each requested action and hands the outcome back as an event.

use vstd::prelude::*;

use crate::completion_code;
use crate::detect::ExecutableClassification;
use crate::resolver::{ResolveError, ResolvedAppSource, trigger_type_spec};
use crate::tracker::{ExitRecord, ExitStateTracker};
use crate::EXIT_ABNORMAL;
use crate::EXIT_CLEAN;
use crate::EXIT_STARTUP_FAILURE;

verus! {

/// The closed set of trigger executors the dispatcher can build.
#[derive(Clone, Copy, PartialEq, Eq, Structural, Debug)]
pub enum TriggerKind {
    Http,
    Redis,
    Sqs,
}

/// Why the dispatcher could not select a trigger executor.
#[derive(Clone, Copy, PartialEq, Eq, Structural, Debug)]
pub enum DispatchError {
    /// The application could not be resolved to a single trigger type.
    Resolution { error: ResolveError },
    /// The declared trigger type names no executor in the table.
    UnsupportedTriggerType,
}

/// The executor table: which trigger kind serves a declared trigger type.
pub open spec fn trigger_kind_spec(t: Seq<char>) -> Option<TriggerKind> {
    if t == "http"@ {
        Some(TriggerKind::Http)
    } else if t == "redis"@ {
        Some(TriggerKind::Redis)
    } else if t == "sqs"@ {
        Some(TriggerKind::Sqs)
    } else {
        None
    }
}

/// Looks a declared trigger type up in the executor table.
pub fn trigger_kind_for(t: &str) -> (r: Option<TriggerKind>)
    ensures
        r == trigger_kind_spec(t@),
{
    let owned = t.to_owned();
    if owned == String::from_str("http") {
        Some(TriggerKind::Http)
    } else if owned == String::from_str("redis") {
        Some(TriggerKind::Redis)
    } else if owned == String::from_str("sqs") {
        Some(TriggerKind::Sqs)
    } else {
        None
    }
}

/// The trigger command for a resolved application: its single declared
/// trigger type, provided the executor table knows it.
pub fn trigger_command_for_resolved_app_source(resolved: &ResolvedAppSource) -> (r: Result<
    String,
    DispatchError,
>)
    ensures
        match trigger_type_spec(resolved.declared_trigger_types()) {
            Err(e) => r == Err::<String, DispatchError>(DispatchError::Resolution { error: e }),
            Ok(t) => if trigger_kind_spec(t) is Some {
                r matches Ok(s) && s@ == t
            } else {
                r == Err::<String, DispatchError>(DispatchError::UnsupportedTriggerType)
            },
        },
{
    match resolved.trigger_type() {
        Err(e) => Err(DispatchError::Resolution { error: e }),
        Ok(t) => match trigger_kind_for(t.as_str()) {
            Some(_) => Ok(t),
            None => Err(DispatchError::UnsupportedTriggerType),
        },
    }
}

/// The trigger executor for a resolved application.
pub fn select_trigger(resolved: &ResolvedAppSource) -> (r: Result<TriggerKind, DispatchError>)
    ensures
        match trigger_type_spec(resolved.declared_trigger_types()) {
            Err(e) => r == Err::<TriggerKind, DispatchError>(
                DispatchError::Resolution { error: e },
            ),
            Ok(t) => match trigger_kind_spec(t) {
                Some(k) => r == Ok::<TriggerKind, DispatchError>(k),
                None => r == Err::<TriggerKind, DispatchError>(
                    DispatchError::UnsupportedTriggerType,
                ),
            },
        },
{
    match resolved.trigger_type() {
        Err(e) => Err(DispatchError::Resolution { error: e }),
        Ok(t) => match trigger_kind_for(t.as_str()) {
            Some(k) => Ok(k),
            None => Err(DispatchError::UnsupportedTriggerType),
        },
    }
}

/// The run configuration handed to the HTTP trigger executor: the bound
/// address, with TLS off.
pub struct HttpRunConfig {
    pub address: crate::addr::SocketAddress,
    pub tls_cert: Option<String>,
    pub tls_key: Option<String>,
}

/// The configuration the dispatcher always runs the HTTP executor with:
/// the engine's configured address — which always parses, as
/// `lemma_spin_addr_parses` shows — and no TLS.
pub fn default_http_run_config() -> (r: HttpRunConfig)
    ensures
        r.address.port == 80,
        r.address.ip == (crate::addr::Ipv4Address { a: 0, b: 0, c: 0, d: 0 }),
        r.tls_cert is None,
        r.tls_key is None,
{
    proof {
        crate::addr::lemma_spin_addr_parses();
    }
    match crate::addr::parse_addr(crate::engines::SpinEngine::spin_addr()) {
        Some(address) => HttpRunConfig { address, tls_cert: None, tls_key: None },
        None => vstd::pervasive::unreached(),
    }
}

/// Which of the racing outcomes resolved the run first: the shared
/// shutdown flag set by `kill`, or the workload's own completion.
#[derive(Clone, Copy, PartialEq, Eq, Structural, Debug)]
pub enum CompletionCause {
    RequestedShutdown,
    NaturalCompletion { ok: bool },
}

/// The exit code recorded for a completed run: a requested shutdown and a
/// clean natural return are clean; a natural failure is abnormal.
pub open spec fn completion_code_spec(cause: CompletionCause) -> u32 {
    match cause {
        CompletionCause::RequestedShutdown => EXIT_CLEAN,
        CompletionCause::NaturalCompletion { ok } => if ok {
            EXIT_CLEAN
        } else {
            EXIT_ABNORMAL
        },
    }
}

/// Maps a completion cause to the exit code to record.
pub fn code_for_completion(cause: CompletionCause) -> (code: u32)
    ensures
        code == completion_code_spec(cause),
{
    match cause {
        CompletionCause::RequestedShutdown => EXIT_CLEAN,
        CompletionCause::NaturalCompletion { ok } => completion_code(ok),
    }
}

/// The worker's completion report: turns the winning cause of the run
/// into its exit code, records it in the instance's write-once cell, and
/// marks the instance exited. Exactly the first report is accepted; a
/// late loser changes nothing.
pub fn report_completion(
    controller: &mut crate::lifecycle::LifecycleController,
    cause: CompletionCause,
    time: u64,
) -> (r: Result<u32, crate::tracker::StateViolation>)
    requires
        old(controller).wf(),
    ensures
        final(controller).wf(),
        r is Ok <==> old(controller).tracker().accepts_record(),
        old(controller).tracker().accepts_record() ==> (r matches Ok(code) && code
            == completion_code_spec(cause) && final(controller).state() is Exited
            && final(controller).tracker().recorded() == Some(
            ExitRecord { exit_code: completion_code_spec(cause), completion_time: time },
        )),
        !old(controller).tracker().accepts_record() ==> *final(controller) == *old(controller),
{
    let code = code_for_completion(cause);
    match controller.complete(code, time) {
        Ok(_) => Ok(code),
        Err(v) => Err(v),
    }
}

/// Law: when a requested shutdown races natural completion on one fresh
/// exit cell, whichever cause resolves first is the one recorded: its code
/// — always 0 or 137 — fills the cell, the losing record attempt changes
/// nothing, and every reader of the cell observes that single value.
pub proof fn lemma_race_single_outcome(
    t: ExitStateTracker,
    first: CompletionCause,
    first_time: u64,
    second: CompletionCause,
    second_time: u64,
)
    requires
        t.accepts_record(),
    ensures
        ({
            let t1 = t.record_transition(completion_code_spec(first), first_time);
            let t2 = t1.record_transition(completion_code_spec(second), second_time);
            &&& t1.recorded() == Some(
                ExitRecord {
                    exit_code: completion_code_spec(first),
                    completion_time: first_time,
                },
            )
            &&& !t1.accepts_record()
            &&& t2 == t1
            &&& completion_code_spec(first) == EXIT_CLEAN || completion_code_spec(first)
                == EXIT_ABNORMAL
        }),
{
    t.lemma_write_once(
        completion_code_spec(first),
        first_time,
        completion_code_spec(second),
        second_time,
    );
}

/// Where the locked application is written before the trigger executor is
/// built, and the URL the executor loads it from: the lock file sits
/// under the working directory, and under an absolute working directory
/// the URL is always obtained.
pub fn locked_app_destination(working_dir: &str) -> (r: (String, Option<String>))
    ensures
        r.0@ == crate::text::path_join_spec(working_dir@, "spin.lock"@),
        working_dir@.len() > 0 && working_dir@[0] == '/' ==> r.1 is Some,
        r.1 matches Some(u) ==> u@ == crate::outside::file_url_of(r.0@),
{
    let path = crate::text::path_join(working_dir, "spin.lock");
    proof {
        reveal_strlit("spin.lock");
        if working_dir@.len() > 0 && working_dir@[0] == '/' {
            assert(path@[0] == '/');
            assert(path@.len() > 0);
        }
    }
    let url = crate::outside::file_url_for_path(path.as_str());
    (path, url)
}

/// Where the dispatcher stands.
#[derive(Clone, Copy, PartialEq, Eq, Structural, Debug)]
pub enum DispatchPhase {
    /// Classifying the named executable.
    Detecting,
    /// Overlaying the standard streams.
    Redirecting,
    /// Resolving the application definition.
    Resolving,
    /// Building the selected trigger executor.
    Building { trigger: TriggerKind },
    /// Driving the trigger executor.
    Running,
    /// The native collaborator owns the workload.
    Delegated,
    /// The dispatch is over with this exit code.
    Finished { code: u32 },
}

/// What the embedding process reports back to the dispatcher.
#[derive(Clone, Copy, PartialEq, Eq, Structural, Debug)]
pub enum DispatchEvent {
    /// The detector's verdict.
    Classified { classification: ExecutableClassification },
    /// Whether every requested stream overlay succeeded.
    Redirected { ok: bool },
    /// The trigger executor the resolved application selects, if any.
    Resolved { trigger: Option<TriggerKind> },
    /// Whether the embedded runtime accepted the resolved application.
    Built { ok: bool },
    /// How the run ended: shutdown or natural completion.
    RunEnded { cause: CompletionCause },
    /// The native process's own exit status.
    NativeExited { status: u32 },
}

/// What the dispatcher asks the embedding process to do next.
#[derive(Clone, Copy, PartialEq, Eq, Structural, Debug)]
pub enum DispatchAction {
    /// Overlay the standard streams onto the supplied descriptors.
    RedirectStdio,
    /// Resolve the application from its source.
    ResolveApplication,
    /// Build this trigger executor for the resolved application.
    BuildTrigger { trigger: TriggerKind },
    /// Drive the built executor, racing the shutdown flag.
    RunTrigger,
    /// Hand the workload to the native-process collaborator.
    DelegateNative,
    /// Terminate the current process with this code.
    ExitProcess { code: u32 },
    /// Return the native status to the caller, unmodified.
    ReportNativeStatus { status: u32 },
}

/// Which events can arrive in which phase.
pub open spec fn event_fits(phase: DispatchPhase, event: DispatchEvent) -> bool {
    match phase {
        DispatchPhase::Detecting => event is Classified,
        DispatchPhase::Redirecting => event is Redirected,
        DispatchPhase::Resolving => event is Resolved,
        DispatchPhase::Building { .. } => event is Built,
        DispatchPhase::Running => event is RunEnded,
        DispatchPhase::Delegated => event is NativeExited,
        DispatchPhase::Finished { .. } => false,
    }
}

/// The dispatcher's transition function. A native classification routes
/// to delegation and the status comes back unchanged; every embedded-path
/// failure terminates the process: a redirection failure with the startup
/// code, a resolution or build failure with the abnormal code; a finished
/// run terminates with the code its completion cause dictates.
pub open spec fn step_spec(phase: DispatchPhase, event: DispatchEvent) -> (
    DispatchPhase,
    DispatchAction,
) {
    match (phase, event) {
        (
            DispatchPhase::Detecting,
            DispatchEvent::Classified { classification },
        ) => if classification is Native {
            (DispatchPhase::Delegated, DispatchAction::DelegateNative)
        } else {
            (DispatchPhase::Redirecting, DispatchAction::RedirectStdio)
        },
        (DispatchPhase::Redirecting, DispatchEvent::Redirected { ok }) => if ok {
            (DispatchPhase::Resolving, DispatchAction::ResolveApplication)
        } else {
            (
                DispatchPhase::Finished { code: EXIT_STARTUP_FAILURE },
                DispatchAction::ExitProcess { code: EXIT_STARTUP_FAILURE },
            )
        },
        (DispatchPhase::Resolving, DispatchEvent::Resolved { trigger }) => match trigger {
            Some(k) => (
                DispatchPhase::Building { trigger: k },
                DispatchAction::BuildTrigger { trigger: k },
            ),
            None => (
                DispatchPhase::Finished { code: EXIT_ABNORMAL },
                DispatchAction::ExitProcess { code: EXIT_ABNORMAL },
            ),
        },
        (DispatchPhase::Building { .. }, DispatchEvent::Built { ok }) => if ok {
            (DispatchPhase::Running, DispatchAction::RunTrigger)
        } else {
            (
                DispatchPhase::Finished { code: EXIT_ABNORMAL },
                DispatchAction::ExitProcess { code: EXIT_ABNORMAL },
            )
        },
        (DispatchPhase::Running, DispatchEvent::RunEnded { cause }) => (
            DispatchPhase::Finished { code: completion_code_spec(cause) },
            DispatchAction::ExitProcess { code: completion_code_spec(cause) },
        ),
        (DispatchPhase::Delegated, DispatchEvent::NativeExited { status }) => (
            DispatchPhase::Finished { code: status },
            DispatchAction::ReportNativeStatus { status },
        ),
        _ => (phase, DispatchAction::ExitProcess { code: EXIT_ABNORMAL }),
    }
}

/// Performs one dispatcher transition.
pub fn dispatch_step(phase: DispatchPhase, event: DispatchEvent) -> (r: (
    DispatchPhase,
    DispatchAction,
))
    requires
        event_fits(phase, event),
    ensures
        r == step_spec(phase, event),
{
    match (phase, event) {
        (DispatchPhase::Detecting, DispatchEvent::Classified { classification }) => match
        classification {
            ExecutableClassification::Native => (
                DispatchPhase::Delegated,
                DispatchAction::DelegateNative,
            ),
            ExecutableClassification::EmbeddedRuntime => (
                DispatchPhase::Redirecting,
                DispatchAction::RedirectStdio,
            ),
        },
        (DispatchPhase::Redirecting, DispatchEvent::Redirected { ok }) => {
            if ok {
                (DispatchPhase::Resolving, DispatchAction::ResolveApplication)
            } else {
                (
                    DispatchPhase::Finished { code: EXIT_STARTUP_FAILURE },
                    DispatchAction::ExitProcess { code: EXIT_STARTUP_FAILURE },
                )
            }
        },
        (DispatchPhase::Resolving, DispatchEvent::Resolved { trigger }) => match trigger {
            Some(k) => (
                DispatchPhase::Building { trigger: k },
                DispatchAction::BuildTrigger { trigger: k },
            ),
            None => (
                DispatchPhase::Finished { code: EXIT_ABNORMAL },
                DispatchAction::ExitProcess { code: EXIT_ABNORMAL },
            ),
        },
        (DispatchPhase::Building { .. }, DispatchEvent::Built { ok }) => {
            if ok {
                (DispatchPhase::Running, DispatchAction::RunTrigger)
            } else {
                (
                    DispatchPhase::Finished { code: EXIT_ABNORMAL },
                    DispatchAction::ExitProcess { code: EXIT_ABNORMAL },
                )
            }
        },
        (DispatchPhase::Running, DispatchEvent::RunEnded { cause }) => {
            let code = code_for_completion(cause);
            (
                DispatchPhase::Finished { code },
                DispatchAction::ExitProcess { code },
            )
        },
        (DispatchPhase::Delegated, DispatchEvent::NativeExited { status }) => (
            DispatchPhase::Finished { code: status },
            DispatchAction::ReportNativeStatus { status },
        ),
        _ => vstd::pervasive::unreached(),
    }
}

/// Law: the native path never touches the embedded runtime, and it hands
/// the native status through unchanged: a native classification leads only
/// to delegation, and delegation finishes with exactly the status the
/// native process reported.
pub proof fn lemma_native_path_unmodified(status: u32)
    ensures
        step_spec(
            DispatchPhase::Detecting,
            DispatchEvent::Classified {
                classification: ExecutableClassification::Native,
            },
        ) == (DispatchPhase::Delegated, DispatchAction::DelegateNative),
        step_spec(DispatchPhase::Delegated, DispatchEvent::NativeExited { status }) == (
            DispatchPhase::Finished { code: status },
            DispatchAction::ReportNativeStatus { status },
        ),
{
}

/// Law: every process termination the dispatcher commands uses one of
/// the documented codes: clean for a requested shutdown or a clean
/// return, abnormal for an embedded-workload failure, and the startup
/// code for a failure before the workload began running.
pub proof fn lemma_exit_codes_documented(phase: DispatchPhase, event: DispatchEvent)
    requires
        event_fits(phase, event),
    ensures
        step_spec(phase, event).1 matches DispatchAction::ExitProcess { code } ==> (code
            == EXIT_CLEAN || code == EXIT_ABNORMAL || code == EXIT_STARTUP_FAILURE),
{
}

/// Law: every embedded-path transition out of a non-final phase either
/// advances towards `Running` or finishes the dispatch; a fitting event
/// never leaves the machine where it was, so a single join point that
/// feeds events forward makes progress.
pub proof fn lemma_dispatch_progress(phase: DispatchPhase, event: DispatchEvent)
    requires
        event_fits(phase, event),
    ensures
        step_spec(phase, event).0 != phase,
{
}

} // verus!
