use shim_core::addr::parse_addr;
use shim_core::detect::{classify_executable, ExecutableClassification, FileProbe};
use shim_core::dispatch::{
    code_for_completion, dispatch_step, locked_app_destination, report_completion,
    select_trigger, trigger_command_for_resolved_app_source, trigger_kind_for, CompletionCause,
    DispatchAction, DispatchError, DispatchEvent, DispatchPhase, TriggerKind,
};
use shim_core::lifecycle::{InstanceState, LifecycleController};
use shim_core::engines::SpinEngine;
use shim_core::resolver::{parse_manifest, ResolveError, ResolvedAppSource};
use shim_core::tracker::{ExitRecord, ExitStateTracker};

#[test]
fn trigger_table_is_closed() {
    assert_eq!(trigger_kind_for("http"), Some(TriggerKind::Http));
    assert_eq!(trigger_kind_for("redis"), Some(TriggerKind::Redis));
    assert_eq!(trigger_kind_for("sqs"), Some(TriggerKind::Sqs));
    assert_eq!(trigger_kind_for("timer"), None);
    assert_eq!(trigger_kind_for(""), None);
}

#[test]
fn trigger_command_names_the_selected_type() {
    let m = parse_manifest("[[trigger.redis]]\n").unwrap();
    let resolved = ResolvedAppSource::File {
        manifest_path: "/spin.toml".to_string(),
        manifest: m,
    };
    assert_eq!(
        trigger_command_for_resolved_app_source(&resolved),
        Ok("redis".to_string())
    );
    let m = parse_manifest("[[trigger.timer]]\n").unwrap();
    let resolved = ResolvedAppSource::File {
        manifest_path: "/spin.toml".to_string(),
        manifest: m,
    };
    assert_eq!(
        trigger_command_for_resolved_app_source(&resolved),
        Err(DispatchError::UnsupportedTriggerType)
    );
    let m = parse_manifest("x = 1\n").unwrap();
    let resolved = ResolvedAppSource::File {
        manifest_path: "/spin.toml".to_string(),
        manifest: m,
    };
    assert_eq!(
        trigger_command_for_resolved_app_source(&resolved),
        Err(DispatchError::Resolution { error: ResolveError::NoTriggerDeclared })
    );
}

/// Scenario: a local manifest declares one HTTP-style trigger; the
/// dispatcher resolves it and asks for an HTTP listener on the configured
/// port.
#[test]
fn http_manifest_drives_a_listener_on_the_configured_port() {
    let m = parse_manifest("[[trigger.http]]\nroute = \"/hello\"\n").unwrap();
    let resolved = ResolvedAppSource::File {
        manifest_path: "/spin.toml".to_string(),
        manifest: m,
    };
    let kind = select_trigger(&resolved).unwrap();
    assert_eq!(kind, TriggerKind::Http);

    let (phase, action) = dispatch_step(
        DispatchPhase::Detecting,
        DispatchEvent::Classified { classification: ExecutableClassification::EmbeddedRuntime },
    );
    assert_eq!(action, DispatchAction::RedirectStdio);
    let (phase, action) = dispatch_step(phase, DispatchEvent::Redirected { ok: true });
    assert_eq!(action, DispatchAction::ResolveApplication);
    let (phase, action) = dispatch_step(phase, DispatchEvent::Resolved { trigger: Some(kind) });
    assert_eq!(action, DispatchAction::BuildTrigger { trigger: TriggerKind::Http });
    let (_, action) = dispatch_step(phase, DispatchEvent::Built { ok: true });
    assert_eq!(action, DispatchAction::RunTrigger);

    // The listener binds the engine's configured address.
    let bound = parse_addr(SpinEngine::spin_addr()).unwrap();
    assert_eq!(bound.port(), 80);
    let config = shim_core::dispatch::default_http_run_config();
    assert_eq!(config.address, bound);
    assert_eq!(config.tls_cert, None);
    assert_eq!(config.tls_key, None);
}

/// Scenario: the first argument names a valid, executable ELF file; the
/// dispatcher delegates to native execution and reports the native status
/// unmodified.
#[test]
fn native_elf_delegates_and_status_is_unmodified() {
    let probe = FileProbe {
        is_regular_file: true,
        mode: 0o755,
        header: vec![0x7f, 0x45, 0x4c, 0x46],
    };
    let classification = classify_executable(&Some(probe));
    assert_eq!(classification, ExecutableClassification::Native);

    let (phase, action) = dispatch_step(
        DispatchPhase::Detecting,
        DispatchEvent::Classified { classification },
    );
    assert_eq!(action, DispatchAction::DelegateNative);
    let (phase, action) = dispatch_step(phase, DispatchEvent::NativeExited { status: 17 });
    assert_eq!(action, DispatchAction::ReportNativeStatus { status: 17 });
    assert_eq!(phase, DispatchPhase::Finished { code: 17 });
}

/// Scenario: a kill races natural workload completion; exactly one of
/// {0, 137} is recorded, and every wait observes the same value.
#[test]
fn kill_racing_completion_records_exactly_one_code() {
    // The shutdown request resolves first.
    let mut t = ExitStateTracker::new();
    let first = code_for_completion(CompletionCause::RequestedShutdown);
    let second = code_for_completion(CompletionCause::NaturalCompletion { ok: false });
    assert!(t.record(first, 1).is_ok());
    assert!(t.record(second, 2).is_err());
    let seen = t.await_value();
    assert_eq!(seen, ExitRecord { exit_code: 0, completion_time: 1 });
    assert_eq!(t.await_value(), seen);
    assert!(seen.exit_code == 0 || seen.exit_code == 137);

    // Natural failure resolves first.
    let mut t = ExitStateTracker::new();
    assert!(t.record(second, 3).is_ok());
    assert!(t.record(first, 4).is_err());
    let seen = t.await_value();
    assert_eq!(seen, ExitRecord { exit_code: 137, completion_time: 3 });
    assert_eq!(t.await_value(), seen);
    assert!(seen.exit_code == 0 || seen.exit_code == 137);
}

#[test]
fn completion_report_records_the_winning_cause_once() {
    let mut c = LifecycleController::new();
    c.start().unwrap();
    c.mark_running().unwrap();
    let code = report_completion(&mut c, CompletionCause::RequestedShutdown, 11).unwrap();
    assert_eq!(code, 0);
    assert_eq!(c.current_state(), InstanceState::Exited);
    assert_eq!(c.wait(), Some(ExitRecord { exit_code: 0, completion_time: 11 }));
    // The losing report changes nothing.
    assert!(report_completion(&mut c, CompletionCause::NaturalCompletion { ok: false }, 12)
        .is_err());
    assert_eq!(c.wait(), Some(ExitRecord { exit_code: 0, completion_time: 11 }));
}

#[test]
fn embedded_failures_terminate_with_the_documented_codes() {
    // Redirection failure: startup failure, before the workload began.
    let (_, action) = dispatch_step(
        DispatchPhase::Redirecting,
        DispatchEvent::Redirected { ok: false },
    );
    assert_eq!(action, DispatchAction::ExitProcess { code: 139 });
    // Resolution failure.
    let (_, action) = dispatch_step(
        DispatchPhase::Resolving,
        DispatchEvent::Resolved { trigger: None },
    );
    assert_eq!(action, DispatchAction::ExitProcess { code: 137 });
    // Trigger build failure.
    let (_, action) = dispatch_step(
        DispatchPhase::Building { trigger: TriggerKind::Http },
        DispatchEvent::Built { ok: false },
    );
    assert_eq!(action, DispatchAction::ExitProcess { code: 137 });
    // A clean run and a requested shutdown terminate with 0.
    let (_, action) = dispatch_step(
        DispatchPhase::Running,
        DispatchEvent::RunEnded { cause: CompletionCause::NaturalCompletion { ok: true } },
    );
    assert_eq!(action, DispatchAction::ExitProcess { code: 0 });
    let (_, action) = dispatch_step(
        DispatchPhase::Running,
        DispatchEvent::RunEnded { cause: CompletionCause::RequestedShutdown },
    );
    assert_eq!(action, DispatchAction::ExitProcess { code: 0 });
    // A failed run terminates with 137.
    let (_, action) = dispatch_step(
        DispatchPhase::Running,
        DispatchEvent::RunEnded { cause: CompletionCause::NaturalCompletion { ok: false } },
    );
    assert_eq!(action, DispatchAction::ExitProcess { code: 137 });
}

#[test]
fn locked_app_lands_under_the_working_directory() {
    let (path, url) = locked_app_destination("/");
    assert_eq!(path, "//spin.lock");
    assert_eq!(url, Some("file:///spin.lock".to_string()));
    let (path, url) = locked_app_destination("/work");
    assert_eq!(path, "/work/spin.lock");
    assert_eq!(url, Some("file:///work/spin.lock".to_string()));
    // A relative working directory yields no file URL.
    let (_, url) = locked_app_destination("work");
    assert_eq!(url, None);
}
