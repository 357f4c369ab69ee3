use sidecar_supervisor::commands::{
    clipboard_outcome, copy_logs_to_clipboard, get_logs, kill_sidecar, CommandError, KillOutcome,
    LogAccess, ServerState,
};
use sidecar_supervisor::logs::{LogCollector, LogEntry, LogStream};

fn collector(lines: &[(LogStream, &str)]) -> LogCollector {
    let mut c = LogCollector::new();
    for (stream, text) in lines {
        c.append(LogEntry::new(*stream, text.to_string()));
    }
    c
}

#[test]
fn kill_takes_the_child_out() {
    let mut state = ServerState::new(Some(42u32));
    assert!(state.is_running());
    let outcome = kill_sidecar(Some(&mut state));
    assert!(matches!(outcome, KillOutcome::Killed(42)));
    assert_eq!(outcome.diagnostic(), "Killed server");
    assert!(!state.is_running());
}

#[test]
fn kill_twice_is_harmless() {
    let mut state = ServerState::new(Some("child".to_string()));
    assert!(matches!(kill_sidecar(Some(&mut state)), KillOutcome::Killed(_)));
    let second = kill_sidecar(Some(&mut state));
    assert!(matches!(second, KillOutcome::StateMissing));
    assert_eq!(second.diagnostic(), "Server state missing");
    assert!(!state.is_running());
    assert!(matches!(kill_sidecar(Some(&mut state)), KillOutcome::StateMissing));
}

#[test]
fn kill_without_child_reports_the_missing_state() {
    let mut state = ServerState::<u8>::new(None);
    assert!(!state.is_running());
    assert!(matches!(kill_sidecar(Some(&mut state)), KillOutcome::StateMissing));
    assert!(!state.is_running());
}

#[test]
fn kill_without_state_reports_that_nothing_runs() {
    let outcome = kill_sidecar::<u8>(None);
    assert!(matches!(outcome, KillOutcome::NotRunning));
    assert_eq!(outcome.diagnostic(), "Server not running");
}

#[test]
fn take_empties_the_state() {
    let mut state = ServerState::new(Some(7u8));
    assert_eq!(state.take(), Some(7));
    assert_eq!(state.take(), None);
}

#[test]
fn get_logs_returns_the_snapshot() {
    let c = collector(&[(LogStream::Stdout, "a\n"), (LogStream::Stderr, "b\n")]);
    assert_eq!(get_logs(LogAccess::Held(&c)).unwrap(), "[STDOUT] a\n[STDERR] b\n");
    assert_eq!(get_logs(LogAccess::Held(&LogCollector::new())).unwrap(), "");
}

#[test]
fn get_logs_fails_without_state() {
    let error = get_logs(LogAccess::Unavailable).unwrap_err();
    assert!(matches!(error, CommandError::StateUnavailable));
    assert_eq!(error.message(), "Log state not found");
}

#[test]
fn get_logs_fails_without_lock() {
    let error = get_logs(LogAccess::Poisoned).unwrap_err();
    assert!(matches!(error, CommandError::LockFailed));
    assert_eq!(error.message(), "Failed to acquire log lock");
}

#[test]
fn the_clipboard_outcome_carries_the_reason() {
    assert!(clipboard_outcome(Ok(())).is_ok());
    let error = clipboard_outcome(Err("denied".to_string())).unwrap_err();
    assert!(matches!(&error, CommandError::ClipboardRejected(reason) if reason == "denied"));
    assert_eq!(error.message(), "Failed to copy to clipboard: denied");
}

#[test]
fn copy_hands_the_snapshot_to_the_clipboard() {
    let c = collector(&[(LogStream::Stdout, "a\n"), (LogStream::Stdout, "b\n")]);
    let mut seen: Option<String> = None;
    let result = copy_logs_to_clipboard(LogAccess::Held(&c), |text| {
        seen = Some(text);
        Ok(())
    });
    assert!(result.is_ok());
    assert_eq!(seen, Some("[STDOUT] a\n[STDOUT] b\n".to_string()));
}

#[test]
fn copy_reports_a_refusing_clipboard() {
    let c = collector(&[(LogStream::Stderr, "x")]);
    let result = copy_logs_to_clipboard(LogAccess::Held(&c), |_| Err("no display".to_string()));
    let error = result.unwrap_err();
    assert!(matches!(&error, CommandError::ClipboardRejected(reason) if reason == "no display"));
    assert_eq!(error.message(), "Failed to copy to clipboard: no display");
}

#[test]
fn copy_without_state_never_touches_the_clipboard() {
    let mut called = false;
    let result = copy_logs_to_clipboard(LogAccess::Unavailable, |_| {
        called = true;
        Ok(())
    });
    assert!(matches!(result, Err(CommandError::StateUnavailable)));
    assert!(!called);
}

#[test]
fn copy_without_lock_never_touches_the_clipboard() {
    let mut called = false;
    let result = copy_logs_to_clipboard(LogAccess::Poisoned, |_| {
        called = true;
        Ok(())
    });
    assert!(matches!(result, Err(CommandError::LockFailed)));
    assert!(!called);
}
