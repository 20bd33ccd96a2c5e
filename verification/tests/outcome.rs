use vidcut::error::OperationError;
use vidcut::outcome::{aggregate, record_event, EventRecord, OperationOutcome, Severity};
use vidcut::text::{copy_list, join};

fn line(severity: Severity, text: &str) -> EventRecord {
    EventRecord::LogLine { severity, text: text.to_string() }
}

fn progress(elapsed: &str) -> EventRecord {
    EventRecord::ProgressUpdate { elapsed: elapsed.to_string() }
}

#[test]
fn no_events_is_success() {
    let outcome = aggregate(&vec![]);
    assert_eq!(outcome, OperationOutcome::Success);
    assert_eq!(outcome.display(), "");
    assert_eq!(outcome.messages(), Vec::<String>::new());
    assert_eq!(outcome.into_result(), Ok(()));
}

#[test]
fn harmless_events_are_success() {
    let events = vec![
        line(Severity::Info, "a"),
        progress("00:00:01.00"),
        line(Severity::Warning, "deprecated pixel format"),
        line(Severity::Unknown, "???"),
        progress("00:00:02.00"),
    ];
    assert_eq!(aggregate(&events), OperationOutcome::Success);
}

#[test]
fn errors_and_fatals_are_kept_in_order() {
    let events = vec![
        line(Severity::Info, "a"),
        line(Severity::Error, "bad seek"),
        line(Severity::Warning, "b"),
        line(Severity::Fatal, "crash"),
    ];
    let outcome = aggregate(&events);
    assert_eq!(
        outcome,
        OperationOutcome::Failure { messages: vec!["bad seek".to_string(), "crash".to_string()] }
    );
    assert_eq!(outcome.display(), "bad seek; crash");
    assert_eq!(outcome.messages(), vec!["bad seek", "crash"]);
    let error = outcome.into_result().unwrap_err();
    assert_eq!(
        error,
        OperationError::ToolDiagnostics(vec!["bad seek".to_string(), "crash".to_string()])
    );
    assert_eq!(error.message(), "bad seek; crash");
}

#[test]
fn one_fatal_line_fails_the_run() {
    let outcome = aggregate(&vec![progress("1"), line(Severity::Fatal, "out of memory")]);
    assert_eq!(outcome.display(), "out of memory");
    assert!(matches!(outcome, OperationOutcome::Failure { .. }));
}

#[test]
fn repeated_and_empty_lines_are_all_kept() {
    let events = vec![
        line(Severity::Error, "x"),
        line(Severity::Error, ""),
        line(Severity::Error, "x"),
    ];
    let outcome = aggregate(&events);
    assert_eq!(outcome.messages(), vec!["x", "", "x"]);
    assert_eq!(outcome.display(), "x; ; x");
}

#[test]
fn severity_decides_what_counts() {
    assert!(line(Severity::Error, "e").counts_as_failure());
    assert!(line(Severity::Fatal, "f").counts_as_failure());
    assert!(!line(Severity::Warning, "w").counts_as_failure());
    assert!(!line(Severity::Info, "i").counts_as_failure());
    assert!(!line(Severity::Unknown, "u").counts_as_failure());
    assert!(!progress("error").counts_as_failure());
}

#[test]
fn record_event_appends_only_diagnostics() {
    let mut collected = vec!["first".to_string()];
    record_event(&mut collected, &line(Severity::Info, "skip"));
    record_event(&mut collected, &progress("skip"));
    assert_eq!(collected, vec!["first"]);
    record_event(&mut collected, &line(Severity::Error, "second"));
    assert_eq!(collected, vec!["first", "second"]);
}

#[test]
fn from_diagnostics_is_success_only_when_empty() {
    assert_eq!(OperationOutcome::from_diagnostics(vec![]), OperationOutcome::Success);
    assert_eq!(
        OperationOutcome::from_diagnostics(vec!["m".to_string()]),
        OperationOutcome::Failure { messages: vec!["m".to_string()] }
    );
}

#[test]
fn join_puts_the_separator_between_neighbours() {
    assert_eq!(join(&vec![], "; "), "");
    assert_eq!(join(&vec!["a".to_string()], "; "), "a");
    assert_eq!(join(&vec!["a".to_string(), "b".to_string(), "c".to_string()], "; "), "a; b; c");
    assert_eq!(join(&vec!["a".to_string(), "b".to_string()], ""), "ab");
    let list = vec!["p".to_string(), "q".to_string()];
    assert_eq!(copy_list(&list), list);
}

#[test]
fn each_error_has_its_message() {
    assert_eq!(OperationError::SourceNotFound.message(), "Source video does not exist");
    assert_eq!(OperationError::SpawnError("no such file".to_string()).message(), "no such file");
    assert_eq!(OperationError::StreamError("No stderr channel".to_string()).message(), "No stderr channel");
    assert_eq!(OperationError::InstallError("offline".to_string()).message(), "offline");
    assert_eq!(OperationError::ToolDiagnostics(vec![]).message(), "");
    assert_eq!(
        OperationError::ToolDiagnostics(vec!["a".to_string(), "b".to_string()]).message(),
        "a; b"
    );
}
