use std::time::Duration;

use ansorum::cli::FailOn;
use ansorum::diagnostics::{CommandFailure, Diagnostic, DiagnosticSeverity};
use ansorum::report::{
    duration_to_millis, enforce_fail_on, CommandArtifacts, CommandReport, CommandSuccess,
    ReportOutcome, ReportStreamContext, SiteContentSummary, DIAGNOSTICS_SCHEMA_VERSION,
};

fn success_with(diagnostics: Vec<Diagnostic>) -> CommandSuccess {
    CommandSuccess {
        stage: "completed",
        diagnostics,
        artifacts: Default::default(),
        report: None,
    }
}

#[test]
fn failure_report_counts_error_diagnostics() {
    let failure = CommandFailure::new(
        Diagnostic::error("config_not_found", "config.toml not found").with_phase("preflight"),
    );
    let report = CommandReport::failure("build", None, None, Duration::ZERO, failure);

    assert_eq!(report.summary.errors, 1);
    assert_eq!(report.summary.warnings, 0);
    assert_eq!(report.stage, "preflight");
}

#[test]
fn success_report_counts_warning_diagnostics() {
    let success = success_with(vec![Diagnostic::warn("ignored_page", "page ignored")]);
    let report = CommandReport::success(
        "check",
        "/tmp/site",
        "/tmp/site/config.toml",
        Duration::ZERO,
        success,
    );

    assert_eq!(report.summary.errors, 0);
    assert_eq!(report.summary.warnings, 1);
    assert_eq!(report.diagnostics[0].severity, DiagnosticSeverity::Warn);
}

#[test]
fn enforce_fail_on_warn_promotes_warnings_to_error() {
    let mut success =
        success_with(vec![Diagnostic::warn("orphan_page", "Page is not linked from any section")]);

    let threshold_exceeded = enforce_fail_on(&mut success, FailOn::Warn);

    assert!(threshold_exceeded);
    assert_eq!(success.diagnostics.len(), 2);
    assert_eq!(success.diagnostics[1].code, "warn_threshold_exceeded");
    assert_eq!(success.diagnostics[1].severity, DiagnosticSeverity::Error);
}

#[test]
fn enforce_fail_on_error_does_not_promote_warnings() {
    let mut success =
        success_with(vec![Diagnostic::warn("orphan_page", "Page is not linked from any section")]);

    let threshold_exceeded = enforce_fail_on(&mut success, FailOn::Error);

    assert!(!threshold_exceeded);
    assert_eq!(success.diagnostics.len(), 1);
    assert_eq!(success.diagnostics[0].severity, DiagnosticSeverity::Warn);
}

#[test]
fn promoted_diagnostic_carries_stage_and_suggestion() {
    let mut success = success_with(vec![Diagnostic::warn("w", "warned")]);
    assert!(enforce_fail_on(&mut success, FailOn::Warn));
    let d = &success.diagnostics[1];
    assert_eq!(d.phase.as_deref(), Some("completed"));
    assert_eq!(
        d.suggestion.as_deref(),
        Some("Resolve warning diagnostics or re-run with `--fail-on error`")
    );
    let mut clean = success_with(Vec::new());
    assert!(!enforce_fail_on(&mut clean, FailOn::Warn));
    assert!(clean.diagnostics.is_empty());
}

#[test]
fn completed_report_keeps_the_run() {
    let mut success = success_with(vec![Diagnostic::info("i", "noted")]);
    success.artifacts = CommandArtifacts {
        output_dir: Some("/tmp/out".to_string()),
        content: Some(SiteContentSummary { pages: 3, orphan_pages: 1, sections: 2, answer_records: 2 }),
    };
    let report = CommandReport::completed_at(
        "build",
        ReportOutcome::Failed,
        "/r",
        "/r/config.toml",
        1500,
        "2026-01-01T00:00:00.000Z".to_string(),
        success,
    );
    assert_eq!(report.schema_version, DIAGNOSTICS_SCHEMA_VERSION);
    assert_eq!(report.product, "ansorum");
    assert_eq!(report.outcome, ReportOutcome::Failed);
    assert_eq!(report.duration_ms, 1500);
    assert_eq!(report.summary.infos, 1);
    assert_eq!(report.root_dir.as_deref(), Some("/r"));
    assert_eq!(report.emitted_at, "2026-01-01T00:00:00.000Z");
    assert_eq!(report.artifacts.as_ref().unwrap().output_dir.as_deref(), Some("/tmp/out"));
    assert_eq!(report.outcome.label(), "failed");
}

#[test]
fn failure_stage_defaults_to_failed() {
    let failure = CommandFailure::new(Diagnostic::error("x", "broke"));
    let report =
        CommandReport::failure_at("eval", Some("/r"), None, 7, "t".to_string(), failure);
    assert_eq!(report.stage, "failed");
    assert_eq!(report.config_file, None);
    assert!(report.artifacts.is_none());
}

#[test]
fn stream_events_are_numbered() {
    let mut stream = ReportStreamContext::with_origin("audit", 42, 1700000000000);
    let failure = CommandFailure::new(Diagnostic::error("x", "broke"));
    let mut report = CommandReport::failure("audit", None, None, Duration::ZERO, failure);
    report.attach_stream_event(&mut stream);
    assert_eq!(report.stream_id.as_deref(), Some("audit-42-1700000000000"));
    assert_eq!(report.sequence, Some(1));
    assert_eq!(report.event_id.as_deref(), Some("audit-42-1700000000000:1"));
    report.attach_stream_event(&mut stream);
    assert_eq!(report.sequence, Some(2));
    assert_eq!(report.event_id.as_deref(), Some("audit-42-1700000000000:2"));
    let negative = ReportStreamContext::with_origin("eval", 1, -5);
    let mut again = CommandReport::failure(
        "eval",
        None,
        None,
        Duration::ZERO,
        CommandFailure::new(Diagnostic::error("x", "y")),
    );
    let mut negative = negative;
    again.attach_stream_event(&mut negative);
    assert_eq!(again.stream_id.as_deref(), Some("eval-1--5"));
}

#[test]
fn durations_are_capped() {
    assert_eq!(duration_to_millis(12), 12);
    assert_eq!(duration_to_millis(u128::MAX), u64::MAX);
    let d = SiteContentSummary::default();
    assert_eq!(d.pages + d.orphan_pages + d.sections + d.answer_records, 0);
}

#[test]
fn warn_threshold_is_stricter_than_error() {
    for (errors, warnings) in [(0, 0), (0, 2), (1, 0), (3, 4)] {
        if FailOn::Error.threshold_exceeded(errors, warnings) {
            assert!(FailOn::Warn.threshold_exceeded(errors, warnings));
        }
    }
    assert!(FailOn::Warn.threshold_exceeded(0, 2));
    assert!(!FailOn::Error.threshold_exceeded(0, 2));
}

#[test]
fn summary_accounts_for_every_diagnostic() {
    let ds = vec![
        Diagnostic::error("a", "x"),
        Diagnostic::warn("b", "y"),
        Diagnostic::info("c", "z"),
        Diagnostic::warn("d", "w"),
    ];
    let s = ansorum::diagnostics::DiagnosticSummary::from_diagnostics(&ds);
    assert_eq!(s.errors + s.warnings + s.infos, ds.len());
    assert_eq!(s.warnings, 2);
}
