//! What `audit` reports: findings as diagnostics, the `--fail-on` rule of an
//! audit, its outcome and its human-readable summary.

use vstd::prelude::*;

use crate::audit::{audit_severity_label, AuditFinding, AuditFindingV, AuditReport, AuditSeverity};
use crate::cli::{spec_threshold_exceeded, AuditFormat, FailOn};
use crate::diagnostics::{
    count_severity, diags, ostr, Diagnostic, DiagnosticSeverity, DiagnosticSummary, DiagnosticV,
};
use crate::messages::opt_part;
use crate::report::ReportOutcome;
use crate::text::{decimal, decimal_exec, extend, extend_str, join, join_exec, string_of, views};

verus! {

pub open spec fn diagnostic_severity(s: AuditSeverity) -> DiagnosticSeverity {
    match s {
        AuditSeverity::Error => DiagnosticSeverity::Error,
        AuditSeverity::Warn => DiagnosticSeverity::Warn,
        AuditSeverity::Info => DiagnosticSeverity::Info,
    }
}

/// The diagnostic of one audit finding, in the `validate` phase; a missing
/// review date carries a suggestion.
pub open spec fn finding_diagnostic(f: AuditFindingV) -> DiagnosticV {
    let d = DiagnosticV {
        code: f.code,
        severity: diagnostic_severity(f.severity),
        message: f.message,
        path: f.source_path,
        line: None,
        column: None,
        answer_id: f.answer_id,
        phase: Some("validate"@),
        suggestion: None,
        fix_example: None,
        docs_url: None,
        related_paths: None,
        caused_by: None,
    };
    if f.code == "missing_review_by"@ {
        d.suggesting("Set `review_by = YYYY-MM-DD` for freshness tracking"@)
    } else {
        d
    }
}

fn clone_opt(o: &Option<String>) -> (r: Option<String>)
    ensures
        ostr(r) == ostr(*o),
{
    match o {
        Some(s) => Some(s.clone()),
        None => None,
    }
}

fn finding_to_diagnostic(f: &AuditFinding) -> (r: Diagnostic)
    ensures
        r@ == finding_diagnostic(f@),
{
    let severity = match f.severity {
        AuditSeverity::Error => DiagnosticSeverity::Error,
        AuditSeverity::Warn => DiagnosticSeverity::Warn,
        AuditSeverity::Info => DiagnosticSeverity::Info,
    };
    let mut d = Diagnostic {
        code: f.code.clone(),
        severity,
        message: f.message.clone(),
        path: clone_opt(&f.source_path),
        line: None,
        column: None,
        answer_id: clone_opt(&f.answer_id),
        phase: Some("validate".to_string()),
        suggestion: None,
        fix_example: None,
        docs_url: None,
        related_paths: None,
        caused_by: None,
    };
    if crate::text::str_eq(f.code.as_str(), "missing_review_by") {
        d.suggestion = Some("Set `review_by = YYYY-MM-DD` for freshness tracking".to_string());
    }
    d
}

pub open spec fn findings_v(v: Seq<AuditFinding>) -> Seq<AuditFindingV> {
    v.map_values(|f: AuditFinding| f@)
}

/// One diagnostic per finding, in the report's order.
pub fn audit_report_diagnostics(report: &AuditReport) -> (r: Vec<Diagnostic>)
    ensures
        diags(r@) == findings_v(report.findings@).map_values(
            |f: AuditFindingV| finding_diagnostic(f),
        ),
{
    let fs = &report.findings;
    let mut out: Vec<Diagnostic> = Vec::new();
    let mut i: usize = 0;
    while i < fs.len()
        invariant
            i <= fs@.len(),
            fs == report.findings,
            diags(out@) == findings_v(fs@.take(i as int)).map_values(
                |f: AuditFindingV| finding_diagnostic(f),
            ),
        decreases fs.len() - i,
    {
        let ghost prev = out@;
        out.push(finding_to_diagnostic(&fs[i]));
        proof {
            assert(fs@.take(i + 1) =~= fs@.take(i as int).push(fs@[i as int]));
            assert(findings_v(fs@.take(i + 1)) =~= findings_v(fs@.take(i as int)).push(
                fs@[i as int]@,
            ));
            assert(diags(out@) =~= diags(prev).push(finding_diagnostic(fs@[i as int]@)));
        }
        i += 1;
        assert(diags(out@) =~= findings_v(fs@.take(i as int)).map_values(
            |f: AuditFindingV| finding_diagnostic(f),
        ));
    }
    assert(fs@.take(i as int) =~= fs@);
    out
}

/// The error an audit run with warnings gets under `--fail-on warn`.
pub open spec fn audit_threshold_diagnostic() -> DiagnosticV {
    DiagnosticV::error(
        "warn_threshold_exceeded"@,
        "Audit completed with warnings, but `--fail-on warn` requires a warning-free run"@,
    ).in_phase("validate"@).suggesting(
        "Resolve warning findings or re-run with `--fail-on error`"@,
    )
}

/// Applies `--fail-on` to an audit's diagnostics: under `warn`, any error or
/// warning fails the run and adds a `warn_threshold_exceeded` error.
pub fn apply_audit_fail_on(diagnostics: &mut Vec<Diagnostic>, fail_on: FailOn) -> (r: bool)
    ensures
        r == (fail_on == FailOn::Warn && spec_threshold_exceeded(
            fail_on,
            count_severity(diags(old(diagnostics)@), DiagnosticSeverity::Error),
            count_severity(diags(old(diagnostics)@), DiagnosticSeverity::Warn),
        )),
        r ==> diags(final(diagnostics)@) == diags(old(diagnostics)@).push(
            audit_threshold_diagnostic(),
        ),
        !r ==> final(diagnostics)@ == old(diagnostics)@,
{
    if fail_on != FailOn::Warn {
        return false;
    }
    let summary = DiagnosticSummary::from_diagnostics(diagnostics.as_slice());
    if !fail_on.threshold_exceeded(summary.errors, summary.warnings) {
        return false;
    }
    let d = Diagnostic::error(
        "warn_threshold_exceeded",
        "Audit completed with warnings, but `--fail-on warn` requires a warning-free run",
    ).with_phase("validate").with_suggestion(
        "Resolve warning findings or re-run with `--fail-on error`",
    );
    let ghost before = diagnostics@;
    diagnostics.push(d);
    assert(diags(diagnostics@) =~= diags(before).push(audit_threshold_diagnostic()));
    true
}

/// An audit fails when it found errors or `--fail-on` was exceeded.
pub fn audit_outcome(report: &AuditReport, threshold_exceeded: bool) -> (r: ReportOutcome)
    ensures
        r == (if report.summary.errors > 0 || threshold_exceeded {
            ReportOutcome::Failed
        } else {
            ReportOutcome::Passed
        }),
{
    if report.has_errors() || threshold_exceeded {
        ReportOutcome::Failed
    } else {
        ReportOutcome::Passed
    }
}

/// The name of an audit output format in events.
pub fn audit_format_name(format: AuditFormat) -> (r: &'static str)
    ensures
        r@ == (match format {
            AuditFormat::Human => "human"@,
            AuditFormat::Json => "json"@,
            AuditFormat::JsonStream => "json_stream"@,
        }),
{
    match format {
        AuditFormat::Human => "human",
        AuditFormat::Json => "json",
        AuditFormat::JsonStream => "json_stream",
    }
}

/// The line of one finding: `<severity> [<code>] [answer=..] [path=..]: <message>`.
pub open spec fn finding_line(f: AuditFindingV) -> Seq<char> {
    join(
        seq![audit_severity_label(f.severity) + " ["@ + f.code + "]"@] + opt_part(
            "answer"@,
            f.answer_id,
        ) + opt_part("path"@, f.source_path),
        " "@,
    ) + ": "@ + f.message
}

/// The human-readable audit report: the summary line, then each finding or
/// `No findings.`.
pub open spec fn human_report_lines(
    errors: usize,
    warnings: usize,
    infos: usize,
    findings: Seq<AuditFindingV>,
) -> Seq<Seq<char>> {
    seq![
        "Audit summary: "@ + decimal(errors as nat) + " error(s), "@ + decimal(warnings as nat)
            + " warning(s), "@ + decimal(infos as nat) + " info finding(s)"@,
    ] + if findings.len() == 0 {
        seq!["No findings."@]
    } else {
        findings.map_values(|f: AuditFindingV| finding_line(f))
    }
}

fn push_opt_part(parts: &mut Vec<Vec<char>>, key: &str, v: &Option<String>)
    ensures
        views(final(parts)@) == views(old(parts)@) + opt_part(key@, ostr(*v)),
{
    let ghost before = parts@;
    match v {
        Some(x) => {
            let mut t: Vec<char> = Vec::new();
            extend_str(&mut t, key);
            extend_str(&mut t, "=");
            extend_str(&mut t, x.as_str());
            proof {
                reveal_strlit("=");
            }
            parts.push(t);
            assert(views(parts@) =~= views(before) + opt_part(key@, ostr(*v)));
        },
        None => {
            assert(views(parts@) =~= views(before) + opt_part(key@, ostr(*v)));
        },
    }
}

fn finding_text(f: &AuditFinding) -> (r: Vec<char>)
    ensures
        r@ == finding_line(f@),
{
    let mut parts: Vec<Vec<char>> = Vec::new();
    let mut head: Vec<char> = Vec::new();
    extend_str(&mut head, f.severity.label());
    extend_str(&mut head, " [");
    extend_str(&mut head, f.code.as_str());
    extend_str(&mut head, "]");
    parts.push(head);
    let ghost p0 = views(parts@);
    push_opt_part(&mut parts, "answer", &f.answer_id);
    push_opt_part(&mut parts, "path", &f.source_path);
    assert(views(parts@) =~= seq![audit_severity_label(f.severity) + " ["@ + f@.code + "]"@]
        + opt_part("answer"@, f@.answer_id) + opt_part("path"@, f@.source_path));
    let mut line = join_exec(&parts, &[' ']);
    assert([' ']@ =~= " "@) by {
        reveal_strlit(" ");
    }
    extend_str(&mut line, ": ");
    extend_str(&mut line, f.message.as_str());
    line
}

/// The lines `audit` prints in human format.
pub fn print_human_report(report: &AuditReport) -> (r: Vec<String>)
    ensures
        strs_of(r@) == human_report_lines(
            report.summary.errors,
            report.summary.warnings,
            report.summary.infos,
            findings_v(report.findings@),
        ),
{
    let mut out: Vec<String> = Vec::new();
    let mut t: Vec<char> = Vec::new();
    extend_str(&mut t, "Audit summary: ");
    extend(&mut t, &decimal_exec(report.summary.errors));
    extend_str(&mut t, " error(s), ");
    extend(&mut t, &decimal_exec(report.summary.warnings));
    extend_str(&mut t, " warning(s), ");
    extend(&mut t, &decimal_exec(report.summary.infos));
    extend_str(&mut t, " info finding(s)");
    out.push(string_of(&t));
    let ghost head = strs_of(out@);
    if report.findings.len() == 0 {
        out.push("No findings.".to_string());
        assert(strs_of(out@) =~= human_report_lines(
            report.summary.errors,
            report.summary.warnings,
            report.summary.infos,
            findings_v(report.findings@),
        ));
        return out;
    }
    let fs = &report.findings;
    let mut i: usize = 0;
    while i < fs.len()
        invariant
            i <= fs@.len(),
            fs == report.findings,
            strs_of(out@) == head + findings_v(fs@.take(i as int)).map_values(
                |f: AuditFindingV| finding_line(f),
            ),
        decreases fs.len() - i,
    {
        let ghost prev = strs_of(out@);
        let line = finding_text(&fs[i]);
        out.push(string_of(&line));
        proof {
            assert(findings_v(fs@.take(i + 1)) =~= findings_v(fs@.take(i as int)).push(
                fs@[i as int]@,
            ));
            assert(strs_of(out@) =~= prev.push(finding_line(fs@[i as int]@)));
        }
        i += 1;
        assert(strs_of(out@) =~= head + findings_v(fs@.take(i as int)).map_values(
            |f: AuditFindingV| finding_line(f),
        ));
    }
    assert(fs@.take(i as int) =~= fs@);
    out
}

pub open spec fn strs_of(v: Seq<String>) -> Seq<Seq<char>> {
    v.map_values(|s: String| s@)
}

} // verus!
