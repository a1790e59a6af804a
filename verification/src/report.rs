//! Command outcomes and the machine-readable report of a command run.

use vstd::prelude::*;

use std::time::Duration;

use crate::cli::{spec_threshold_exceeded, FailOn};
use crate::diagnostics::{
    count_severity, diags, ostr, Diagnostic, DiagnosticSeverity, DiagnosticSummary, DiagnosticV,
};
use crate::json::Json;
use crate::text::{decimal, decimal_u64, extend, extend_str, string_of};

verus! {

/// Version of the report schema.
pub const DIAGNOSTICS_SCHEMA_VERSION: u8 = 1;

/// Page, section and answer counts of a loaded site.
#[derive(Clone, Copy, Debug)]
pub struct SiteContentSummary {
    pub pages: usize,
    pub orphan_pages: usize,
    pub sections: usize,
    pub answer_records: usize,
}

impl Default for SiteContentSummary {
    fn default() -> (r: Self)
        ensures
            r.pages == 0 && r.orphan_pages == 0 && r.sections == 0 && r.answer_records == 0,
    {
        SiteContentSummary { pages: 0, orphan_pages: 0, sections: 0, answer_records: 0 }
    }
}

/// What a successful command produced.
#[derive(Debug)]
pub struct CommandArtifacts {
    pub output_dir: Option<String>,
    pub content: Option<SiteContentSummary>,
}

impl Default for CommandArtifacts {
    fn default() -> (r: Self)
        ensures
            r.output_dir is None && r.content is None,
    {
        CommandArtifacts { output_dir: None, content: None }
    }
}

/// A command that ran to the end, with the diagnostics it raised.
#[derive(Debug)]
pub struct CommandSuccess {
    pub stage: &'static str,
    pub diagnostics: Vec<Diagnostic>,
    pub artifacts: CommandArtifacts,
    pub report: Option<Json>,
}

/// Whether a command passed.
#[derive(Clone, Copy, Debug, PartialEq, Eq, Structural)]
pub enum ReportOutcome {
    Passed,
    Failed,
}

impl ReportOutcome {
    /// The name of the outcome in a report.
    pub fn label(self) -> (r: &'static str)
        ensures
            r@ == (match self {
                ReportOutcome::Passed => "passed"@,
                ReportOutcome::Failed => "failed"@,
            }),
    {
        match self {
            ReportOutcome::Passed => "passed",
            ReportOutcome::Failed => "failed",
        }
    }
}

/// The report of one command run.
#[derive(Debug)]
pub struct CommandReport {
    pub schema_version: u8,
    pub product: &'static str,
    pub command: String,
    pub emitted_at: String,
    pub stream_id: Option<String>,
    pub event_id: Option<String>,
    pub sequence: Option<u64>,
    pub outcome: ReportOutcome,
    pub stage: String,
    pub root_dir: Option<String>,
    pub config_file: Option<String>,
    pub duration_ms: u64,
    pub summary: DiagnosticSummary,
    pub diagnostics: Vec<Diagnostic>,
    pub artifacts: Option<CommandArtifacts>,
    pub report: Option<Json>,
}

/// `s` holds the per-severity counts of `d`.
pub open spec fn counts(s: DiagnosticSummary, d: Seq<DiagnosticV>) -> bool {
    &&& s.errors == count_severity(d, DiagnosticSeverity::Error)
    &&& s.warnings == count_severity(d, DiagnosticSeverity::Warn)
    &&& s.infos == count_severity(d, DiagnosticSeverity::Info)
}

/// A duration in milliseconds, capped at `u64::MAX`.
pub open spec fn capped_millis(ms: u128) -> u64 {
    if ms > u64::MAX as u128 {
        u64::MAX
    } else {
        ms as u64
    }
}

/// A duration in milliseconds, capped at `u64::MAX`.
pub fn duration_to_millis(ms: u128) -> (r: u64)
    ensures
        r == capped_millis(ms),
{
    if ms > u64::MAX as u128 {
        u64::MAX
    } else {
        ms as u64
    }
}

/// `Duration::as_millis`. Nothing is stated: `Duration` is opaque here.
#[verifier::external_body]
fn duration_millis(d: &Duration) -> u128 {
    d.as_millis()
}

/// The current UTC time in RFC 3339 with milliseconds and a `Z` suffix
/// (`chrono::Utc::now().to_rfc3339_opts(SecondsFormat::Millis, true)`).
/// Nothing is stated of the text: it is the clock's.
#[verifier::external_body]
fn utc_now_rfc3339() -> String {
    chrono::Utc::now().to_rfc3339_opts(chrono::SecondsFormat::Millis, true)
}

/// The current UTC time in milliseconds since the Unix epoch
/// (`chrono::Utc::now().timestamp_millis()`). Nothing is stated: it is the clock's.
#[verifier::external_body]
fn utc_now_millis() -> i64 {
    chrono::Utc::now().timestamp_millis()
}

/// The stage of a failure: the phase of its first diagnostic, else `failed`.
pub open spec fn failure_stage(d: Seq<DiagnosticV>) -> Seq<char> {
    if d.len() > 0 && d[0].phase is Some {
        d[0].phase->0
    } else {
        "failed"@
    }
}

impl CommandReport {
    /// The fields every report shares, before a stream event is attached.
    pub open spec fn fresh(&self, command: Seq<char>, emitted_at: Seq<char>, ms: u128) -> bool {
        &&& self.schema_version == DIAGNOSTICS_SCHEMA_VERSION
        &&& self.product@ == "ansorum"@
        &&& self.command@ == command
        &&& self.emitted_at@ == emitted_at
        &&& self.stream_id is None
        &&& self.event_id is None
        &&& self.sequence is None
        &&& self.duration_ms == capped_millis(ms)
        &&& counts(self.summary, diags(self.diagnostics@))
    }

    /// The report of a command that completed, with the time it was emitted at.
    pub fn completed_at(
        command: &str,
        outcome: ReportOutcome,
        root_dir: &str,
        config_file: &str,
        duration_millis: u128,
        emitted_at: String,
        success: CommandSuccess,
    ) -> (r: CommandReport)
        ensures
            r.fresh(command@, emitted_at@, duration_millis),
            r.outcome == outcome,
            r.stage@ == success.stage@,
            ostr(r.root_dir) == Some(root_dir@),
            ostr(r.config_file) == Some(config_file@),
            r.diagnostics == success.diagnostics,
            r.artifacts == Some(success.artifacts),
            r.report == success.report,
    {
        let summary = DiagnosticSummary::from_diagnostics(success.diagnostics.as_slice());
        CommandReport {
            schema_version: DIAGNOSTICS_SCHEMA_VERSION,
            product: "ansorum",
            command: command.to_string(),
            emitted_at,
            stream_id: None,
            event_id: None,
            sequence: None,
            outcome,
            stage: success.stage.to_string(),
            root_dir: Some(root_dir.to_string()),
            config_file: Some(config_file.to_string()),
            duration_ms: duration_to_millis(duration_millis),
            summary,
            diagnostics: success.diagnostics,
            artifacts: Some(success.artifacts),
            report: success.report,
        }
    }

    /// The report of a command that completed, stamped with the current time.
    pub fn completed(
        command: &str,
        outcome: ReportOutcome,
        root_dir: &str,
        config_file: &str,
        duration: Duration,
        success: CommandSuccess,
    ) -> (r: CommandReport)
        ensures
            r.schema_version == DIAGNOSTICS_SCHEMA_VERSION,
            r.product@ == "ansorum"@,
            r.command@ == command@,
            r.stream_id is None && r.event_id is None && r.sequence is None,
            counts(r.summary, diags(r.diagnostics@)),
            r.outcome == outcome,
            r.stage@ == success.stage@,
            ostr(r.root_dir) == Some(root_dir@),
            ostr(r.config_file) == Some(config_file@),
            r.diagnostics == success.diagnostics,
            r.artifacts == Some(success.artifacts),
            r.report == success.report,
    {
        let ms = duration_millis(&duration);
        let now = utc_now_rfc3339();
        Self::completed_at(command, outcome, root_dir, config_file, ms, now, success)
    }

    /// The report of a command that passed.
    pub fn success(
        command: &str,
        root_dir: &str,
        config_file: &str,
        duration: Duration,
        success: CommandSuccess,
    ) -> (r: CommandReport)
        ensures
            r.schema_version == DIAGNOSTICS_SCHEMA_VERSION,
            r.product@ == "ansorum"@,
            r.command@ == command@,
            r.stream_id is None && r.event_id is None && r.sequence is None,
            counts(r.summary, diags(r.diagnostics@)),
            r.outcome == ReportOutcome::Passed,
            r.stage@ == success.stage@,
            ostr(r.root_dir) == Some(root_dir@),
            ostr(r.config_file) == Some(config_file@),
            r.diagnostics == success.diagnostics,
            r.artifacts == Some(success.artifacts),
            r.report == success.report,
    {
        Self::completed(command, ReportOutcome::Passed, root_dir, config_file, duration, success)
    }

    /// The report of a failed command, with the time it was emitted at.
    pub fn failure_at(
        command: &str,
        root_dir: Option<&str>,
        config_file: Option<&str>,
        duration_millis: u128,
        emitted_at: String,
        failure: crate::diagnostics::CommandFailure,
    ) -> (r: CommandReport)
        ensures
            r.fresh(command@, emitted_at@, duration_millis),
            r.outcome == ReportOutcome::Failed,
            r.stage@ == failure_stage(diags(failure.diagnostics@)),
            ostr(r.root_dir) == (match root_dir {
                Some(p) => Some(p@),
                None => None::<Seq<char>>,
            }),
            ostr(r.config_file) == (match config_file {
                Some(p) => Some(p@),
                None => None::<Seq<char>>,
            }),
            r.diagnostics == failure.diagnostics,
            r.artifacts is None,
            r.report is None,
    {
        let diagnostics = failure.diagnostics;
        let stage = if diagnostics.len() > 0 {
            match &diagnostics[0].phase {
                Some(p) => p.clone(),
                None => "failed".to_string(),
            }
        } else {
            "failed".to_string()
        };
        let summary = DiagnosticSummary::from_diagnostics(diagnostics.as_slice());
        let root = match root_dir {
            Some(p) => Some(p.to_string()),
            None => None,
        };
        let config = match config_file {
            Some(p) => Some(p.to_string()),
            None => None,
        };
        CommandReport {
            schema_version: DIAGNOSTICS_SCHEMA_VERSION,
            product: "ansorum",
            command: command.to_string(),
            emitted_at,
            stream_id: None,
            event_id: None,
            sequence: None,
            outcome: ReportOutcome::Failed,
            stage,
            root_dir: root,
            config_file: config,
            duration_ms: duration_to_millis(duration_millis),
            summary,
            diagnostics,
            artifacts: None,
            report: None,
        }
    }

    /// The report of a failed command, stamped with the current time.
    pub fn failure(
        command: &str,
        root_dir: Option<&str>,
        config_file: Option<&str>,
        duration: Duration,
        failure: crate::diagnostics::CommandFailure,
    ) -> (r: CommandReport)
        ensures
            r.schema_version == DIAGNOSTICS_SCHEMA_VERSION,
            r.product@ == "ansorum"@,
            r.command@ == command@,
            r.stream_id is None && r.event_id is None && r.sequence is None,
            counts(r.summary, diags(r.diagnostics@)),
            r.outcome == ReportOutcome::Failed,
            r.stage@ == failure_stage(diags(failure.diagnostics@)),
            ostr(r.root_dir) == (match root_dir {
                Some(p) => Some(p@),
                None => None::<Seq<char>>,
            }),
            ostr(r.config_file) == (match config_file {
                Some(p) => Some(p@),
                None => None::<Seq<char>>,
            }),
            r.diagnostics == failure.diagnostics,
            r.artifacts is None,
            r.report is None,
    {
        let ms = duration_millis(&duration);
        let now = utc_now_rfc3339();
        Self::failure_at(command, root_dir, config_file, ms, now, failure)
    }

    /// Stamps the report with the next event of a stream.
    pub fn attach_stream_event(&mut self, stream: &mut ReportStreamContext)
        requires
            old(stream)@.1 < u64::MAX,
        ensures
            final(stream)@ == (old(stream)@.0, (old(stream)@.1 + 1) as u64),
            ostr(final(self).stream_id) == Some(old(stream)@.0),
            final(self).sequence == Some(old(stream)@.1),
            ostr(final(self).event_id) == Some(
                old(stream)@.0 + ":"@ + decimal(old(stream)@.1 as nat),
            ),
            final(self).schema_version == old(self).schema_version,
            final(self).product == old(self).product,
            final(self).command == old(self).command,
            final(self).emitted_at == old(self).emitted_at,
            final(self).outcome == old(self).outcome,
            final(self).stage == old(self).stage,
            final(self).root_dir == old(self).root_dir,
            final(self).config_file == old(self).config_file,
            final(self).duration_ms == old(self).duration_ms,
            final(self).summary == old(self).summary,
            final(self).diagnostics == old(self).diagnostics,
            final(self).artifacts == old(self).artifacts,
            final(self).report == old(self).report,
    {
        let sequence = stream.next_sequence;
        stream.next_sequence = sequence + 1;
        let mut id: Vec<char> = Vec::new();
        extend_str(&mut id, stream.stream_id.as_str());
        extend_str(&mut id, ":");
        let digits = decimal_u64(sequence);
        extend(&mut id, digits.as_slice());
        proof {
            reveal_strlit(":");
        }
        self.stream_id = Some(stream.stream_id.clone());
        self.sequence = Some(sequence);
        self.event_id = Some(string_of(id.as_slice()));
    }
}

/// Numbers the reports of one `json-stream` run.
#[derive(Debug)]
pub struct ReportStreamContext {
    stream_id: String,
    next_sequence: u64,
}

impl View for ReportStreamContext {
    /// The stream's identifier and the sequence number of its next event.
    type V = (Seq<char>, u64);

    closed spec fn view(&self) -> (Seq<char>, u64) {
        (self.stream_id@, self.next_sequence)
    }
}

/// The decimal text of a signed integer.
pub open spec fn signed_decimal(i: int) -> Seq<char> {
    if i < 0 {
        "-"@ + decimal((-i) as nat)
    } else {
        decimal(i as nat)
    }
}

impl ReportStreamContext {
    /// A stream `<command>-<process id>-<start millis>`, numbered from 1.
    pub fn with_origin(command: &str, process_id: u32, started_millis: i64) -> (r: Self)
        ensures
            r@.0 == command@ + "-"@ + decimal(process_id as nat) + "-"@ + signed_decimal(
                started_millis as int,
            ),
            r@.1 == 1,
    {
        let mut id: Vec<char> = Vec::new();
        extend_str(&mut id, command);
        extend_str(&mut id, "-");
        let pid = decimal_u64(process_id as u64);
        extend(&mut id, pid.as_slice());
        extend_str(&mut id, "-");
        if started_millis < 0 {
            extend_str(&mut id, "-");
            let magnitude: u64 = if started_millis == i64::MIN {
                9223372036854775808u64
            } else {
                (-started_millis) as u64
            };
            let digits = decimal_u64(magnitude);
            extend(&mut id, digits.as_slice());
        } else {
            let digits = decimal_u64(started_millis as u64);
            extend(&mut id, digits.as_slice());
        }
        proof {
            reveal_strlit("-");
        }
        ReportStreamContext { stream_id: string_of(id.as_slice()), next_sequence: 1 }
    }

    /// The sequence number the next event of the stream gets.
    pub fn next_sequence(&self) -> (r: u64)
        ensures
            r == self@.1,
    {
        self.next_sequence
    }

    /// A stream for `command` in the process `process_id`, started now.
    pub fn new(command: &str, process_id: u32) -> (r: Self)
        ensures
            r@.1 == 1,
            exists|started_millis: i64|
                r@.0 == command@ + "-"@ + decimal(process_id as nat) + "-"@ + signed_decimal(
                    started_millis as int,
                ),
    {
        let now = utc_now_millis();
        Self::with_origin(command, process_id, now)
    }
}

/// The diagnostic that `--fail-on warn` adds to a run with warnings.
pub open spec fn threshold_diagnostic(stage: Seq<char>) -> DiagnosticV {
    DiagnosticV::error(
        "warn_threshold_exceeded"@,
        "Command completed with warnings, but `--fail-on warn` requires a warning-free run"@,
    ).in_phase(stage).suggesting(
        "Resolve warning diagnostics or re-run with `--fail-on error`"@,
    )
}

/// Applies `--fail-on`: under `warn`, a run with any error or warning fails and
/// gets a `warn_threshold_exceeded` error; under `error` nothing changes (errors
/// already fail the run).
pub fn enforce_fail_on(success: &mut CommandSuccess, fail_on: FailOn) -> (r: bool)
    ensures
        r == (fail_on == FailOn::Warn && spec_threshold_exceeded(
            fail_on,
            count_severity(diags(old(success).diagnostics@), DiagnosticSeverity::Error),
            count_severity(diags(old(success).diagnostics@), DiagnosticSeverity::Warn),
        )),
        r ==> diags(final(success).diagnostics@) == diags(old(success).diagnostics@).push(
            threshold_diagnostic(old(success).stage@),
        ),
        !r ==> final(success).diagnostics == old(success).diagnostics,
        final(success).stage == old(success).stage,
        final(success).artifacts == old(success).artifacts,
        final(success).report == old(success).report,
{
    let summary = DiagnosticSummary::from_diagnostics(success.diagnostics.as_slice());
    if !fail_on.threshold_exceeded(summary.errors, summary.warnings) || fail_on == FailOn::Error {
        return false;
    }
    let d = Diagnostic::error(
        "warn_threshold_exceeded",
        "Command completed with warnings, but `--fail-on warn` requires a warning-free run",
    ).with_phase(success.stage).with_suggestion(
        "Resolve warning diagnostics or re-run with `--fail-on error`",
    );
    let ghost before = success.diagnostics@;
    success.diagnostics.push(d);
    assert(diags(success.diagnostics@) =~= diags(before).push(threshold_diagnostic(success.stage@)));
    true
}

} // verus!
