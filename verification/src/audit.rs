//! The answer audit: freshness, visibility and machine-output checks over a
//! site's answer pages, reported as sorted findings with a summary.

use vstd::prelude::*;

use chrono::Datelike;

use crate::answer::{spec_machine_ai_visible, AiVisibility, AnswerFrontMatter, AnswerVisibility, TokenBudget};
use crate::answers::{
    token_budget_key, token_budget_limit, token_budget_name, budget_limit, estimate_tokens,
    token_estimate, visibility_key, visibility_name,
};
use crate::corpus::AnswerCorpus;
use crate::answers::{AnswerRecord, AnswerRecordV};
use crate::diagnostics::ostr;
use crate::library::{Library, Page};
use crate::order::{
    lemma_lex_irreflexive, lemma_lex_total, lemma_lex_transitive, lemma_opt_lex, lex_lt,
    opt_lex_lt, opt_str_lt, sort_total, sorted_arrangement, str_lt, values, Ordered,
    TotalOrdered,
};
use crate::structured::{spec_structured_data, structured_data_for_page};
use crate::text::{
    chars_of, contains, contains_exec, decimal, decimal_exec, digit_char, extend, extend_str,
    str_eq, string_of, trim, trim_exec,
};

verus! {

// ---------------------------------------------------------------------------
// Calendar dates
// ---------------------------------------------------------------------------

/// A calendar date.
#[derive(Clone, Copy, Debug, PartialEq, Eq, Structural)]
pub struct CalendarDate {
    pub year: i32,
    pub month: u32,
    pub day: u32,
}

impl CalendarDate {
    /// Month and day are in their calendar ranges.
    pub open spec fn well_formed(&self) -> bool {
        1 <= self.month <= 12 && 1 <= self.day <= 31 && self.year > i32::MIN
    }

    /// Whether month and day are in their calendar ranges.
    pub fn is_well_formed(&self) -> (r: bool)
        ensures
            r == self.well_formed(),
    {
        1 <= self.month && self.month <= 12 && 1 <= self.day && self.day <= 31 && self.year
            > i32::MIN
    }
}

/// `a` is an earlier day than `b`.
pub open spec fn date_lt(a: CalendarDate, b: CalendarDate) -> bool {
    a.year < b.year || (a.year == b.year && (a.month < b.month || (a.month == b.month && a.day
        < b.day)))
}

/// What chrono's `NaiveDate::parse_from_str(text, "%Y-%m-%d")` yields for a
/// text, as year, month and day.
pub uninterp spec fn parsed_review_date(text: Seq<char>) -> Option<(i32, u32, u32)>;

/// `chrono::NaiveDate::parse_from_str(text, "%Y-%m-%d")`. Its result is named
/// by `parsed_review_date`; of a parsed date the contract states only what
/// any `NaiveDate` satisfies: its month and day are in calendar range.
#[verifier::external_body]
fn parse_review_date(text: &str) -> (r: Option<(i32, u32, u32)>)
    ensures
        r == parsed_review_date(text@),
        r matches Some((y, m, d)) ==> 1 <= m <= 12 && 1 <= d <= 31 && y > i32::MIN,
{
    match chrono::NaiveDate::parse_from_str(text, "%Y-%m-%d") {
        Ok(date) => Some((date.year(), date.month(), date.day())),
        Err(_) => None,
    }
}

/// Two digits.
pub open spec fn two_digits(n: nat) -> Seq<char> {
    seq![digit_char((n / 10) % 10), digit_char(n % 10)]
}

/// At least four digits, zero-padded.
pub open spec fn four_digits(n: nat) -> Seq<char> {
    if n >= 10000 {
        decimal(n)
    } else {
        seq![
            digit_char(n / 1000),
            digit_char((n / 100) % 10),
            digit_char((n / 10) % 10),
            digit_char(n % 10),
        ]
    }
}

/// How chrono displays a date: `YYYY-MM-DD`, with an explicit sign for years
/// outside 0 to 9999.
pub open spec fn date_text(d: CalendarDate) -> Seq<char> {
    let year = if 0 <= d.year <= 9999 {
        four_digits(d.year as nat)
    } else if d.year < 0 {
        seq!['-'] + four_digits((-d.year) as nat)
    } else {
        seq!['+'] + four_digits(d.year as nat)
    };
    year + seq!['-'] + two_digits(d.month as nat) + seq!['-'] + two_digits(d.day as nat)
}

fn digit(n: u32) -> (c: char)
    requires
        n < 10,
    ensures
        c == digit_char(n as nat),
{
    let v = decimal_exec(n as usize);
    assert(v@ == seq![digit_char(n as nat)]);
    v[0]
}

fn push_two_digits(v: &mut Vec<char>, n: u32)
    requires
        n < 100,
    ensures
        final(v)@ == old(v)@ + two_digits(n as nat),
{
    v.push(digit(n / 10));
    v.push(digit(n % 10));
    assert(final(v)@ =~= old(v)@ + two_digits(n as nat));
}

fn push_four_digits(v: &mut Vec<char>, n: u32)
    ensures
        final(v)@ == old(v)@ + four_digits(n as nat),
{
    if n >= 10000 {
        let d = decimal_exec(n as usize);
        extend(v, &d);
    } else {
        v.push(digit(n / 1000));
        v.push(digit((n / 100) % 10));
        v.push(digit((n / 10) % 10));
        v.push(digit(n % 10));
        assert(final(v)@ =~= old(v)@ + four_digits(n as nat));
    }
}

/// The date as chrono displays it.
pub fn format_date(d: CalendarDate) -> (r: String)
    requires
        d.well_formed(),
    ensures
        r@ == date_text(d),
{
    let mut v: Vec<char> = Vec::new();
    if 0 <= d.year && d.year <= 9999 {
        push_four_digits(&mut v, d.year as u32);
    } else if d.year < 0 {
        v.push('-');
        push_four_digits(&mut v, (-d.year) as u32);
    } else {
        v.push('+');
        push_four_digits(&mut v, d.year as u32);
    }
    v.push('-');
    push_two_digits(&mut v, d.month);
    v.push('-');
    push_two_digits(&mut v, d.day);
    assert(v@ =~= date_text(d));
    string_of(&v)
}

// ---------------------------------------------------------------------------
// Findings and reports
// ---------------------------------------------------------------------------

/// How serious a finding is.
#[derive(Clone, Copy, Debug, PartialEq, Eq, Structural)]
pub enum AuditSeverity {
    Error,
    Warn,
    Info,
}

pub open spec fn audit_severity_label(s: AuditSeverity) -> Seq<char> {
    match s {
        AuditSeverity::Error => "error"@,
        AuditSeverity::Warn => "warn"@,
        AuditSeverity::Info => "info"@,
    }
}

impl AuditSeverity {
    pub fn label(&self) -> (r: &'static str)
        ensures
            r@ == audit_severity_label(*self),
    {
        match self {
            AuditSeverity::Error => "error",
            AuditSeverity::Warn => "warn",
            AuditSeverity::Info => "info",
        }
    }
}

/// Errors sort first, then warnings, then infos.
pub open spec fn rank(s: AuditSeverity) -> nat {
    match s {
        AuditSeverity::Error => 0,
        AuditSeverity::Warn => 1,
        AuditSeverity::Info => 2,
    }
}

pub fn severity_rank(severity: &AuditSeverity) -> (r: u8)
    ensures
        r == rank(*severity),
{
    match severity {
        AuditSeverity::Error => 0,
        AuditSeverity::Warn => 1,
        AuditSeverity::Info => 2,
    }
}

/// One audit finding.
#[derive(Debug)]
pub struct AuditFinding {
    pub severity: AuditSeverity,
    pub code: String,
    pub message: String,
    pub answer_id: Option<String>,
    pub source_path: Option<String>,
}

/// The mathematical value of an [`AuditFinding`].
pub struct AuditFindingV {
    pub severity: AuditSeverity,
    pub code: Seq<char>,
    pub message: Seq<char>,
    pub answer_id: Option<Seq<char>>,
    pub source_path: Option<Seq<char>>,
}

impl View for AuditFinding {
    type V = AuditFindingV;

    open spec fn view(&self) -> AuditFindingV {
        AuditFindingV {
            severity: self.severity,
            code: self.code@,
            message: self.message@,
            answer_id: ostr(self.answer_id),
            source_path: ostr(self.source_path),
        }
    }
}

/// Findings are ordered by severity, code, answer id, source path and
/// message.
pub open spec fn finding_less(a: AuditFindingV, b: AuditFindingV) -> bool {
    rank(a.severity) < rank(b.severity) || (rank(a.severity) == rank(b.severity) && (lex_lt(
        a.code,
        b.code,
    ) || (a.code == b.code && (opt_lex_lt(a.answer_id, b.answer_id) || (a.answer_id
        == b.answer_id && (opt_lex_lt(a.source_path, b.source_path) || (a.source_path
        == b.source_path && lex_lt(a.message, b.message))))))))
}

impl Ordered for AuditFinding {
    open spec fn less(a: AuditFindingV, b: AuditFindingV) -> bool {
        finding_less(a, b)
    }

    proof fn less_irreflexive(a: AuditFindingV) {
        lemma_lex_irreflexive(a.code);
        lemma_lex_irreflexive(a.message);
        lemma_opt_lex(a.answer_id, a.answer_id, a.answer_id);
        lemma_opt_lex(a.source_path, a.source_path, a.source_path);
    }

    proof fn less_transitive(a: AuditFindingV, b: AuditFindingV, c: AuditFindingV) {
        lemma_lex_irreflexive(a.code);
        lemma_lex_irreflexive(b.code);
        lemma_lex_irreflexive(c.code);
        if lex_lt(a.code, b.code) && lex_lt(b.code, c.code) {
            lemma_lex_transitive(a.code, b.code, c.code);
        }
        if lex_lt(a.message, b.message) && lex_lt(b.message, c.message) {
            lemma_lex_transitive(a.message, b.message, c.message);
        }
        lemma_opt_lex(a.answer_id, b.answer_id, c.answer_id);
        lemma_opt_lex(a.source_path, b.source_path, c.source_path);
    }

    fn lt(&self, other: &Self) -> (r: bool) {
        let ra = severity_rank(&self.severity);
        let rb = severity_rank(&other.severity);
        if ra != rb {
            return ra < rb;
        }
        if self.code != other.code {
            return str_lt(self.code.as_str(), other.code.as_str());
        }
        proof {
            lemma_lex_irreflexive(self.code@);
        }
        if opt_str_lt(&self.answer_id, &other.answer_id) {
            return true;
        }
        if opt_str_lt(&other.answer_id, &self.answer_id) {
            proof {
                lemma_opt_lex(ostr(self.answer_id), ostr(other.answer_id), ostr(self.answer_id));
            }
            return false;
        }
        proof {
            lemma_opt_lex(ostr(self.answer_id), ostr(other.answer_id), ostr(other.answer_id));
        }
        if opt_str_lt(&self.source_path, &other.source_path) {
            return true;
        }
        if opt_str_lt(&other.source_path, &self.source_path) {
            proof {
                lemma_opt_lex(ostr(self.source_path), ostr(other.source_path), ostr(self.source_path));
            }
            return false;
        }
        proof {
            lemma_opt_lex(ostr(self.source_path), ostr(other.source_path), ostr(other.source_path));
        }
        str_lt(self.message.as_str(), other.message.as_str())
    }
}

impl TotalOrdered for AuditFinding {
    proof fn less_total(a: AuditFindingV, b: AuditFindingV) {
        lemma_lex_total(a.code, b.code);
        lemma_lex_total(a.message, b.message);
        lemma_opt_lex(a.answer_id, b.answer_id, b.answer_id);
        lemma_opt_lex(a.source_path, b.source_path, b.source_path);
    }
}

/// How many findings of each severity a report holds.
#[derive(Clone, Copy, Debug, PartialEq, Eq, Structural)]
pub struct AuditSummary {
    pub errors: usize,
    pub warnings: usize,
    pub infos: usize,
}

impl Default for AuditSummary {
    fn default() -> (r: AuditSummary)
        ensures
            r.errors == 0 && r.warnings == 0 && r.infos == 0,
    {
        AuditSummary { errors: 0, warnings: 0, infos: 0 }
    }
}

/// The number of findings of a severity.
pub open spec fn count_findings(s: Seq<AuditFindingV>, sev: AuditSeverity) -> nat
    decreases s.len(),
{
    if s.len() == 0 {
        0
    } else {
        count_findings(s.drop_last(), sev) + if s.last().severity == sev {
            1nat
        } else {
            0nat
        }
    }
}

/// A summary that counts the findings.
pub open spec fn summarizes(summary: AuditSummary, s: Seq<AuditFindingV>) -> bool {
    &&& summary.errors == count_findings(s, AuditSeverity::Error)
    &&& summary.warnings == count_findings(s, AuditSeverity::Warn)
    &&& summary.infos == count_findings(s, AuditSeverity::Info)
}

/// An audit report: its findings and their summary.
#[derive(Debug)]
pub struct AuditReport {
    pub summary: AuditSummary,
    pub findings: Vec<AuditFinding>,
}

impl Default for AuditReport {
    fn default() -> (r: AuditReport)
        ensures
            r.findings@.len() == 0,
            summarizes(r.summary, values(r.findings@)),
    {
        AuditReport { summary: AuditSummary::default(), findings: Vec::new() }
    }
}

fn opt_owned(o: Option<&str>) -> (r: Option<String>)
    ensures
        ostr(r) == match o {
            Some(s) => Some(s@),
            None => None::<Seq<char>>,
        },
{
    match o {
        Some(s) => Some(s.to_owned()),
        None => None,
    }
}

impl AuditReport {
    /// Adds a finding and counts it under its severity.
    pub fn push(
        &mut self,
        severity: AuditSeverity,
        code: &str,
        message: &str,
        answer_id: Option<&str>,
        source_path: Option<&str>,
    )
        requires
            match severity {
                AuditSeverity::Error => old(self).summary.errors < usize::MAX,
                AuditSeverity::Warn => old(self).summary.warnings < usize::MAX,
                AuditSeverity::Info => old(self).summary.infos < usize::MAX,
            },
        ensures
            final(self).summary.errors == old(self).summary.errors + if severity
                == AuditSeverity::Error {
                1int
            } else {
                0int
            },
            final(self).summary.warnings == old(self).summary.warnings + if severity
                == AuditSeverity::Warn {
                1int
            } else {
                0int
            },
            final(self).summary.infos == old(self).summary.infos + if severity
                == AuditSeverity::Info {
                1int
            } else {
                0int
            },
            values(final(self).findings@) == values(old(self).findings@).push(
                AuditFindingV {
                    severity,
                    code: code@,
                    message: message@,
                    answer_id: match answer_id {
                        Some(s) => Some(s@),
                        None => None,
                    },
                    source_path: match source_path {
                        Some(s) => Some(s@),
                        None => None,
                    },
                },
            ),
    {
        match severity {
            AuditSeverity::Error => self.summary.errors = self.summary.errors + 1,
            AuditSeverity::Warn => self.summary.warnings = self.summary.warnings + 1,
            AuditSeverity::Info => self.summary.infos = self.summary.infos + 1,
        }
        let f = AuditFinding {
            severity,
            code: code.to_owned(),
            message: message.to_owned(),
            answer_id: opt_owned(answer_id),
            source_path: opt_owned(source_path),
        };
        let ghost before = values(self.findings@);
        self.findings.push(f);
        assert(values(self.findings@) =~= before.push(f@));
    }

    pub fn has_errors(&self) -> (r: bool)
        ensures
            r == (self.summary.errors > 0),
    {
        self.summary.errors > 0
    }
}

/// Pushing a finding onto a report whose summary counts its findings gives a
/// report whose summary counts its findings.
pub proof fn law_push_keeps_summary(
    before: AuditSummary,
    findings: Seq<AuditFindingV>,
    after: AuditSummary,
    f: AuditFindingV,
)
    requires
        summarizes(before, findings),
        after.errors == before.errors + if f.severity == AuditSeverity::Error {
            1int
        } else {
            0int
        },
        after.warnings == before.warnings + if f.severity == AuditSeverity::Warn {
            1int
        } else {
            0int
        },
        after.infos == before.infos + if f.severity == AuditSeverity::Info {
            1int
        } else {
            0int
        },
    ensures
        summarizes(after, findings.push(f)),
{
    assert(findings.push(f).drop_last() =~= findings);
}

// ---------------------------------------------------------------------------
// The checks
// ---------------------------------------------------------------------------

/// A finding about an answer page.
pub open spec fn fnd(
    severity: AuditSeverity,
    code: Seq<char>,
    message: Seq<char>,
    p: Page,
    a: AnswerFrontMatter,
) -> AuditFindingV {
    AuditFindingV {
        severity,
        code,
        message,
        answer_id: Some(a.id@),
        source_path: Some(p.source_path@),
    }
}

pub open spec fn is_high(a: AnswerFrontMatter) -> bool {
    ostr(a.priority) == Some("high"@)
}

pub open spec fn visibility_findings(p: Page, a: AnswerFrontMatter) -> Seq<AuditFindingV> {
    if !spec_machine_ai_visible(a.visibility, a.ai_visibility) && a.ai_visibility
        != AiVisibility::Hidden {
        seq![
            fnd(
                AuditSeverity::Error,
                "visibility_leak"@,
                "`visibility = "@ + visibility_name(a.visibility)
                    + "` requires `ai_visibility = hidden` to avoid exposing non-public content"@,
                p,
                a,
            ),
        ]
    } else {
        seq![]
    }
}

pub open spec fn related_link_findings(p: Page, a: AnswerFrontMatter) -> Seq<AuditFindingV> {
    if is_high(a) && a.related@.len() == 0 {
        seq![
            fnd(
                AuditSeverity::Error,
                "missing_related_links"@,
                "high-priority answers must define at least one related answer link"@,
                p,
                a,
            ),
        ]
    } else {
        seq![]
    }
}

/// A page whose answer's `review_by` reads as a date before `today`.
pub open spec fn stale_review(p: Page, today: CalendarDate) -> bool {
    p.answer matches Some(a) && (a.review_by matches Some(rb) && (parsed_review_date(rb@) matches Some(
        (y, m, d),
    ) && (y < today.year || (y == today.year && (m < today.month || (m == today.month && d
        < today.day))))))
}

/// The severity of a stale review: an error for a high-priority answer, a
/// warning otherwise.
pub open spec fn stale_severity(a: AnswerFrontMatter) -> AuditSeverity {
    if a.priority matches Some(pr) && pr@ == "high"@ {
        AuditSeverity::Error
    } else {
        AuditSeverity::Warn
    }
}

/// A `stale_review_by` finding about page `p`, with the severity its answer's
/// priority calls for.
pub open spec fn reports_stale(f: AuditFindingV, p: Page) -> bool {
    &&& f.code == "stale_review_by"@
    &&& f.answer_id == Some(p.answer->0.id@)
    &&& f.source_path == Some(p.source_path@)
    &&& f.severity == stale_severity(p.answer->0)
}

pub open spec fn review_findings(p: Page, a: AnswerFrontMatter, today: CalendarDate) -> Seq<
    AuditFindingV,
> {
    match a.review_by {
        Some(rb) => match parsed_review_date(rb@) {
            Some((y, m, d)) => if date_lt(CalendarDate { year: y, month: m, day: d }, today) {
                seq![
                    fnd(
                        if is_high(a) {
                            AuditSeverity::Error
                        } else {
                            AuditSeverity::Warn
                        },
                        "stale_review_by"@,
                        "review date `"@ + rb@ + "` is stale relative to "@ + date_text(today),
                        p,
                        a,
                    ),
                ]
            } else {
                seq![]
            },
            None => seq![
                fnd(
                    AuditSeverity::Error,
                    "invalid_review_by"@,
                    "review date `"@ + rb@ + "` must use YYYY-MM-DD"@,
                    p,
                    a,
                ),
            ],
        },
        None => if is_high(a) {
            seq![
                fnd(
                    AuditSeverity::Warn,
                    "missing_review_by"@,
                    "high-priority answers should set `review_by` for freshness tracking"@,
                    p,
                    a,
                ),
            ]
        } else {
            seq![]
        },
    }
}

pub open spec fn schema_findings(p: Page, a: AnswerFrontMatter) -> Seq<AuditFindingV> {
    let missing = if a.schema_type is None && p.structured_data_sidecar is None {
        seq![
            fnd(
                AuditSeverity::Warn,
                "missing_json_ld_type"@,
                "answer pages should define `schema_type` or a structured-data sidecar"@,
                p,
                a,
            ),
        ]
    } else {
        seq![]
    };
    let invalid = match spec_structured_data(p) {
        Err(e) => seq![fnd(AuditSeverity::Error, "structured_data_invalid"@, e, p, a)],
        Ok(_) => seq![],
    };
    missing + invalid
}

/// The message for machine Markdown over the token budget.
pub open spec fn overflow_message(tokens: nat, budget: TokenBudget) -> Seq<char> {
    "estimated machine markdown size "@ + decimal(tokens) + " exceeds the `"@ + token_budget_name(
        budget,
    ) + "` budget threshold of "@ + decimal(budget_limit(budget)) + " tokens"@
}

pub open spec fn machine_output_findings(p: Page, a: AnswerFrontMatter) -> Seq<AuditFindingV> {
    let first = match p.canonical_machine_markdown {
        Some(md) => {
            let tokens = token_estimate(md@);
            let overflow = if tokens > budget_limit(a.token_budget) {
                seq![
                    fnd(
                        if a.token_budget == TokenBudget::Small {
                            AuditSeverity::Error
                        } else {
                            AuditSeverity::Warn
                        },
                        "token_budget_overflow"@,
                        overflow_message(tokens, a.token_budget),
                        p,
                        a,
                    ),
                ]
            } else {
                seq![]
            };
            let pointer = if a.ai_visibility == AiVisibility::SummaryOnly && !contains(
                md@,
                "Canonical page: <"@ + p.permalink@ + ">"@,
            ) {
                seq![
                    fnd(
                        AuditSeverity::Error,
                        "summary_only_leak"@,
                        "summary-only machine output is missing the canonical page pointer"@,
                        p,
                        a,
                    ),
                ]
            } else {
                seq![]
            };
            overflow + pointer
        },
        None => if a.ai_visibility != AiVisibility::Hidden {
            seq![
                fnd(
                    AuditSeverity::Error,
                    "missing_machine_output"@,
                    "AI-visible answers must produce canonical machine markdown"@,
                    p,
                    a,
                ),
            ]
        } else {
            seq![]
        },
    };
    let hidden = if a.ai_visibility == AiVisibility::Hidden && p.canonical_machine_markdown is Some {
        seq![
            fnd(
                AuditSeverity::Error,
                "hidden_content_leak"@,
                "hidden answers must not emit canonical machine markdown"@,
                p,
                a,
            ),
        ]
    } else {
        seq![]
    };
    first + hidden
}

/// A governance field that is missing or blank.
pub open spec fn unset(o: Option<String>) -> bool {
    match o {
        Some(t) => trim(t@).len() == 0,
        None => true,
    }
}

/// Governance metadata: an answer should name its `owner` and record its
/// `confidence_notes`; each one missing or blank is a warning.
pub open spec fn governance_findings(p: Page, a: AnswerFrontMatter) -> Seq<AuditFindingV> {
    (if unset(a.owner) {
        seq![
            fnd(
                AuditSeverity::Warn,
                "missing_owner"@,
                "answers should name an `owner` responsible for keeping them accurate"@,
                p,
                a,
            ),
        ]
    } else {
        seq![]
    }) + (if unset(a.confidence_notes) {
        seq![
            fnd(
                AuditSeverity::Warn,
                "missing_confidence_notes"@,
                "answers should record `confidence_notes` on how they were verified"@,
                p,
                a,
            ),
        ]
    } else {
        seq![]
    })
}

/// The findings about one page, in the order the checks run.
pub open spec fn page_findings(p: Page, today: CalendarDate) -> Seq<AuditFindingV> {
    match p.answer {
        Some(a) => visibility_findings(p, a) + related_link_findings(p, a) + (review_findings(
            p,
            a,
            today,
        ) + governance_findings(p, a)) + schema_findings(p, a) + machine_output_findings(p, a),
        None => seq![],
    }
}

pub open spec fn pages_findings(pages: Seq<Page>, today: CalendarDate) -> Seq<AuditFindingV>
    decreases pages.len(),
{
    if pages.len() == 0 {
        seq![]
    } else {
        pages_findings(pages.drop_last(), today) + page_findings(pages.last(), today)
    }
}

/// Some record of `s` with id `id` is kept out of machine outputs.
pub open spec fn is_excluded_id(s: Seq<AnswerRecordV>, id: Seq<char>) -> bool {
    exists|k: int|
        0 <= k < s.len() && s[k].id == id && !spec_machine_ai_visible(
            #[trigger] s[k].visibility,
            s[k].ai_visibility,
        )
}

pub open spec fn leak_finding(r: AnswerRecordV, rid: Seq<char>) -> AuditFindingV {
    AuditFindingV {
        severity: AuditSeverity::Error,
        code: "related_visibility_leak"@,
        message: "`related` references answer `"@ + rid
            + "` that is excluded from machine outputs, which would leak non-public graph metadata"@,
        answer_id: Some(r.id),
        source_path: Some(r.source_path),
    }
}

pub open spec fn record_leaks(all: Seq<AnswerRecordV>, r: AnswerRecordV, n: nat) -> Seq<
    AuditFindingV,
>
    decreases n,
{
    if n == 0 {
        seq![]
    } else {
        record_leaks(all, r, (n - 1) as nat) + if is_excluded_id(all, r.related[n - 1]) {
            seq![leak_finding(r, r.related[n - 1])]
        } else {
            seq![]
        }
    }
}

pub open spec fn related_leaks(all: Seq<AnswerRecordV>, s: Seq<AnswerRecordV>) -> Seq<
    AuditFindingV,
>
    decreases s.len(),
{
    if s.len() == 0 {
        seq![]
    } else {
        related_leaks(all, s.drop_last()) + record_leaks(all, s.last(), s.last().related.len())
    }
}

/// Every finding of an audit, before sorting.
pub open spec fn audit_findings(
    pages: Seq<Page>,
    corpus: Seq<AnswerRecordV>,
    today: CalendarDate,
) -> Seq<AuditFindingV> {
    pages_findings(pages, today) + related_leaks(corpus, corpus)
}

fn push_finding(
    out: &mut Vec<AuditFinding>,
    severity: AuditSeverity,
    code: &str,
    message: Vec<char>,
    page: &Page,
    a: &AnswerFrontMatter,
)
    ensures
        values(final(out)@) == values(old(out)@).push(fnd(severity, code@, message@, *page, *a)),
{
    let f = AuditFinding {
        severity,
        code: code.to_owned(),
        message: string_of(&message),
        answer_id: Some(a.id.clone()),
        source_path: Some(page.source_path.clone()),
    };
    let ghost before = values(out@);
    out.push(f);
    assert(values(out@) =~= before.push(fnd(severity, code@, message@, *page, *a)));
}

fn text(s: &str) -> (r: Vec<char>)
    ensures
        r@ == s@,
{
    chars_of(s)
}

fn is_high_exec(a: &AnswerFrontMatter) -> (r: bool)
    ensures
        r == is_high(*a),
{
    match &a.priority {
        Some(p) => str_eq(p.as_str(), "high"),
        None => false,
    }
}

fn check_visibility(out: &mut Vec<AuditFinding>, page: &Page, a: &AnswerFrontMatter)
    ensures
        values(final(out)@) == values(old(out)@) + visibility_findings(*page, *a),
{
    if !a.is_machine_ai_visible() && !matches!(a.ai_visibility, AiVisibility::Hidden) {
        let mut m = text("`visibility = ");
        extend_str(&mut m, visibility_key(&a.visibility));
        extend_str(&mut m, "` requires `ai_visibility = hidden` to avoid exposing non-public content");
        push_finding(out, AuditSeverity::Error, "visibility_leak", m, page, a);
    }
    assert(values(final(out)@) =~= values(old(out)@) + visibility_findings(*page, *a));
}

fn check_related_links(out: &mut Vec<AuditFinding>, page: &Page, a: &AnswerFrontMatter)
    ensures
        values(final(out)@) == values(old(out)@) + related_link_findings(*page, *a),
{
    if is_high_exec(a) && a.related.len() == 0 {
        push_finding(
            out,
            AuditSeverity::Error,
            "missing_related_links",
            text("high-priority answers must define at least one related answer link"),
            page,
            a,
        );
    }
    assert(values(final(out)@) =~= values(old(out)@) + related_link_findings(*page, *a));
}

fn check_review(out: &mut Vec<AuditFinding>, page: &Page, a: &AnswerFrontMatter, today: CalendarDate)
    requires
        today.well_formed(),
    ensures
        values(final(out)@) == values(old(out)@) + review_findings(*page, *a, today),
{
    let high = is_high_exec(a);
    match &a.review_by {
        Some(rb) => match parse_review_date(rb.as_str()) {
            Some((y, mo, d)) => {
                let stale = y < today.year || (y == today.year && (mo < today.month || (mo
                    == today.month && d < today.day)));
                if stale {
                    let mut m = text("review date `");
                    extend_str(&mut m, rb.as_str());
                    extend_str(&mut m, "` is stale relative to ");
                    let t = format_date(today);
                    extend_str(&mut m, t.as_str());
                    let sev = if high {
                        AuditSeverity::Error
                    } else {
                        AuditSeverity::Warn
                    };
                    push_finding(out, sev, "stale_review_by", m, page, a);
                }
            },
            None => {
                let mut m = text("review date `");
                extend_str(&mut m, rb.as_str());
                extend_str(&mut m, "` must use YYYY-MM-DD");
                push_finding(out, AuditSeverity::Error, "invalid_review_by", m, page, a);
            },
        },
        None => {
            if high {
                push_finding(
                    out,
                    AuditSeverity::Warn,
                    "missing_review_by",
                    text("high-priority answers should set `review_by` for freshness tracking"),
                    page,
                    a,
                );
            }
        },
    }
    assert(values(final(out)@) =~= values(old(out)@) + review_findings(*page, *a, today));
}

fn is_unset(o: &Option<String>) -> (r: bool)
    ensures
        r == unset(*o),
{
    match o {
        Some(t) => trim_exec(&chars_of(t.as_str())).len() == 0,
        None => true,
    }
}

fn check_governance(out: &mut Vec<AuditFinding>, page: &Page, a: &AnswerFrontMatter)
    ensures
        values(final(out)@) == values(old(out)@) + governance_findings(*page, *a),
{
    if is_unset(&a.owner) {
        push_finding(
            out,
            AuditSeverity::Warn,
            "missing_owner",
            text("answers should name an `owner` responsible for keeping them accurate"),
            page,
            a,
        );
    }
    if is_unset(&a.confidence_notes) {
        push_finding(
            out,
            AuditSeverity::Warn,
            "missing_confidence_notes",
            text("answers should record `confidence_notes` on how they were verified"),
            page,
            a,
        );
    }
    assert(values(final(out)@) =~= values(old(out)@) + governance_findings(*page, *a));
}

fn check_freshness_and_governance(
    out: &mut Vec<AuditFinding>,
    page: &Page,
    a: &AnswerFrontMatter,
    today: CalendarDate,
)
    requires
        today.well_formed(),
    ensures
        values(final(out)@) == values(old(out)@) + (review_findings(*page, *a, today)
            + governance_findings(*page, *a)),
{
    check_review(out, page, a, today);
    check_governance(out, page, a);
    assert(values(final(out)@) =~= values(old(out)@) + (review_findings(*page, *a, today)
        + governance_findings(*page, *a)));
}

fn check_schema(out: &mut Vec<AuditFinding>, page: &Page, a: &AnswerFrontMatter)
    requires
        page.sidecar_ok(),
    ensures
        values(final(out)@) == values(old(out)@) + schema_findings(*page, *a),
{
    if a.schema_type.is_none() && page.structured_data_sidecar.is_none() {
        push_finding(
            out,
            AuditSeverity::Warn,
            "missing_json_ld_type",
            text("answer pages should define `schema_type` or a structured-data sidecar"),
            page,
            a,
        );
    }
    match structured_data_for_page(page) {
        Err(e) => {
            let m = chars_of(e.as_str());
            push_finding(out, AuditSeverity::Error, "structured_data_invalid", m, page, a);
        },
        Ok(_) => {},
    }
    assert(values(final(out)@) =~= values(old(out)@) + schema_findings(*page, *a));
}

fn check_budget(out: &mut Vec<AuditFinding>, page: &Page, a: &AnswerFrontMatter, md: &String)
    ensures
        values(final(out)@) == values(old(out)@) + if token_estimate(md@) > budget_limit(
            a.token_budget,
        ) {
            seq![
                fnd(
                    if a.token_budget == TokenBudget::Small {
                        AuditSeverity::Error
                    } else {
                        AuditSeverity::Warn
                    },
                    "token_budget_overflow"@,
                    overflow_message(token_estimate(md@), a.token_budget),
                    *page,
                    *a,
                ),
            ]
        } else {
            seq![]
        },
{
    let tokens = estimate_tokens(md.as_str());
    let limit = token_budget_limit(&a.token_budget);
    if tokens > limit {
        let mut m = text("estimated machine markdown size ");
        let tv = decimal_exec(tokens);
        extend(&mut m, &tv);
        extend_str(&mut m, " exceeds the `");
        extend_str(&mut m, token_budget_key(&a.token_budget));
        extend_str(&mut m, "` budget threshold of ");
        let lv = decimal_exec(limit);
        extend(&mut m, &lv);
        extend_str(&mut m, " tokens");
        let sev = if matches!(a.token_budget, TokenBudget::Small) {
            AuditSeverity::Error
        } else {
            AuditSeverity::Warn
        };
        assert(m@ =~= overflow_message(token_estimate(md@), a.token_budget));
        push_finding(out, sev, "token_budget_overflow", m, page, a);
    }
    assert(values(final(out)@) =~= values(old(out)@) + if token_estimate(md@) > budget_limit(
        a.token_budget,
    ) {
        seq![
            fnd(
                if a.token_budget == TokenBudget::Small {
                    AuditSeverity::Error
                } else {
                    AuditSeverity::Warn
                },
                "token_budget_overflow"@,
                overflow_message(token_estimate(md@), a.token_budget),
                *page,
                *a,
            ),
        ]
    } else {
        seq![]
    });
}

fn check_machine_output(out: &mut Vec<AuditFinding>, page: &Page, a: &AnswerFrontMatter)
    ensures
        values(final(out)@) == values(old(out)@) + machine_output_findings(*page, *a),
{
    match &page.canonical_machine_markdown {
        Some(md) => {
            check_budget(out, page, a, md);
            if matches!(a.ai_visibility, AiVisibility::SummaryOnly) {
                let mut pointer = text("Canonical page: <");
                extend_str(&mut pointer, page.permalink.as_str());
                extend_str(&mut pointer, ">");
                let mdc = chars_of(md.as_str());
                if !contains_exec(&mdc, &pointer) {
                    push_finding(
                        out,
                        AuditSeverity::Error,
                        "summary_only_leak",
                        text("summary-only machine output is missing the canonical page pointer"),
                        page,
                        a,
                    );
                }
            }
        },
        None => {
            if !matches!(a.ai_visibility, AiVisibility::Hidden) {
                push_finding(
                    out,
                    AuditSeverity::Error,
                    "missing_machine_output",
                    text("AI-visible answers must produce canonical machine markdown"),
                    page,
                    a,
                );
            }
        },
    }
    if matches!(a.ai_visibility, AiVisibility::Hidden) && page.canonical_machine_markdown.is_some() {
        push_finding(
            out,
            AuditSeverity::Error,
            "hidden_content_leak",
            text("hidden answers must not emit canonical machine markdown"),
            page,
            a,
        );
    }
    assert(values(final(out)@) =~= values(old(out)@) + machine_output_findings(*page, *a));
}

#[verifier::rlimit(40)]
fn check_page(out: &mut Vec<AuditFinding>, page: &Page, today: CalendarDate)
    requires
        page.sidecar_ok(),
        today.well_formed(),
    ensures
        values(final(out)@) == values(old(out)@) + page_findings(*page, today),
{
    let a = match &page.answer {
        Some(a) => a,
        None => {
            assert(values(out@) =~= values(old(out)@) + page_findings(*page, today));
            return;
        },
    };
    let ghost s0 = values(out@);
    check_visibility(out, page, a);
    let ghost s1 = values(out@);
    check_related_links(out, page, a);
    let ghost s2 = values(out@);
    check_freshness_and_governance(out, page, a, today);
    let ghost s3 = values(out@);
    check_schema(out, page, a);
    let ghost s4 = values(out@);
    check_machine_output(out, page, a);
    proof {
        lemma_append5(
            s0,
            s1,
            s2,
            s3,
            s4,
            values(out@),
            visibility_findings(*page, *a),
            related_link_findings(*page, *a),
            review_findings(*page, *a, today) + governance_findings(*page, *a),
            schema_findings(*page, *a),
            machine_output_findings(*page, *a),
        );
    }
}

proof fn lemma_append5<T>(
    s0: Seq<T>,
    s1: Seq<T>,
    s2: Seq<T>,
    s3: Seq<T>,
    s4: Seq<T>,
    s5: Seq<T>,
    a: Seq<T>,
    b: Seq<T>,
    c: Seq<T>,
    d: Seq<T>,
    e: Seq<T>,
)
    requires
        s1 == s0 + a,
        s2 == s1 + b,
        s3 == s2 + c,
        s4 == s3 + d,
        s5 == s4 + e,
    ensures
        s5 == s0 + (a + b + c + d + e),
{
    assert(s5 =~= s0 + (a + b + c + d + e));
}

fn is_excluded_exec(recs: &[AnswerRecord], id: &String) -> (r: bool)
    ensures
        r == is_excluded_id(values(recs@), id@),
{
    let ghost s = values(recs@);
    let mut i: usize = 0;
    while i < recs.len()
        invariant
            i <= recs@.len(),
            s == values(recs@),
            forall|k: int|
                0 <= k < i ==> !(s[k].id == id@ && !spec_machine_ai_visible(
                    #[trigger] s[k].visibility,
                    s[k].ai_visibility,
                )),
        decreases recs.len() - i,
    {
        assert(s[i as int] == recs@[i as int]@);
        if recs[i].id == *id && !recs[i].is_machine_ai_visible() {
            assert(s[i as int].id == id@ && !spec_machine_ai_visible(
                s[i as int].visibility,
                s[i as int].ai_visibility,
            ));
            return true;
        }
        i += 1;
    }
    proof {
        if is_excluded_id(s, id@) {
            let k = choose|k: int|
                0 <= k < s.len() && s[k].id == id@ && !spec_machine_ai_visible(
                    #[trigger] s[k].visibility,
                    s[k].ai_visibility,
                );
            assert(!(s[k].id == id@ && !spec_machine_ai_visible(s[k].visibility, s[k].ai_visibility)));
        }
    }
    false
}

fn related_leaks_exec(out: &mut Vec<AuditFinding>, recs: &[AnswerRecord])
    ensures
        values(final(out)@) == values(old(out)@) + related_leaks(values(recs@), values(recs@)),
{
    let ghost all = values(recs@);
    let mut i: usize = 0;
    while i < recs.len()
        invariant
            i <= recs@.len(),
            all == values(recs@),
            values(out@) == values(old(out)@) + related_leaks(all, values(recs@.take(i as int))),
        decreases recs.len() - i,
    {
        let rec = &recs[i];
        let ghost base = values(out@);
        let mut j: usize = 0;
        while j < rec.related.len()
            invariant
                j <= rec.related@.len(),
                all == values(recs@),
                values(out@) == base + record_leaks(all, rec@, j as nat),
            decreases rec.related.len() - j,
        {
            let ghost before = values(out@);
            let rid = &rec.related[j];
            assert(rec@.related[j as int] == rid@);
            if is_excluded_exec(recs, rid) {
                let mut m = text("`related` references answer `");
                extend_str(&mut m, rid.as_str());
                extend_str(
                    &mut m,
                    "` that is excluded from machine outputs, which would leak non-public graph metadata",
                );
                let f = AuditFinding {
                    severity: AuditSeverity::Error,
                    code: "related_visibility_leak".to_owned(),
                    message: string_of(&m),
                    answer_id: Some(rec.id.clone()),
                    source_path: Some(rec.source_path.clone()),
                };
                out.push(f);
                assert(values(out@) =~= before.push(leak_finding(rec@, rid@)));
            }
            j += 1;
        }
        assert(values(recs@.take(i + 1)).drop_last() =~= values(recs@.take(i as int)));
        assert(values(recs@.take(i + 1)).last() == rec@);
        i += 1;
    }
    assert(recs@.take(i as int) =~= recs@);
}

/// Counts the findings of each severity.
pub fn summary_of(findings: &Vec<AuditFinding>) -> (r: AuditSummary)
    ensures
        summarizes(r, values(findings@)),
{
    let mut r = AuditSummary { errors: 0, warnings: 0, infos: 0 };
    let mut i: usize = 0;
    while i < findings.len()
        invariant
            i <= findings@.len(),
            summarizes(r, values(findings@.take(i as int))),
            r.errors + r.warnings + r.infos == i,
        decreases findings.len() - i,
    {
        assert(values(findings@.take(i + 1)).drop_last() =~= values(findings@.take(i as int)));
        assert(values(findings@.take(i + 1)).last() == findings@[i as int]@);
        match findings[i].severity {
            AuditSeverity::Error => r.errors = r.errors + 1,
            AuditSeverity::Warn => r.warnings = r.warnings + 1,
            AuditSeverity::Info => r.infos = r.infos + 1,
        }
        i += 1;
    }
    assert(findings@.take(i as int) =~= findings@);
    r
}

/// Audits the answer pages of a site against its corpus: every finding,
/// sorted by severity, code, answer id, source path and message, with a
/// summary that counts them.
pub fn audit_library(library: &Library, answers: &AnswerCorpus, today: CalendarDate) -> (r:
    AuditReport)
    requires
        library.well_formed(),
        today.well_formed(),
    ensures
        values(r.findings@) == sorted_arrangement::<AuditFinding>(
            audit_findings(library.pages@, answers@, today),
        ),
        values(r.findings@).to_multiset() == audit_findings(
            library.pages@,
            answers@,
            today,
        ).to_multiset(),
        forall|i: int|
            0 <= i < library.pages@.len() && stale_review(#[trigger] library.pages@[i], today)
                ==> exists|k: int|
                0 <= k < r.findings@.len() && reports_stale(
                    #[trigger] r.findings@[k]@,
                    library.pages@[i],
                ),
        summarizes(r.summary, values(r.findings@)),
{
    let mut found: Vec<AuditFinding> = Vec::new();
    let pages = &library.pages;
    let mut i: usize = 0;
    while i < pages.len()
        invariant
            i <= pages@.len(),
            pages@ == library.pages@,
            library.well_formed(),
            today.well_formed(),
            values(found@) == pages_findings(pages@.take(i as int), today),
        decreases pages.len() - i,
    {
        assert(pages@[i as int].sidecar_ok());
        check_page(&mut found, &pages[i], today);
        assert(pages@.take(i + 1).drop_last() =~= pages@.take(i as int));
        assert(pages@.take(i + 1).last() == pages@[i as int]);
        i += 1;
    }
    assert(pages@.take(i as int) =~= pages@);
    let recs = answers.iter();
    related_leaks_exec(&mut found, recs);
    let ghost unsorted = values(found@);
    let findings = sort_total(found);
    proof {
        broadcast use vstd::seq_lib::group_to_multiset_ensures;

        let af = audit_findings(library.pages@, answers@, today);
        assert(unsorted == af);
        assert(values(findings@).to_multiset() == af.to_multiset());
        assert forall|i: int|
            0 <= i < library.pages@.len() && stale_review(
                #[trigger] library.pages@[i],
                today,
            ) implies exists|k: int|
            0 <= k < findings@.len() && reports_stale(
                #[trigger] findings@[k]@,
                library.pages@[i],
            ) by {
            crate::laws::law_stale_reviews_are_reported(library.pages@, answers@, today, i);
            let j = choose|j: int| 0 <= j < af.len() && reports_stale(#[trigger] af[j], library.pages@[i]);
            assert(af.contains(af[j]));
            assert(af.to_multiset().count(af[j]) > 0);
            assert(values(findings@).to_multiset().count(af[j]) > 0);
            assert(values(findings@).contains(af[j]));
            let k = choose|k: int| 0 <= k < values(findings@).len() && values(findings@)[k] == af[j];
            assert(findings@[k]@ == af[j]);
        }
    }
    let summary = summary_of(&findings);
    AuditReport { summary, findings }
}

} // verus!
