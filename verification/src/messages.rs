//! What commands tell the user: site-content diagnostics and the console lines
//! of a run, as values that the caller logs.

use vstd::prelude::*;

use crate::corpus::AnswerCorpus;
use crate::diagnostics::{
    diags, severity_label, strs, CommandFailure, Diagnostic, DiagnosticSeverity, DiagnosticV,
};
use crate::library::{Library, Section};
use crate::report::SiteContentSummary;
use crate::text::{decimal, decimal_exec, extend, extend_str, join, join_exec, string_of, views};

verus! {

/// The level a console line is logged at.
#[derive(Clone, Copy, Debug, PartialEq, Eq, Structural)]
pub enum LogLevel {
    Error,
    Warn,
    Info,
}

/// One console line.
#[derive(Debug)]
pub struct LogLine {
    pub level: LogLevel,
    pub text: String,
}

impl View for LogLine {
    type V = (LogLevel, Seq<char>);

    open spec fn view(&self) -> (LogLevel, Seq<char>) {
        (self.level, self.text@)
    }
}

pub open spec fn lines_v(v: Seq<LogLine>) -> Seq<(LogLevel, Seq<char>)> {
    v.map_values(|l: LogLine| l@)
}

/// Counts of a loaded site: the home section is not counted as a section.
pub open spec fn spec_content_summary(library: &Library, records: nat) -> SiteContentSummary {
    SiteContentSummary {
        pages: library.pages@.len() as usize,
        orphan_pages: library.orphan_pages@.len() as usize,
        sections: if library.sections@.len() == 0 {
            0usize
        } else {
            (library.sections@.len() - 1) as usize
        },
        answer_records: records as usize,
    }
}

/// Page, orphan, section and answer counts of a loaded site.
pub fn collect_site_content_summary(library: &Library, answers: &AnswerCorpus) -> (r:
    SiteContentSummary)
    ensures
        r == spec_content_summary(library, answers@.len()),
{
    SiteContentSummary {
        pages: library.pages.len(),
        orphan_pages: library.orphan_pages.len(),
        sections: library.sections.len().saturating_sub(1),
        answer_records: answers.len(),
    }
}

/// The ignored pages of the sections `s`, section by section.
pub open spec fn ignored_of(s: Seq<Section>) -> Seq<Seq<char>>
    decreases s.len(),
{
    if s.len() == 0 {
        seq![]
    } else {
        ignored_of(s.drop_last()) + strs(s.last().ignored_pages@)
    }
}

/// Source paths of the pages left out of sorted sections, section by section.
pub fn ignored_page_paths(library: &Library) -> (r: Vec<String>)
    ensures
        strs(r@) == ignored_of(library.sections@),
{
    let mut out: Vec<String> = Vec::new();
    let mut i: usize = 0;
    while i < library.sections.len()
        invariant
            i <= library.sections@.len(),
            strs(out@) == ignored_of(library.sections@.take(i as int)),
        decreases library.sections.len() - i,
    {
        let pages = &library.sections[i].ignored_pages;
        let ghost start = out@;
        let mut j: usize = 0;
        while j < pages.len()
            invariant
                j <= pages@.len(),
                i < library.sections@.len(),
                pages == library.sections@[i as int].ignored_pages,
                strs(out@) == strs(start) + strs(pages@.take(j as int)),
            decreases pages.len() - j,
        {
            let ghost prev = out@;
            out.push(pages[j].clone());
            proof {
                assert(pages@.take(j + 1) =~= pages@.take(j as int).push(pages@[j as int]));
                assert(strs(pages@.take(j + 1)) =~= strs(pages@.take(j as int)).push(
                    pages@[j as int]@,
                ));
                assert(strs(out@) =~= strs(prev).push(pages@[j as int]@));
            }
            j += 1;
        }
        assert(pages@.take(j as int) =~= pages@);
        assert(library.sections@.take(i + 1).drop_last() =~= library.sections@.take(i as int));
        i += 1;
    }
    assert(library.sections@.take(i as int) =~= library.sections@);
    out
}

/// The warning raised for a page left out of a sorted section.
pub open spec fn ignored_page_diagnostic(path: Seq<char>) -> DiagnosticV {
    DiagnosticV::make(
        DiagnosticSeverity::Warn,
        "ignored_page"@,
        "Page ignored because a sorted section is missing date or weight metadata"@,
    ).at_path(path).in_phase("validate"@).suggesting(
        "Add date/weight metadata or remove sorting requirements for the section"@,
    )
}

/// The warning raised for a page no section links to.
pub open spec fn orphan_page_diagnostic(path: Seq<char>) -> DiagnosticV {
    DiagnosticV::make(
        DiagnosticSeverity::Warn,
        "orphan_page"@,
        "Page is not linked from any section"@,
    ).at_path(path).in_phase("validate"@).suggesting(
        "Link the page from a section or mark it intentionally unreachable"@,
    )
}

fn ignored_diagnostic(path: &str) -> (r: Diagnostic)
    ensures
        r@ == ignored_page_diagnostic(path@),
{
    Diagnostic::warn(
        "ignored_page",
        "Page ignored because a sorted section is missing date or weight metadata",
    ).with_path(path).with_phase("validate").with_suggestion(
        "Add date/weight metadata or remove sorting requirements for the section",
    )
}

fn orphan_diagnostic(path: &str) -> (r: Diagnostic)
    ensures
        r@ == orphan_page_diagnostic(path@),
{
    Diagnostic::warn("orphan_page", "Page is not linked from any section").with_path(
        path,
    ).with_phase("validate").with_suggestion(
        "Link the page from a section or mark it intentionally unreachable",
    )
}

/// One warning per page left out of a sorted section, in section order.
pub fn collect_ignored_page_diagnostics(library: &Library) -> (r: Vec<Diagnostic>)
    ensures
        diags(r@) == ignored_of(library.sections@).map_values(
            |p: Seq<char>| ignored_page_diagnostic(p),
        ),
{
    let paths = ignored_page_paths(library);
    let mut out: Vec<Diagnostic> = Vec::new();
    let mut i: usize = 0;
    while i < paths.len()
        invariant
            i <= paths@.len(),
            diags(out@) == strs(paths@.take(i as int)).map_values(
                |p: Seq<char>| ignored_page_diagnostic(p),
            ),
        decreases paths.len() - i,
    {
        let ghost prev = out@;
        out.push(ignored_diagnostic(paths[i].as_str()));
        proof {
            assert(paths@.take(i + 1) =~= paths@.take(i as int).push(paths@[i as int]));
            assert(strs(paths@.take(i + 1)) =~= strs(paths@.take(i as int)).push(
                paths@[i as int]@,
            ));
            assert(diags(out@) =~= diags(prev).push(ignored_page_diagnostic(paths@[i as int]@)));
        }
        i += 1;
        assert(diags(out@) =~= strs(paths@.take(i as int)).map_values(
            |p: Seq<char>| ignored_page_diagnostic(p),
        ));
    }
    assert(paths@.take(i as int) =~= paths@);
    out
}

/// One warning per orphan page, in the library's order.
pub fn collect_orphan_page_diagnostics(library: &Library) -> (r: Vec<Diagnostic>)
    ensures
        diags(r@) == strs(library.orphan_pages@).map_values(
            |p: Seq<char>| orphan_page_diagnostic(p),
        ),
{
    let paths = &library.orphan_pages;
    let mut out: Vec<Diagnostic> = Vec::new();
    let mut i: usize = 0;
    while i < paths.len()
        invariant
            i <= paths@.len(),
            paths == library.orphan_pages,
            diags(out@) == strs(paths@.take(i as int)).map_values(
                |p: Seq<char>| orphan_page_diagnostic(p),
            ),
        decreases paths.len() - i,
    {
        let ghost prev = out@;
        out.push(orphan_diagnostic(paths[i].as_str()));
        proof {
            assert(paths@.take(i + 1) =~= paths@.take(i as int).push(paths@[i as int]));
            assert(strs(paths@.take(i + 1)) =~= strs(paths@.take(i as int)).push(
                paths@[i as int]@,
            ));
            assert(diags(out@) =~= diags(prev).push(orphan_page_diagnostic(paths@[i as int]@)));
        }
        i += 1;
        assert(diags(out@) =~= strs(paths@.take(i as int)).map_values(
            |p: Seq<char>| orphan_page_diagnostic(p),
        ));
    }
    assert(paths@.take(i as int) =~= paths@);
    out
}


// ---------------------------------------------------------------------------
// Console lines
// ---------------------------------------------------------------------------

pub open spec fn num(n: usize) -> Seq<char> {
    decimal(n as nat)
}

/// The lines that announce the size of a site being built.
pub open spec fn site_size_lines(s: SiteContentSummary) -> Seq<(LogLevel, Seq<char>)> {
    seq![
        (LogLevel::Info, "-> Creating "@ + num(s.pages) + " pages ("@ + num(s.orphan_pages)
            + " orphan) and "@ + num(s.sections) + " sections"@),
        (LogLevel::Info, "-> Normalized "@ + num(s.answer_records) + " answer record(s)"@),
    ]
}

/// The lines that announce the size of a site being checked.
pub open spec fn check_size_lines(s: SiteContentSummary) -> Seq<(LogLevel, Seq<char>)> {
    seq![
        (LogLevel::Info, "-> Site content: "@ + num(s.pages) + " pages ("@ + num(s.orphan_pages)
            + " orphan), "@ + num(s.sections) + " sections"@),
        (LogLevel::Info, "-> Normalized "@ + num(s.answer_records) + " answer record(s)"@),
    ]
}

/// The location part of a diagnostic line: `path=<p>[:<line>[:<column>]]`.
pub open spec fn path_part(d: DiagnosticV) -> Seq<Seq<char>> {
    match d.path {
        Some(p) => seq![
            "path="@ + p + match d.line {
                Some(l) => ":"@ + num(l) + match d.column {
                    Some(c) => ":"@ + num(c),
                    None => Seq::<char>::empty(),
                },
                None => Seq::<char>::empty(),
            },
        ],
        None => seq![],
    }
}

/// An optional `<key>=<value>` part.
pub open spec fn opt_part(key: Seq<char>, v: Option<Seq<char>>) -> Seq<Seq<char>> {
    match v {
        Some(x) => seq![key + "="@ + x],
        None => seq![],
    }
}

/// The space-separated parts before a diagnostic's message.
pub open spec fn diagnostic_parts(d: DiagnosticV) -> Seq<Seq<char>> {
    seq![severity_label(d.severity) + " ["@ + d.code + "]"@] + path_part(d) + opt_part(
        "answer"@,
        d.answer_id,
    ) + opt_part("phase"@, d.phase)
}

pub open spec fn level_of(s: DiagnosticSeverity) -> LogLevel {
    match s {
        DiagnosticSeverity::Error => LogLevel::Error,
        DiagnosticSeverity::Warn => LogLevel::Warn,
        DiagnosticSeverity::Info => LogLevel::Info,
    }
}

/// The console lines of one diagnostic: the diagnostic at its own level, then
/// its suggestion, if any.
pub open spec fn spec_diagnostic_lines(d: DiagnosticV) -> Seq<(LogLevel, Seq<char>)> {
    seq![(level_of(d.severity), join(diagnostic_parts(d), " "@) + ": "@ + d.message)]
        + match d.suggestion {
        Some(x) => seq![(LogLevel::Info, "suggestion: "@ + x)],
        None => seq![],
    }
}

/// The console lines of a list of diagnostics, in order.
pub open spec fn diagnostics_lines(ds: Seq<DiagnosticV>) -> Seq<(LogLevel, Seq<char>)>
    decreases ds.len(),
{
    if ds.len() == 0 {
        seq![]
    } else {
        diagnostics_lines(ds.drop_last()) + spec_diagnostic_lines(ds.last())
    }
}

/// The `Reason:` lines of a diagnostic's causes.
pub open spec fn reason_lines(d: DiagnosticV) -> Seq<(LogLevel, Seq<char>)> {
    match d.caused_by {
        Some(cs) => cs.map_values(|c: Seq<char>| (LogLevel::Error, "Reason: "@ + c)),
        None => seq![],
    }
}

/// The console lines of a failure's diagnostics, each followed by its causes.
pub open spec fn failure_lines(ds: Seq<DiagnosticV>) -> Seq<(LogLevel, Seq<char>)>
    decreases ds.len(),
{
    if ds.len() == 0 {
        seq![]
    } else {
        failure_lines(ds.drop_last()) + spec_diagnostic_lines(ds.last()) + reason_lines(
            ds.last(),
        )
    }
}

fn push_line(out: &mut Vec<LogLine>, level: LogLevel, text: &[char])
    ensures
        lines_v(final(out)@) == lines_v(old(out)@).push((level, text@)),
{
    let ghost before = out@;
    out.push(LogLine { level, text: string_of(text) });
    assert(lines_v(out@) =~= lines_v(before).push((level, text@)));
}

fn num_exec(n: usize) -> (r: Vec<char>)
    ensures
        r@ == num(n),
{
    decimal_exec(n)
}

fn size_lines(s: &SiteContentSummary, checking: bool) -> (r: Vec<LogLine>)
    ensures
        lines_v(r@) == if checking {
            check_size_lines(*s)
        } else {
            site_size_lines(*s)
        },
{
    let mut out: Vec<LogLine> = Vec::new();
    let mut t: Vec<char> = Vec::new();
    if checking {
        extend_str(&mut t, "-> Site content: ");
    } else {
        extend_str(&mut t, "-> Creating ");
    }
    extend(&mut t, &num_exec(s.pages));
    extend_str(&mut t, " pages (");
    extend(&mut t, &num_exec(s.orphan_pages));
    if checking {
        extend_str(&mut t, " orphan), ");
    } else {
        extend_str(&mut t, " orphan) and ");
    }
    extend(&mut t, &num_exec(s.sections));
    extend_str(&mut t, " sections");
    push_line(&mut out, LogLevel::Info, &t);
    let mut u: Vec<char> = Vec::new();
    extend_str(&mut u, "-> Normalized ");
    extend(&mut u, &num_exec(s.answer_records));
    extend_str(&mut u, " answer record(s)");
    push_line(&mut out, LogLevel::Info, &u);
    assert(lines_v(out@) =~= if checking {
        check_size_lines(*s)
    } else {
        site_size_lines(*s)
    });
    out
}

fn opt_part_exec(parts: &mut Vec<Vec<char>>, key: &str, v: &Option<String>)
    ensures
        views(final(parts)@) == views(old(parts)@) + opt_part(key@, crate::diagnostics::ostr(*v)),
{
    let ghost before = parts@;
    match v {
        Some(x) => {
            let mut t: Vec<char> = Vec::new();
            extend_str(&mut t, key);
            extend_str(&mut t, "=");
            extend_str(&mut t, x.as_str());
            proof {
                reveal_strlit("=");
            }
            parts.push(t);
            assert(views(parts@) =~= views(before) + opt_part(key@, crate::diagnostics::ostr(*v)));
        },
        None => {
            assert(views(parts@) =~= views(before) + opt_part(key@, crate::diagnostics::ostr(*v)));
        },
    }
}

/// The console lines of one diagnostic.
pub fn diagnostic_lines(d: &Diagnostic) -> (r: Vec<LogLine>)
    ensures
        lines_v(r@) == spec_diagnostic_lines(d@),
{
    let mut parts: Vec<Vec<char>> = Vec::new();
    let mut head: Vec<char> = Vec::new();
    extend_str(&mut head, d.severity.label());
    extend_str(&mut head, " [");
    extend_str(&mut head, d.code.as_str());
    extend_str(&mut head, "]");
    parts.push(head);
    let ghost p0 = views(parts@);
    match &d.path {
        Some(p) => {
            let mut t: Vec<char> = Vec::new();
            extend_str(&mut t, "path=");
            extend_str(&mut t, p.as_str());
            match d.line {
                Some(l) => {
                    extend_str(&mut t, ":");
                    extend(&mut t, &num_exec(l));
                    match d.column {
                        Some(c) => {
                            extend_str(&mut t, ":");
                            extend(&mut t, &num_exec(c));
                        },
                        None => {},
                    }
                },
                None => {},
            }
            assert(t@ =~= path_part(d@)[0]);
            let ghost t_v = t@;
            parts.push(t);
            assert(views(parts@) =~= p0.push(t_v));
        },
        None => {},
    }
    assert(views(parts@) =~= p0 + path_part(d@));
    opt_part_exec(&mut parts, "answer", &d.answer_id);
    opt_part_exec(&mut parts, "phase", &d.phase);
    assert(views(parts@) =~= diagnostic_parts(d@));
    let mut line = join_exec(&parts, &[' ']);
    extend_str(&mut line, ": ");
    extend_str(&mut line, d.message.as_str());
    let level = match d.severity {
        DiagnosticSeverity::Error => LogLevel::Error,
        DiagnosticSeverity::Warn => LogLevel::Warn,
        DiagnosticSeverity::Info => LogLevel::Info,
    };
    let mut out: Vec<LogLine> = Vec::new();
    assert([' ']@ =~= " "@) by {
        reveal_strlit(" ");
    }
    push_line(&mut out, level, &line);
    match &d.suggestion {
        Some(x) => {
            let mut t: Vec<char> = Vec::new();
            extend_str(&mut t, "suggestion: ");
            extend_str(&mut t, x.as_str());
            push_line(&mut out, LogLevel::Info, &t);
        },
        None => {},
    }
    assert(lines_v(out@) =~= spec_diagnostic_lines(d@));
    out
}

fn append_lines(out: &mut Vec<LogLine>, more: Vec<LogLine>)
    ensures
        lines_v(final(out)@) == lines_v(old(out)@) + lines_v(more@),
{
    let mut more = more;
    let ghost before = lines_v(out@);
    let ghost added = lines_v(more@);
    out.append(&mut more);
    assert(lines_v(out@) =~= before + added);
}

fn diagnostics_lines_exec(out: &mut Vec<LogLine>, diagnostics: &[Diagnostic])
    ensures
        lines_v(final(out)@) == lines_v(old(out)@) + diagnostics_lines(diags(diagnostics@)),
{
    let mut i: usize = 0;
    while i < diagnostics.len()
        invariant
            i <= diagnostics@.len(),
            lines_v(out@) == lines_v(old(out)@) + diagnostics_lines(
                diags(diagnostics@.take(i as int)),
            ),
        decreases diagnostics.len() - i,
    {
        let ghost before = lines_v(out@);
        let more = diagnostic_lines(&diagnostics[i]);
        append_lines(out, more);
        proof {
            assert(diags(diagnostics@.take(i + 1)).drop_last() =~= diags(
                diagnostics@.take(i as int),
            ));
            assert(diags(diagnostics@.take(i + 1)).last() == diagnostics@[i as int]@);
            assert(lines_v(out@) =~= lines_v(old(out)@) + diagnostics_lines(
                diags(diagnostics@.take(i + 1)),
            ));
        }
        i += 1;
    }
    assert(diagnostics@.take(i as int) =~= diagnostics@);
}

/// The lines that announce the size of a loaded site.
pub fn notify_site_size(library: &Library, answers: &AnswerCorpus) -> (r: Vec<LogLine>)
    ensures
        lines_v(r@) == site_size_lines(spec_content_summary(library, answers@.len())),
{
    let summary = collect_site_content_summary(library, answers);
    size_lines(&summary, false)
}

/// A warning that lists the pages left out of sorted sections, if there are any.
pub open spec fn ignored_warning_lines(paths: Seq<Seq<char>>) -> Seq<(LogLevel, Seq<char>)> {
    if paths.len() == 0 {
        seq![]
    } else {
        seq![
            (LogLevel::Warn, decimal(paths.len()) + " page(s) ignored (missing date or weight in a sorted section):"@),
        ] + paths.map_values(|p: Seq<char>| (LogLevel::Warn, "- "@ + p))
    }
}

/// The warning lines about pages left out of sorted sections.
pub fn warn_about_ignored_pages(library: &Library) -> (r: Vec<LogLine>)
    ensures
        lines_v(r@) == ignored_warning_lines(ignored_of(library.sections@)),
{
    let paths = ignored_page_paths(library);
    let mut out: Vec<LogLine> = Vec::new();
    if paths.len() == 0 {
        assert(lines_v(out@) =~= ignored_warning_lines(strs(paths@)));
        return out;
    }
    let mut t: Vec<char> = Vec::new();
    extend(&mut t, &decimal_exec(paths.len()));
    extend_str(&mut t, " page(s) ignored (missing date or weight in a sorted section):");
    push_line(&mut out, LogLevel::Warn, &t);
    let mut i: usize = 0;
    while i < paths.len()
        invariant
            i <= paths@.len(),
            paths@.len() > 0,
            lines_v(out@) == seq![
                (LogLevel::Warn, decimal(paths@.len()) + " page(s) ignored (missing date or weight in a sorted section):"@),
            ] + strs(paths@.take(i as int)).map_values(|p: Seq<char>| (LogLevel::Warn, "- "@ + p)),
        decreases paths.len() - i,
    {
        let mut u: Vec<char> = Vec::new();
        extend_str(&mut u, "- ");
        extend_str(&mut u, paths[i].as_str());
        push_line(&mut out, LogLevel::Warn, &u);
        proof {
            assert(strs(paths@.take(i + 1)) =~= strs(paths@.take(i as int)).push(
                paths@[i as int]@,
            ));
        }
        i += 1;
        assert(lines_v(out@) =~= seq![
            (LogLevel::Warn, decimal(paths@.len()) + " page(s) ignored (missing date or weight in a sorted section):"@),
        ] + strs(paths@.take(i as int)).map_values(|p: Seq<char>| (LogLevel::Warn, "- "@ + p)));
    }
    assert(paths@.take(i as int) =~= paths@);
    assert(strs(paths@).len() == paths@.len());
    out
}

/// The lines of a successful build: the site's size, then each diagnostic.
pub fn print_build_success(summary: &SiteContentSummary, diagnostics: &[Diagnostic]) -> (r: Vec<
    LogLine,
>)
    ensures
        lines_v(r@) == site_size_lines(*summary) + diagnostics_lines(diags(diagnostics@)),
{
    let mut out = size_lines(summary, false);
    diagnostics_lines_exec(&mut out, diagnostics);
    out
}

/// The lines of a successful check: the site's content, then each diagnostic.
pub fn print_check_success(summary: &SiteContentSummary, diagnostics: &[Diagnostic]) -> (r: Vec<
    LogLine,
>)
    ensures
        lines_v(r@) == check_size_lines(*summary) + diagnostics_lines(diags(diagnostics@)),
{
    let mut out = size_lines(summary, true);
    diagnostics_lines_exec(&mut out, diagnostics);
    out
}

/// The lines of a failed command: the prefix (when not empty) as an error,
/// then each diagnostic followed by its causes.
pub fn print_command_failure(prefix: &str, failure: &CommandFailure) -> (r: Vec<LogLine>)
    ensures
        lines_v(r@) == (if prefix@.len() == 0 {
            Seq::<(LogLevel, Seq<char>)>::empty()
        } else {
            seq![(LogLevel::Error, prefix@)]
        }) + failure_lines(diags(failure.diagnostics@)),
{
    let mut out: Vec<LogLine> = Vec::new();
    let p = crate::text::chars_of(prefix);
    if p.len() > 0 {
        push_line(&mut out, LogLevel::Error, &p);
    }
    let ghost start = lines_v(out@);
    let ds = &failure.diagnostics;
    let mut i: usize = 0;
    while i < ds.len()
        invariant
            i <= ds@.len(),
            ds == failure.diagnostics,
            lines_v(out@) == start + failure_lines(diags(ds@.take(i as int))),
        decreases ds.len() - i,
    {
        let more = diagnostic_lines(&ds[i]);
        append_lines(&mut out, more);
        let ghost mid = lines_v(out@);
        match &ds[i].caused_by {
            Some(causes) => {
                let mut j: usize = 0;
                while j < causes.len()
                    invariant
                        j <= causes@.len(),
                        lines_v(out@) == mid + strs(causes@.take(j as int)).map_values(
                            |c: Seq<char>| (LogLevel::Error, "Reason: "@ + c),
                        ),
                    decreases causes.len() - j,
                {
                    let mut t: Vec<char> = Vec::new();
                    extend_str(&mut t, "Reason: ");
                    extend_str(&mut t, causes[j].as_str());
                    push_line(&mut out, LogLevel::Error, &t);
                    proof {
                        assert(strs(causes@.take(j + 1)) =~= strs(causes@.take(j as int)).push(
                            causes@[j as int]@,
                        ));
                    }
                    j += 1;
                    assert(lines_v(out@) =~= mid + strs(causes@.take(j as int)).map_values(
                        |c: Seq<char>| (LogLevel::Error, "Reason: "@ + c),
                    ));
                }
                assert(causes@.take(j as int) =~= causes@);
            },
            None => {
                assert(lines_v(out@) =~= mid + reason_lines(ds@[i as int]@));
            },
        }
        proof {
            assert(diags(ds@.take(i + 1)).drop_last() =~= diags(ds@.take(i as int)));
            assert(diags(ds@.take(i + 1)).last() == ds@[i as int]@);
            assert(lines_v(out@) =~= start + failure_lines(diags(ds@.take(i + 1))));
        }
        i += 1;
    }
    assert(ds@.take(i as int) =~= ds@);
    out
}

} // verus!
