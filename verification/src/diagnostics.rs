//! Structured diagnostics: the findings a command reports, their summary, and
//! the recognition of known failure messages as structured diagnostics.

use vstd::prelude::*;

use crate::text::{
    eq, lemma_split_nonempty, find, find_exec, lemma_find, lemma_rfind_char, replace, replace_exec, rfind_char,
    rfind_char_exec, extend, string_of, strip_suffix, strip_suffix_exec, chars_of, first_word, first_word_exec, lines, lines_exec, opt_view, parse_usize,
    parse_usize_exec, slice_copy, split, split_exec, split_once, split_once_exec, starts_with,
    starts_with_exec, strip_prefix, strip_prefix_exec, trim, trim_end_char, trim_end_char_exec,
    trim_exec, trim_start, trim_start_exec, views,
};

verus! {

/// How serious a diagnostic is.
#[derive(Clone, Copy, Debug, PartialEq, Eq, Structural)]
pub enum DiagnosticSeverity {
    Error,
    Warn,
    Info,
}

pub open spec fn severity_label(s: DiagnosticSeverity) -> Seq<char> {
    match s {
        DiagnosticSeverity::Error => "error"@,
        DiagnosticSeverity::Warn => "warn"@,
        DiagnosticSeverity::Info => "info"@,
    }
}

impl DiagnosticSeverity {
    /// The lower-case name of the severity.
    pub fn label(&self) -> (r: &'static str)
        ensures
            r@ == severity_label(*self),
    {
        match self {
            DiagnosticSeverity::Error => "error",
            DiagnosticSeverity::Warn => "warn",
            DiagnosticSeverity::Info => "info",
        }
    }
}

/// One finding of a command, with optional location and remediation hints.
#[derive(Debug)]
pub struct Diagnostic {
    pub code: String,
    pub severity: DiagnosticSeverity,
    pub message: String,
    pub path: Option<String>,
    pub line: Option<usize>,
    pub column: Option<usize>,
    pub answer_id: Option<String>,
    pub phase: Option<String>,
    pub suggestion: Option<String>,
    pub fix_example: Option<String>,
    pub docs_url: Option<String>,
    pub related_paths: Option<Vec<String>>,
    pub caused_by: Option<Vec<String>>,
}

/// The mathematical value of a [`Diagnostic`].
pub struct DiagnosticV {
    pub code: Seq<char>,
    pub severity: DiagnosticSeverity,
    pub message: Seq<char>,
    pub path: Option<Seq<char>>,
    pub line: Option<usize>,
    pub column: Option<usize>,
    pub answer_id: Option<Seq<char>>,
    pub phase: Option<Seq<char>>,
    pub suggestion: Option<Seq<char>>,
    pub fix_example: Option<Seq<char>>,
    pub docs_url: Option<Seq<char>>,
    pub related_paths: Option<Seq<Seq<char>>>,
    pub caused_by: Option<Seq<Seq<char>>>,
}

pub open spec fn ostr(o: Option<String>) -> Option<Seq<char>> {
    match o {
        Some(s) => Some(s@),
        None => None,
    }
}

pub open spec fn strs(v: Seq<String>) -> Seq<Seq<char>> {
    v.map_values(|s: String| s@)
}

pub open spec fn ostrs(o: Option<Vec<String>>) -> Option<Seq<Seq<char>>> {
    match o {
        Some(v) => Some(strs(v@)),
        None => None,
    }
}

impl View for Diagnostic {
    type V = DiagnosticV;

    open spec fn view(&self) -> DiagnosticV {
        DiagnosticV {
            code: self.code@,
            severity: self.severity,
            message: self.message@,
            path: ostr(self.path),
            line: self.line,
            column: self.column,
            answer_id: ostr(self.answer_id),
            phase: ostr(self.phase),
            suggestion: ostr(self.suggestion),
            fix_example: ostr(self.fix_example),
            docs_url: ostr(self.docs_url),
            related_paths: ostrs(self.related_paths),
            caused_by: ostrs(self.caused_by),
        }
    }
}

pub open spec fn diags(v: Seq<Diagnostic>) -> Seq<DiagnosticV> {
    v.map_values(|d: Diagnostic| d@)
}

impl DiagnosticV {
    /// A diagnostic with only its severity, code and message set.
    pub open spec fn make(severity: DiagnosticSeverity, code: Seq<char>, message: Seq<char>) -> Self {
        DiagnosticV {
            code,
            severity,
            message,
            path: None,
            line: None,
            column: None,
            answer_id: None,
            phase: None,
            suggestion: None,
            fix_example: None,
            docs_url: None,
            related_paths: None,
            caused_by: None,
        }
    }

    pub open spec fn error(code: Seq<char>, message: Seq<char>) -> Self {
        Self::make(DiagnosticSeverity::Error, code, message)
    }

    pub open spec fn at_path(self, v: Seq<char>) -> Self {
        DiagnosticV { path: Some(v), ..self }
    }

    pub open spec fn at_line(self, v: usize) -> Self {
        DiagnosticV { line: Some(v), ..self }
    }

    pub open spec fn at_column(self, v: usize) -> Self {
        DiagnosticV { column: Some(v), ..self }
    }

    pub open spec fn for_answer(self, v: Seq<char>) -> Self {
        DiagnosticV { answer_id: Some(v), ..self }
    }

    pub open spec fn in_phase(self, v: Seq<char>) -> Self {
        DiagnosticV { phase: Some(v), ..self }
    }

    pub open spec fn suggesting(self, v: Seq<char>) -> Self {
        DiagnosticV { suggestion: Some(v), ..self }
    }

    pub open spec fn fixed_by(self, v: Seq<char>) -> Self {
        DiagnosticV { fix_example: Some(v), ..self }
    }

    pub open spec fn documented_at(self, v: Seq<char>) -> Self {
        DiagnosticV { docs_url: Some(v), ..self }
    }

    /// Sets `related_paths` when the list is not empty.
    pub open spec fn relating(self, v: Seq<Seq<char>>) -> Self {
        if v.len() > 0 {
            DiagnosticV { related_paths: Some(v), ..self }
        } else {
            self
        }
    }

    /// Sets `caused_by` when the list is not empty.
    pub open spec fn caused(self, v: Seq<Seq<char>>) -> Self {
        if v.len() > 0 {
            DiagnosticV { caused_by: Some(v), ..self }
        } else {
            self
        }
    }
}

/// `Some(s.to_string())` of a `str`.
pub fn some_string(s: &str) -> (r: Option<String>)
    ensures
        ostr(r) == Some(s@),
{
    Some(s.to_string())
}

impl Diagnostic {
    /// An error diagnostic.
    pub fn error(code: &str, message: &str) -> (r: Diagnostic)
        ensures
            r@ == DiagnosticV::error(code@, message@),
    {
        Self::new(DiagnosticSeverity::Error, code, message)
    }

    /// A warning diagnostic.
    pub fn warn(code: &str, message: &str) -> (r: Diagnostic)
        ensures
            r@ == DiagnosticV::make(DiagnosticSeverity::Warn, code@, message@),
    {
        Self::new(DiagnosticSeverity::Warn, code, message)
    }

    /// An informational diagnostic.
    pub fn info(code: &str, message: &str) -> (r: Diagnostic)
        ensures
            r@ == DiagnosticV::make(DiagnosticSeverity::Info, code@, message@),
    {
        Self::new(DiagnosticSeverity::Info, code, message)
    }

    /// A diagnostic with every optional field empty.
    pub fn new(severity: DiagnosticSeverity, code: &str, message: &str) -> (r: Diagnostic)
        ensures
            r@ == DiagnosticV::make(severity, code@, message@),
    {
        Diagnostic {
            code: code.to_string(),
            severity,
            message: message.to_string(),
            path: None,
            line: None,
            column: None,
            answer_id: None,
            phase: None,
            suggestion: None,
            fix_example: None,
            docs_url: None,
            related_paths: None,
            caused_by: None,
        }
    }

    pub fn with_path(self, path: &str) -> (r: Diagnostic)
        ensures
            r@ == self@.at_path(path@),
    {
        let mut d = self;
        d.path = some_string(path);
        d
    }

    pub fn with_line(self, line: usize) -> (r: Diagnostic)
        ensures
            r@ == self@.at_line(line),
    {
        let mut d = self;
        d.line = Some(line);
        d
    }

    pub fn with_column(self, column: usize) -> (r: Diagnostic)
        ensures
            r@ == self@.at_column(column),
    {
        let mut d = self;
        d.column = Some(column);
        d
    }

    pub fn with_answer_id(self, answer_id: &str) -> (r: Diagnostic)
        ensures
            r@ == self@.for_answer(answer_id@),
    {
        let mut d = self;
        d.answer_id = some_string(answer_id);
        d
    }

    pub fn with_phase(self, phase: &str) -> (r: Diagnostic)
        ensures
            r@ == self@.in_phase(phase@),
    {
        let mut d = self;
        d.phase = some_string(phase);
        d
    }

    pub fn with_suggestion(self, suggestion: &str) -> (r: Diagnostic)
        ensures
            r@ == self@.suggesting(suggestion@),
    {
        let mut d = self;
        d.suggestion = some_string(suggestion);
        d
    }

    pub fn with_fix_example(self, fix_example: &str) -> (r: Diagnostic)
        ensures
            r@ == self@.fixed_by(fix_example@),
    {
        let mut d = self;
        d.fix_example = some_string(fix_example);
        d
    }

    pub fn with_docs_url(self, docs_url: &str) -> (r: Diagnostic)
        ensures
            r@ == self@.documented_at(docs_url@),
    {
        let mut d = self;
        d.docs_url = some_string(docs_url);
        d
    }

    /// Records related paths; an empty list leaves the diagnostic unchanged.
    pub fn with_related_paths(self, related_paths: Vec<String>) -> (r: Diagnostic)
        ensures
            r@ == self@.relating(strs(related_paths@)),
    {
        let mut d = self;
        if related_paths.len() > 0 {
            d.related_paths = Some(related_paths);
        }
        d
    }

    /// Records causes; an empty list leaves the diagnostic unchanged.
    pub fn with_caused_by(self, caused_by: Vec<String>) -> (r: Diagnostic)
        ensures
            r@ == self@.caused(strs(caused_by@)),
    {
        let mut d = self;
        if caused_by.len() > 0 {
            d.caused_by = Some(caused_by);
        }
        d
    }
}

// ---------------------------------------------------------------------------
// Summary
// ---------------------------------------------------------------------------

/// How many diagnostics of each severity a list holds.
pub open spec fn count_severity(v: Seq<DiagnosticV>, s: DiagnosticSeverity) -> nat
    decreases v.len(),
{
    if v.len() == 0 {
        0
    } else {
        count_severity(v.drop_last(), s) + if v.last().severity == s {
            1nat
        } else {
            0nat
        }
    }
}

pub proof fn lemma_count_total(v: Seq<DiagnosticV>)
    ensures
        count_severity(v, DiagnosticSeverity::Error) + count_severity(v, DiagnosticSeverity::Warn)
            + count_severity(v, DiagnosticSeverity::Info) == v.len(),
    decreases v.len(),
{
    if v.len() > 0 {
        lemma_count_total(v.drop_last());
    }
}

/// Per-severity counts of a list of diagnostics.
#[derive(Clone, Copy, Debug, Default)]
pub struct DiagnosticSummary {
    pub errors: usize,
    pub warnings: usize,
    pub infos: usize,
}

impl DiagnosticSummary {
    /// Counts the diagnostics of each severity.
    pub fn from_diagnostics(diagnostics: &[Diagnostic]) -> (r: DiagnosticSummary)
        ensures
            r.errors == count_severity(diags(diagnostics@), DiagnosticSeverity::Error),
            r.warnings == count_severity(diags(diagnostics@), DiagnosticSeverity::Warn),
            r.infos == count_severity(diags(diagnostics@), DiagnosticSeverity::Info),
    {
        let mut summary = DiagnosticSummary { errors: 0, warnings: 0, infos: 0 };
        let mut i: usize = 0;
        while i < diagnostics.len()
            invariant
                i <= diagnostics@.len(),
                summary.errors == count_severity(
                    diags(diagnostics@.take(i as int)),
                    DiagnosticSeverity::Error,
                ),
                summary.warnings == count_severity(
                    diags(diagnostics@.take(i as int)),
                    DiagnosticSeverity::Warn,
                ),
                summary.infos == count_severity(
                    diags(diagnostics@.take(i as int)),
                    DiagnosticSeverity::Info,
                ),
            decreases diagnostics.len() - i,
        {
            proof {
                assert(diags(diagnostics@.take(i + 1)).drop_last() =~= diags(
                    diagnostics@.take(i as int),
                ));
                lemma_count_total(diags(diagnostics@.take(i as int)));
            }
            match diagnostics[i].severity {
                DiagnosticSeverity::Error => summary.errors += 1,
                DiagnosticSeverity::Warn => summary.warnings += 1,
                DiagnosticSeverity::Info => summary.infos += 1,
            }
            i += 1;
        }
        assert(diagnostics@.take(i as int) =~= diagnostics@);
        summary
    }
}

// ---------------------------------------------------------------------------
// Line and column recognition
// ---------------------------------------------------------------------------

/// The second piece of `s.split(p)`, i.e. `s.split(p).nth(1)`.
pub open spec fn second_piece(s: Seq<char>, p: Seq<char>) -> Option<Seq<char>> {
    if split(s, p).len() > 1 {
        Some(split(s, p)[1])
    } else {
        None
    }
}

pub fn second_piece_exec(s: &[char], p: &str) -> (r: Option<Vec<char>>)
    requires
        p@.len() > 0,
    ensures
        opt_view(r) == second_piece(s@, p@),
{
    let pv = chars_of(p);
    let parts = split_exec(s, &pv);
    if parts.len() > 1 {
        let r = slice_copy(&parts[1], 0, parts[1].len());
        assert(r@ =~= parts@[1]@);
        Some(r)
    } else {
        None
    }
}

/// The number after the first occurrence of `label` (`"line "` or
/// `"column "`): its first word, trailing commas removed, parsed as `usize`.
pub open spec fn number_after(text: Seq<char>, label: Seq<char>) -> Option<nat> {
    match second_piece(text, label) {
        Some(piece) => match first_word(piece) {
            Some(w) => parse_usize(trim_end_char(w, ',')),
            None => None,
        },
        None => None,
    }
}

fn number_after_exec(text: &[char], label: &str) -> (r: Option<usize>)
    requires
        label@.len() > 0,
    ensures
        match r {
            Some(v) => number_after(text@, label@) == Some(v as nat),
            None => number_after(text@, label@) is None,
        },
{
    let piece = second_piece_exec(text, label)?;
    let w = first_word_exec(&piece)?;
    let t = trim_end_char_exec(&w, ',');
    parse_usize_exec(&t)
}

/// `(line, column)` read from a text such as `... at line 18, column 17`.
pub open spec fn spec_parse_line_column(text: Seq<char>) -> Option<(nat, nat)> {
    match (number_after(text, "line "@), number_after(text, "column "@)) {
        (Some(l), Some(c)) => Some((l, c)),
        _ => None,
    }
}

pub fn parse_line_column(text: &[char]) -> (r: Option<(usize, usize)>)
    ensures
        match r {
            Some((l, c)) => spec_parse_line_column(text@) == Some((l as nat, c as nat)),
            None => spec_parse_line_column(text@) is None,
        },
{
    proof {
        reveal_strlit("line ");
        reveal_strlit("column ");
    }
    let line = number_after_exec(text, "line ")?;
    let column = number_after_exec(text, "column ")?;
    Some((line, column))
}

/// The first line whose start, after leading whitespace, is `-->`.
pub open spec fn arrow_line(ls: Seq<Seq<char>>) -> Option<Seq<char>>
    decreases ls.len(),
{
    if ls.len() == 0 {
        None
    } else if starts_with(trim_start(ls[0]), "-->"@) {
        Some(ls[0])
    } else {
        arrow_line(ls.skip(1))
    }
}

/// `(line, column)` read from a marker line such as ` --> 7:13`.
pub open spec fn spec_parse_arrow_line_column(text: Seq<char>) -> Option<(nat, nat)> {
    match arrow_line(lines(text)) {
        Some(marker) => match strip_prefix(trim(marker), "-->"@) {
            Some(coords) => match split_once(trim(coords), ":"@) {
                Some((l, c)) => match (parse_usize(trim(l)), parse_usize(trim(c))) {
                    (Some(a), Some(b)) => Some((a, b)),
                    _ => None,
                },
                None => None,
            },
            None => None,
        },
        None => None,
    }
}

fn find_arrow_line(ls: &Vec<Vec<char>>) -> (r: Option<Vec<char>>)
    ensures
        opt_view(r) == arrow_line(views(ls@)),
{
    let arrow = chars_of("-->");
    let mut i: usize = 0;
    assert(views(ls@).skip(0) =~= views(ls@));
    while i < ls.len()
        invariant
            arrow@ == "-->"@,
            i <= ls@.len(),
            arrow_line(views(ls@)) == arrow_line(views(ls@).skip(i as int)),
        decreases ls.len() - i,
    {
        let t = trim_start_exec(&ls[i]);
        assert(views(ls@).skip(i as int)[0] == ls@[i as int]@);
        assert(views(ls@).skip(i as int).skip(1) =~= views(ls@).skip(i + 1));
        if starts_with_exec(&t, &arrow) {
            let m = slice_copy(&ls[i], 0, ls[i].len());
            assert(m@ =~= ls@[i as int]@);
            return Some(m);
        }
        i += 1;
    }
    assert(views(ls@).skip(i as int) =~= Seq::<Seq<char>>::empty());
    None
}

pub fn parse_arrow_line_column(text: &[char]) -> (r: Option<(usize, usize)>)
    ensures
        match r {
            Some((l, c)) => spec_parse_arrow_line_column(text@) == Some((l as nat, c as nat)),
            None => spec_parse_arrow_line_column(text@) is None,
        },
{
    let ls = lines_exec(text);
    let marker = find_arrow_line(&ls)?;
    let arrow = chars_of("-->");
    let tm = trim_exec(&marker);
    let coords = strip_prefix_exec(&tm, &arrow)?;
    let tc = trim_exec(&coords);
    let colon = chars_of(":");
    let (l, c) = split_once_exec(&tc, &colon)?;
    let lt = trim_exec(&l);
    let ct = trim_exec(&c);
    let a = parse_usize_exec(&lt)?;
    let b = parse_usize_exec(&ct)?;
    Some((a, b))
}

// ---------------------------------------------------------------------------
// Conversions used by the recognisers
// ---------------------------------------------------------------------------

/// `a + b + c`.
pub fn concat3(a: &[char], b: &[char], c: &[char]) -> (r: Vec<char>)
    ensures
        r@ == a@ + b@ + c@,
{
    let mut r = slice_copy(a, 0, a.len());
    extend(&mut r, b);
    extend(&mut r, c);
    assert(r@ =~= a@ + b@ + c@);
    r
}

/// The strings of a list of character vectors.
pub fn strings_of(v: &Vec<Vec<char>>) -> (r: Vec<String>)
    ensures
        strs(r@) == views(v@),
{
    let mut r: Vec<String> = Vec::new();
    let mut i: usize = 0;
    while i < v.len()
        invariant
            i <= v@.len(),
            strs(r@) == views(v@.take(i as int)),
        decreases v.len() - i,
    {
        let x = string_of(&v[i]);
        let ghost old_r = r@;
        r.push(x);
        assert(strs(r@) =~= strs(old_r).push(x@));
        assert(views(v@.take(i + 1)) =~= views(v@.take(i as int)).push(v@[i as int]@));
        i += 1;
    }
    assert(v@.take(i as int) =~= v@);
    r
}

/// The characters of each string of a list.
pub fn char_vecs(v: &Vec<String>) -> (r: Vec<Vec<char>>)
    ensures
        views(r@) == strs(v@),
{
    let mut r: Vec<Vec<char>> = Vec::new();
    let mut i: usize = 0;
    while i < v.len()
        invariant
            i <= v@.len(),
            views(r@) == strs(v@.take(i as int)),
        decreases v.len() - i,
    {
        let x = chars_of(v[i].as_str());
        let ghost old_r = r@;
        r.push(x);
        assert(views(r@) =~= views(old_r).push(x@));
        assert(strs(v@.take(i + 1)) =~= strs(v@.take(i as int)).push(v@[i as int]@));
        i += 1;
    }
    assert(v@.take(i as int) =~= v@);
    r
}

/// A copy of a list of strings.
pub fn clone_strings(v: &Vec<String>) -> (r: Vec<String>)
    ensures
        strs(r@) == strs(v@),
{
    let mut r: Vec<String> = Vec::new();
    let mut i: usize = 0;
    while i < v.len()
        invariant
            i <= v@.len(),
            strs(r@) == strs(v@.take(i as int)),
        decreases v.len() - i,
    {
        let x = v[i].clone();
        let ghost old_r = r@;
        r.push(x);
        assert(strs(r@) =~= strs(old_r).push(x@));
        assert(strs(v@.take(i + 1)) =~= strs(v@.take(i as int)).push(v@[i as int]@));
        i += 1;
    }
    assert(v@.take(i as int) =~= v@);
    r
}

/// An error diagnostic whose message is given as characters.
fn error_with(code: &str, message: &[char]) -> (r: Diagnostic)
    ensures
        r@ == DiagnosticV::error(code@, message@),
{
    let m = string_of(message);
    Diagnostic::error(code, m.as_str())
}

fn at_path(d: Diagnostic, path: &[char]) -> (r: Diagnostic)
    ensures
        r@ == d@.at_path(path@),
{
    let p = string_of(path);
    d.with_path(p.as_str())
}

fn in_phase(d: Diagnostic, phase: &[char]) -> (r: Diagnostic)
    ensures
        r@ == d@.in_phase(phase@),
{
    let p = string_of(phase);
    d.with_phase(p.as_str())
}

fn suggesting(d: Diagnostic, suggestion: &[char]) -> (r: Diagnostic)
    ensures
        r@ == d@.suggesting(suggestion@),
{
    let p = string_of(suggestion);
    d.with_suggestion(p.as_str())
}

// ---------------------------------------------------------------------------
// Answer validation bullets
// ---------------------------------------------------------------------------

/// A bullet naming a value found in several files: `` <label><name>` found in <paths> ``.
pub open spec fn duplicate_bullet(
    rest: Seq<char>,
    code: Seq<char>,
    label: Seq<char>,
    suggestion: Seq<char>,
    phase: Seq<char>,
) -> Option<DiagnosticV> {
    match split_once(rest, "` found in "@) {
        Some((name, paths)) => {
            let list = split(paths, ", "@);
            let d = DiagnosticV::error(code, label + name + "` found in multiple files"@).in_phase(
                phase,
            ).suggesting(suggestion);
            if list.len() > 0 {
                Some(d.at_path(list[0]).relating(list.skip(1)))
            } else {
                Some(d)
            }
        },
        None => None,
    }
}

/// A bullet `<path>: <prefix><value><close>` whose detail starts with `prefix`.
pub open spec fn tail_bullet(
    path: Seq<char>,
    rest: Seq<char>,
    prefix: Seq<char>,
    close: Seq<char>,
    code: Seq<char>,
    suggestion: Seq<char>,
    phase: Seq<char>,
) -> Option<DiagnosticV> {
    match strip_suffix(rest, close) {
        Some(value) => Some(
            DiagnosticV::error(code, prefix + value + close).at_path(path).in_phase(
                phase,
            ).suggesting(suggestion),
        ),
        None => None,
    }
}

pub open spec fn detail_bullet(path: Seq<char>, detail: Seq<char>, phase: Seq<char>) -> Option<
    DiagnosticV,
> {
    if let Some(rest) = strip_prefix(detail, "`related` references unknown answer id `"@) {
        tail_bullet(
            path,
            rest,
            "`related` references unknown answer id `"@,
            "`"@,
            "answer_related_unknown_id"@,
            "Point `related` to an existing answer id or remove the stale link"@,
            phase,
        )
    } else if let Some(rest) = strip_prefix(
        detail,
        "`related` cannot reference the answer itself (`"@,
    ) {
        tail_bullet(
            path,
            rest,
            "`related` cannot reference the answer itself (`"@,
            "`)"@,
            "answer_related_self_reference"@,
            "Remove the self-reference from `related`"@,
            phase,
        )
    } else if let Some(rest) = strip_prefix(
        detail,
        "`canonical_questions` contains duplicate entry `"@,
    ) {
        tail_bullet(
            path,
            rest,
            "`canonical_questions` contains duplicate entry `"@,
            "`"@,
            "answer_duplicate_question_entry"@,
            "Remove the duplicate value from `canonical_questions`"@,
            phase,
        )
    } else if let Some(rest) = strip_prefix(
        detail,
        "`retrieval_aliases` contains duplicate entry `"@,
    ) {
        tail_bullet(
            path,
            rest,
            "`retrieval_aliases` contains duplicate entry `"@,
            "`"@,
            "answer_duplicate_retrieval_alias_entry"@,
            "Remove the duplicate value from `retrieval_aliases`"@,
            phase,
        )
    } else if let Some(rest) = strip_prefix(detail, "`related` contains duplicate entry `"@) {
        tail_bullet(
            path,
            rest,
            "`related` contains duplicate entry `"@,
            "`"@,
            "answer_duplicate_related_link"@,
            "Keep each `related` answer id at most once"@,
            phase,
        )
    } else {
        None
    }
}

/// The diagnostic that one bullet of an answer validation failure stands for.
pub open spec fn spec_answer_validation_bullet(bullet: Seq<char>, phase: Seq<char>) -> Option<
    DiagnosticV,
> {
    if let Some(rest) = strip_prefix(bullet, "Duplicate answer id `"@) {
        duplicate_bullet(
            rest,
            "answer_duplicate_id"@,
            "Duplicate answer id `"@,
            "Rename one of the answer ids so each answer has a unique `id`"@,
            phase,
        )
    } else if let Some(rest) = strip_prefix(bullet, "Duplicate canonical question `"@) {
        duplicate_bullet(
            rest,
            "answer_duplicate_canonical_question"@,
            "Duplicate canonical question `"@,
            "Keep each canonical question attached to only one answer"@,
            phase,
        )
    } else if let Some(rest) = strip_prefix(bullet, "Duplicate retrieval alias `"@) {
        duplicate_bullet(
            rest,
            "answer_duplicate_retrieval_alias"@,
            "Duplicate retrieval alias `"@,
            "Keep each retrieval alias attached to only one answer"@,
            phase,
        )
    } else {
        match split_once(bullet, ": "@) {
            Some((path, detail)) => detail_bullet(path, detail, phase),
            None => None,
        }
    }
}

fn duplicate_bullet_exec(
    rest: &[char],
    code: &str,
    label: &str,
    suggestion: &str,
    phase: &[char],
) -> (r: Option<Diagnostic>)
    ensures
        match r {
            Some(d) => duplicate_bullet(rest@, code@, label@, suggestion@, phase@) == Some(d@),
            None => duplicate_bullet(rest@, code@, label@, suggestion@, phase@) is None,
        },
{
    let sep = chars_of("` found in ");
    let (name, paths) = split_once_exec(rest, &sep)?;
    proof {
        reveal_strlit(", ");
    }
    let comma = chars_of(", ");
    let list = split_exec(&paths, &comma);
    let lab = chars_of(label);
    let tail = chars_of("` found in multiple files");
    let msg = concat3(&lab, &name, &tail);
    let d = error_with(code, &msg);
    let d = in_phase(d, phase);
    let d = d.with_suggestion(suggestion);
    if list.len() > 0 {
        let d = at_path(d, &list[0]);
        let mut rel: Vec<Vec<char>> = Vec::new();
        let mut i: usize = 1;
        while i < list.len()
            invariant
                1 <= i <= list@.len(),
                views(rel@) == views(list@).subrange(1, i as int),
            decreases list.len() - i,
        {
            let c = slice_copy(&list[i], 0, list[i].len());
            assert(c@ =~= list@[i as int]@);
            let ghost old_rel = rel@;
            rel.push(c);
            assert(views(rel@) =~= views(old_rel).push(c@));
            assert(views(list@).subrange(1, i + 1) =~= views(list@).subrange(1, i as int).push(
                list@[i as int]@,
            ));
            i += 1;
        }
        assert(views(list@).subrange(1, i as int) =~= views(list@).skip(1));
        let related = strings_of(&rel);
        Some(d.with_related_paths(related))
    } else {
        Some(d)
    }
}

fn tail_bullet_exec(
    path: &[char],
    rest: &[char],
    prefix: &str,
    close: &str,
    code: &str,
    suggestion: &str,
    phase: &[char],
) -> (r: Option<Diagnostic>)
    ensures
        match r {
            Some(d) => tail_bullet(path@, rest@, prefix@, close@, code@, suggestion@, phase@)
                == Some(d@),
            None => tail_bullet(path@, rest@, prefix@, close@, code@, suggestion@, phase@) is None,
        },
{
    let cl = chars_of(close);
    let value = strip_suffix_exec(rest, &cl)?;
    let pre = chars_of(prefix);
    let msg = concat3(&pre, &value, &cl);
    let d = error_with(code, &msg);
    let d = at_path(d, path);
    let d = in_phase(d, phase);
    Some(d.with_suggestion(suggestion))
}

fn detail_bullet_exec(path: &[char], detail: &[char], phase: &[char]) -> (r: Option<Diagnostic>)
    ensures
        match r {
            Some(d) => detail_bullet(path@, detail@, phase@) == Some(d@),
            None => detail_bullet(path@, detail@, phase@) is None,
        },
{
    let p1 = chars_of("`related` references unknown answer id `");
    if let Some(rest) = strip_prefix_exec(detail, &p1) {
        return tail_bullet_exec(
            path,
            &rest,
            "`related` references unknown answer id `",
            "`",
            "answer_related_unknown_id",
            "Point `related` to an existing answer id or remove the stale link",
            phase,
        );
    }
    let p2 = chars_of("`related` cannot reference the answer itself (`");
    if let Some(rest) = strip_prefix_exec(detail, &p2) {
        return tail_bullet_exec(
            path,
            &rest,
            "`related` cannot reference the answer itself (`",
            "`)",
            "answer_related_self_reference",
            "Remove the self-reference from `related`",
            phase,
        );
    }
    let p3 = chars_of("`canonical_questions` contains duplicate entry `");
    if let Some(rest) = strip_prefix_exec(detail, &p3) {
        return tail_bullet_exec(
            path,
            &rest,
            "`canonical_questions` contains duplicate entry `",
            "`",
            "answer_duplicate_question_entry",
            "Remove the duplicate value from `canonical_questions`",
            phase,
        );
    }
    let p4 = chars_of("`retrieval_aliases` contains duplicate entry `");
    if let Some(rest) = strip_prefix_exec(detail, &p4) {
        return tail_bullet_exec(
            path,
            &rest,
            "`retrieval_aliases` contains duplicate entry `",
            "`",
            "answer_duplicate_retrieval_alias_entry",
            "Remove the duplicate value from `retrieval_aliases`",
            phase,
        );
    }
    let p5 = chars_of("`related` contains duplicate entry `");
    if let Some(rest) = strip_prefix_exec(detail, &p5) {
        return tail_bullet_exec(
            path,
            &rest,
            "`related` contains duplicate entry `",
            "`",
            "answer_duplicate_related_link",
            "Keep each `related` answer id at most once",
            phase,
        );
    }
    None
}

/// Recognises one bullet of an `Answer validation failed:` message.
pub fn parse_answer_validation_bullet(bullet: &[char], phase: &[char]) -> (r: Option<Diagnostic>)
    ensures
        match r {
            Some(d) => spec_answer_validation_bullet(bullet@, phase@) == Some(d@),
            None => spec_answer_validation_bullet(bullet@, phase@) is None,
        },
{
    let a = chars_of("Duplicate answer id `");
    if let Some(rest) = strip_prefix_exec(bullet, &a) {
        return duplicate_bullet_exec(
            &rest,
            "answer_duplicate_id",
            "Duplicate answer id `",
            "Rename one of the answer ids so each answer has a unique `id`",
            phase,
        );
    }
    let b = chars_of("Duplicate canonical question `");
    if let Some(rest) = strip_prefix_exec(bullet, &b) {
        return duplicate_bullet_exec(
            &rest,
            "answer_duplicate_canonical_question",
            "Duplicate canonical question `",
            "Keep each canonical question attached to only one answer",
            phase,
        );
    }
    let c = chars_of("Duplicate retrieval alias `");
    if let Some(rest) = strip_prefix_exec(bullet, &c) {
        return duplicate_bullet_exec(
            &rest,
            "answer_duplicate_retrieval_alias",
            "Duplicate retrieval alias `",
            "Keep each retrieval alias attached to only one answer",
            phase,
        );
    }
    let sep = chars_of(": ");
    let (path, detail) = split_once_exec(bullet, &sep)?;
    detail_bullet_exec(&path, &detail, phase)
}

/// The diagnostic for a bullet that no known form matches.
pub open spec fn plain_bullet(bullet: Seq<char>, phase: Seq<char>) -> DiagnosticV {
    match spec_answer_validation_bullet(bullet, phase) {
        Some(d) => d,
        None => DiagnosticV::error("answer_validation_failed"@, bullet).in_phase(phase),
    }
}

/// One diagnostic per bullet of an `Answer validation failed:` message.
pub open spec fn spec_answer_validation(message: Seq<char>, phase: Seq<char>) -> Option<
    Seq<DiagnosticV>,
> {
    match strip_prefix(message, "Answer validation failed:\n- "@) {
        Some(body) => Some(split(body, "\n- "@).map_values(|b: Seq<char>| plain_bullet(b, phase))),
        None => None,
    }
}

pub fn parse_answer_validation(message: &[char], phase: &[char]) -> (r: Option<Vec<Diagnostic>>)
    ensures
        match r {
            Some(v) => spec_answer_validation(message@, phase@) == Some(diags(v@)),
            None => spec_answer_validation(message@, phase@) is None,
        },
{
    let head = chars_of("Answer validation failed:\n- ");
    let body = strip_prefix_exec(message, &head)?;
    proof {
        reveal_strlit("\n- ");
    }
    let sep = chars_of("\n- ");
    let bullets = split_exec(&body, &sep);
    let mut out: Vec<Diagnostic> = Vec::new();
    let mut i: usize = 0;
    while i < bullets.len()
        invariant
            i <= bullets@.len(),
            diags(out@) == views(bullets@).take(i as int).map_values(
                |b: Seq<char>| plain_bullet(b, phase@),
            ),
        decreases bullets.len() - i,
    {
        let d = match parse_answer_validation_bullet(&bullets[i], phase) {
            Some(d) => d,
            None => in_phase(error_with("answer_validation_failed", &bullets[i]), phase),
        };
        let ghost old_out = out@;
        out.push(d);
        assert(diags(out@) =~= diags(old_out).push(d@));
        assert(views(bullets@).take(i + 1) =~= views(bullets@).take(i as int).push(
            bullets@[i as int]@,
        ));
        i += 1;
        assert(diags(out@) =~= views(bullets@).take(i as int).map_values(
            |b: Seq<char>| plain_bullet(b, phase@),
        ));
    }
    assert(views(bullets@).take(i as int) =~= views(bullets@));
    Some(out)
}

// ---------------------------------------------------------------------------
// Front matter failures
// ---------------------------------------------------------------------------

/// The text between the first and the last backtick of `message`.
pub open spec fn backticked(message: Seq<char>) -> Option<Seq<char>> {
    match (find(message, "`"@), rfind_char(message, '`')) {
        (Some(start), Some(end)) => if end <= start {
            None
        } else {
            Some(message.subrange(start + 1, end))
        },
        _ => None,
    }
}

/// The diagnostic for a TOML syntax failure reported at line `l`, column `c`.
pub open spec fn toml_failure(cause: Seq<char>) -> DiagnosticV {
    match second_piece(cause, "unknown variant `"@) {
        Some(rest) => match split_once(rest, "`, expected one of "@) {
            Some((variant, expected)) => DiagnosticV::error(
                "frontmatter_invalid_enum"@,
                "Invalid front matter value `"@ + variant + "`"@,
            ).suggesting("Use one of: "@ + trim(replace(expected, "`"@, ""@))),
            None => DiagnosticV::error("frontmatter_invalid_enum"@, ""@),
        },
        None => DiagnosticV::error(
            "frontmatter_parse_failed"@,
            "Front matter could not be parsed"@,
        ).suggesting("Fix the TOML syntax near the reported line and column"@),
    }
}

/// Whether the `unknown variant` part of a TOML failure can be read.
pub open spec fn toml_failure_readable(cause: Seq<char>) -> bool {
    match second_piece(cause, "unknown variant `"@) {
        Some(rest) => split_once(rest, "`, expected one of "@) is Some,
        None => true,
    }
}

/// Diagnostics for `Error when parsing front matter ... `<path>``, read from
/// the first cause (or the message itself when there is no cause).
pub open spec fn spec_front_matter_failure(
    message: Seq<char>,
    phase: Seq<char>,
    causes: Seq<Seq<char>>,
) -> Option<Seq<DiagnosticV>> {
    if !starts_with(message, "Error when parsing front matter"@) {
        None
    } else {
        match backticked(message) {
            None => None,
            Some(path) => {
                let cause = if causes.len() > 0 {
                    causes[0]
                } else {
                    message
                };
                let field = match strip_prefix(cause, "An answer page requires `"@) {
                    Some(x) => strip_suffix(x, "`"@),
                    None => None,
                };
                if let Some(field) = field {
                    Some(
                        seq![
                            DiagnosticV::error(
                                "frontmatter_missing_required_field"@,
                                "Answer front matter requires `"@ + field + "`"@,
                            ).at_path(path).in_phase(phase).suggesting(
                                "Add `"@ + field + " = ...` to the page front matter"@,
                            ),
                        ],
                    )
                } else if starts_with(cause, "TOML parse error at line "@) {
                    match spec_parse_line_column(cause) {
                        Some((l, c)) => if toml_failure_readable(cause) {
                            Some(
                                seq![
                                    toml_failure(cause).at_path(path).at_line(l as usize).at_column(
                                        c as usize,
                                    ).in_phase(phase).caused(seq![cause]),
                                ],
                            )
                        } else {
                            None
                        },
                        None => None,
                    }
                } else {
                    Some(
                        seq![
                            DiagnosticV::error("frontmatter_parse_failed"@, cause).at_path(
                                path,
                            ).in_phase(phase).suggesting(
                                "Fix the page front matter and re-run the command"@,
                            ),
                        ],
                    )
                }
            },
        }
    }
}

fn backticked_exec(message: &[char]) -> (r: Option<Vec<char>>)
    ensures
        opt_view(r) == backticked(message@),
{
    let tick = chars_of("`");
    let start = find_exec(message, &tick)?;
    let end = rfind_char_exec(message, '`')?;
    proof {
        lemma_find(message@, tick@);
        lemma_rfind_char(message@, '`');
    }
    if end <= start {
        return None;
    }
    Some(slice_copy(message, start + 1, end))
}

fn toml_failure_exec(cause: &[char]) -> (r: Option<Diagnostic>)
    ensures
        match r {
            Some(d) => toml_failure_readable(cause@) && d@ == toml_failure(cause@),
            None => !toml_failure_readable(cause@),
        },
{
    proof {
        reveal_strlit("unknown variant `");
    }
    match second_piece_exec(cause, "unknown variant `") {
        Some(rest) => {
            let sep = chars_of("`, expected one of ");
            let (variant, expected) = split_once_exec(&rest, &sep)?;
            let pre = chars_of("Invalid front matter value `");
            let tick = chars_of("`");
            let msg = concat3(&pre, &variant, &tick);
            proof {
                reveal_strlit("`");
            }
            let empty: Vec<char> = Vec::new();
            let cleaned = replace_exec(&expected, &tick, &empty);
            assert(empty@ =~= ""@) by {
                reveal_strlit("");
            }
            let cleaned = trim_exec(&cleaned);
            let use_one = chars_of("Use one of: ");
            let sugg = concat3(&use_one, &cleaned, &empty);
            assert(sugg@ =~= use_one@ + cleaned@);
            let d = error_with("frontmatter_invalid_enum", &msg);
            Some(suggesting(d, &sugg))
        },
        None => {
            let d = Diagnostic::error(
                "frontmatter_parse_failed",
                "Front matter could not be parsed",
            );
            Some(d.with_suggestion("Fix the TOML syntax near the reported line and column"))
        },
    }
}

pub fn parse_front_matter_failure(
    message: &[char],
    phase: &[char],
    causes: &Vec<Vec<char>>,
) -> (r: Option<Vec<Diagnostic>>)
    ensures
        match r {
            Some(v) => spec_front_matter_failure(message@, phase@, views(causes@)) == Some(
                diags(v@),
            ),
            None => spec_front_matter_failure(message@, phase@, views(causes@)) is None,
        },
{
    let head = chars_of("Error when parsing front matter");
    if !starts_with_exec(message, &head) {
        return None;
    }
    let path = backticked_exec(message)?;
    let cause = if causes.len() > 0 {
        slice_copy(&causes[0], 0, causes[0].len())
    } else {
        slice_copy(message, 0, message.len())
    };
    assert(cause@ =~= (if views(causes@).len() > 0 {
        views(causes@)[0]
    } else {
        message@
    }));
    let req = chars_of("An answer page requires `");
    let tick = chars_of("`");
    let field = match strip_prefix_exec(&cause, &req) {
        Some(x) => strip_suffix_exec(&x, &tick),
        None => None,
    };
    if let Some(field) = field {
        let pre = chars_of("Answer front matter requires `");
        let msg = concat3(&pre, &field, &tick);
        let add = chars_of("Add `");
        let rest = chars_of(" = ...` to the page front matter");
        let sugg = concat3(&add, &field, &rest);
        let d = error_with("frontmatter_missing_required_field", &msg);
        let d = at_path(d, &path);
        let d = in_phase(d, phase);
        let d = suggesting(d, &sugg);
        let mut v: Vec<Diagnostic> = Vec::new();
        v.push(d);
        assert(diags(v@) =~= seq![v@[0]@]);
        return Some(v);
    }
    let toml = chars_of("TOML parse error at line ");
    if starts_with_exec(&cause, &toml) {
        let (l, c) = parse_line_column(&cause)?;
        let d = toml_failure_exec(&cause)?;
        let d = at_path(d, &path);
        let d = d.with_line(l);
        let d = d.with_column(c);
        let d = in_phase(d, phase);
        let mut cs: Vec<String> = Vec::new();
        cs.push(string_of(&cause));
        assert(strs(cs@) =~= seq![cause@]);
        let d = d.with_caused_by(cs);
        let mut v: Vec<Diagnostic> = Vec::new();
        v.push(d);
        assert(diags(v@) =~= seq![v@[0]@]);
        return Some(v);
    }
    let d = error_with("frontmatter_parse_failed", &cause);
    let d = at_path(d, &path);
    let d = in_phase(d, phase);
    let d = d.with_suggestion("Fix the page front matter and re-run the command");
    let mut v: Vec<Diagnostic> = Vec::new();
    v.push(d);
    assert(diags(v@) =~= seq![v@[0]@]);
    Some(v)
}

// ---------------------------------------------------------------------------
// Template, sidecar and index failures
// ---------------------------------------------------------------------------

/// The first line that, after leading whitespace, starts with `= `, without it.
pub open spec fn detail_line(ls: Seq<Seq<char>>) -> Option<Seq<char>>
    decreases ls.len(),
{
    if ls.len() == 0 {
        None
    } else {
        match strip_prefix(trim_start(ls[0]), "= "@) {
            Some(x) => Some(x),
            None => detail_line(ls.skip(1)),
        }
    }
}

/// The diagnostic for a template syntax error of the form
/// `Failed to parse "<path>"` followed by ` --> line:column` and `= detail`.
pub open spec fn spec_template_failure_text(text: Seq<char>, phase: Seq<char>) -> Option<
    Seq<DiagnosticV>,
> {
    match second_piece(text, "Failed to parse \""@) {
        Some(v) => {
            let path = split(v, "\""@)[0];
            let (line, column) = match spec_parse_arrow_line_column(text) {
                Some(lc) => lc,
                None => (0nat, 0nat),
            };
            let details = match detail_line(lines(text)) {
                Some(d) => d,
                None => "Template syntax error"@,
            };
            let d = DiagnosticV::error("template_parse_failed"@, details).at_path(path).in_phase(
                phase,
            ).suggesting("Fix the Tera template syntax at the reported location"@);
            let d = if line > 0 {
                d.at_line(line as usize)
            } else {
                d
            };
            let d = if column > 0 {
                d.at_column(column as usize)
            } else {
                d
            };
            Some(seq![d])
        },
        None => None,
    }
}

fn detail_line_exec(ls: &Vec<Vec<char>>) -> (r: Option<Vec<char>>)
    ensures
        opt_view(r) == detail_line(views(ls@)),
{
    let eq = chars_of("= ");
    let mut i: usize = 0;
    assert(views(ls@).skip(0) =~= views(ls@));
    while i < ls.len()
        invariant
            eq@ == "= "@,
            i <= ls@.len(),
            detail_line(views(ls@)) == detail_line(views(ls@).skip(i as int)),
        decreases ls.len() - i,
    {
        let t = trim_start_exec(&ls[i]);
        assert(views(ls@).skip(i as int)[0] == ls@[i as int]@);
        assert(views(ls@).skip(i as int).skip(1) =~= views(ls@).skip(i + 1));
        if let Some(x) = strip_prefix_exec(&t, &eq) {
            return Some(x);
        }
        i += 1;
    }
    assert(views(ls@).skip(i as int) =~= Seq::<Seq<char>>::empty());
    None
}

pub fn parse_template_failure_text(text: &[char], phase: &[char]) -> (r: Option<Vec<Diagnostic>>)
    ensures
        match r {
            Some(v) => spec_template_failure_text(text@, phase@) == Some(diags(v@)),
            None => spec_template_failure_text(text@, phase@) is None,
        },
{
    proof {
        reveal_strlit("Failed to parse \"");
        reveal_strlit("\"");
    }
    let v = second_piece_exec(text, "Failed to parse \"")?;
    let quote = chars_of("\"");
    let pieces = split_exec(&v, &quote);
    proof {
        lemma_split_nonempty(v@, quote@);
    }
    let path = slice_copy(&pieces[0], 0, pieces[0].len());
    assert(path@ =~= split(v@, "\""@)[0]);
    let (line, column) = match parse_arrow_line_column(text) {
        Some(lc) => lc,
        None => (0, 0),
    };
    let ls = lines_exec(text);
    let details = match detail_line_exec(&ls) {
        Some(d) => d,
        None => chars_of("Template syntax error"),
    };
    let d = error_with("template_parse_failed", &details);
    let d = at_path(d, &path);
    let d = in_phase(d, phase);
    let d = d.with_suggestion("Fix the Tera template syntax at the reported location");
    let d = if line > 0 {
        d.with_line(line)
    } else {
        d
    };
    let d = if column > 0 {
        d.with_column(column)
    } else {
        d
    };
    let mut out: Vec<Diagnostic> = Vec::new();
    out.push(d);
    assert(diags(out@) =~= seq![out@[0]@]);
    Some(out)
}

/// Template directory failures: the first cause read as a template failure,
/// with that cause recorded on the diagnostic.
pub open spec fn spec_template_parse_failure(
    message: Seq<char>,
    phase: Seq<char>,
    causes: Seq<Seq<char>>,
) -> Option<Seq<DiagnosticV>> {
    if message != "Error parsing templates from the /templates directory"@ && message
        != "Error parsing templates from themes"@ {
        None
    } else if causes.len() == 0 {
        None
    } else {
        match spec_template_failure_text(causes[0], phase) {
            Some(ds) => Some(ds.update(0, ds[0].caused(seq![causes[0]]))),
            None => None,
        }
    }
}

pub fn parse_template_parse_failure(
    message: &[char],
    phase: &[char],
    causes: &Vec<Vec<char>>,
) -> (r: Option<Vec<Diagnostic>>)
    ensures
        match r {
            Some(v) => spec_template_parse_failure(message@, phase@, views(causes@)) == Some(
                diags(v@),
            ),
            None => spec_template_parse_failure(message@, phase@, views(causes@)) is None,
        },
{
    let a = chars_of("Error parsing templates from the /templates directory");
    let b = chars_of("Error parsing templates from themes");
    if !eq(message, &a) && !eq(message, &b) {
        return None;
    }
    if causes.len() == 0 {
        return None;
    }
    let cause = slice_copy(&causes[0], 0, causes[0].len());
    assert(cause@ =~= views(causes@)[0]);
    let mut ds = parse_template_failure_text(&cause, phase)?;
    assert(diags(ds@).len() == 1);
    let ghost orig = diags(ds@);
    let first = ds.remove(0);
    let mut cs: Vec<String> = Vec::new();
    cs.push(string_of(&cause));
    assert(strs(cs@) =~= seq![cause@]);
    let first = first.with_caused_by(cs);
    ds.insert(0, first);
    assert(diags(ds@) =~= orig.update(0, orig[0].caused(seq![cause@])));
    Some(ds)
}

/// Structured-data sidecars that are not valid JSON.
pub open spec fn spec_sidecar_failure(message: Seq<char>, phase: Seq<char>) -> Option<
    Seq<DiagnosticV>,
> {
    match strip_prefix(message, "Failed to parse structured-data sidecar `"@) {
        Some(after) => match second_piece(message, "`: "@) {
            Some(details) => {
                let d = DiagnosticV::error("schema_sidecar_invalid_json"@, details).at_path(
                    split(after, "`: "@)[0],
                ).in_phase(phase).suggesting("Fix the JSON syntax in the structured-data sidecar"@);
                match spec_parse_line_column(details) {
                    Some((l, c)) => Some(seq![d.at_line(l as usize).at_column(c as usize)]),
                    None => Some(seq![d]),
                }
            },
            None => None,
        },
        None => None,
    }
}

pub fn parse_sidecar_failure(message: &[char], phase: &[char]) -> (r: Option<Vec<Diagnostic>>)
    ensures
        match r {
            Some(v) => spec_sidecar_failure(message@, phase@) == Some(diags(v@)),
            None => spec_sidecar_failure(message@, phase@) is None,
        },
{
    proof {
        reveal_strlit("`: ");
    }
    let head = chars_of("Failed to parse structured-data sidecar `");
    let after = strip_prefix_exec(message, &head)?;
    let sep = chars_of("`: ");
    let pieces = split_exec(&after, &sep);
    proof {
        lemma_split_nonempty(after@, sep@);
    }
    let path = slice_copy(&pieces[0], 0, pieces[0].len());
    assert(path@ =~= split(after@, "`: "@)[0]);
    let details = second_piece_exec(message, "`: ")?;
    let d = error_with("schema_sidecar_invalid_json", &details);
    let d = at_path(d, &path);
    let d = in_phase(d, phase);
    let d = d.with_suggestion("Fix the JSON syntax in the structured-data sidecar");
    let d = match parse_line_column(&details) {
        Some((l, c)) => d.with_line(l).with_column(c),
        None => d,
    };
    let mut out: Vec<Diagnostic> = Vec::new();
    out.push(d);
    assert(diags(out@) =~= seq![out@[0]@]);
    Some(out)
}

/// A page named `index.md` next to an `_index.md` section.
pub open spec fn spec_index_conflict(message: Seq<char>, phase: Seq<char>) -> Option<
    Seq<DiagnosticV>,
> {
    match second_piece(message, " in \""@) {
        Some(v) => match strip_suffix(v, "\""@) {
            Some(path) => Some(
                seq![
                    DiagnosticV::error("content_index_conflict"@, message).at_path(path).in_phase(
                        phase,
                    ).suggesting(
                        "Rename `index.md` or remove the conflicting `_index.md` section"@,
                    ),
                ],
            ),
            None => None,
        },
        None => None,
    }
}

pub fn parse_index_conflict(message: &[char], phase: &[char]) -> (r: Option<Vec<Diagnostic>>)
    ensures
        match r {
            Some(v) => spec_index_conflict(message@, phase@) == Some(diags(v@)),
            None => spec_index_conflict(message@, phase@) is None,
        },
{
    proof {
        reveal_strlit(" in \"");
    }
    let v = second_piece_exec(message, " in \"")?;
    let quote = chars_of("\"");
    let path = strip_suffix_exec(&v, &quote)?;
    let d = error_with("content_index_conflict", message);
    let d = at_path(d, &path);
    let d = in_phase(d, phase);
    let d = d.with_suggestion("Rename `index.md` or remove the conflicting `_index.md` section");
    let mut out: Vec<Diagnostic> = Vec::new();
    out.push(d);
    assert(diags(out@) =~= seq![out@[0]@]);
    Some(out)
}

// ---------------------------------------------------------------------------
// Recognising a failure
// ---------------------------------------------------------------------------

/// The diagnostics of the first cause that reads as a template failure.
pub open spec fn first_template_cause(causes: Seq<Seq<char>>, phase: Seq<char>) -> Option<
    Seq<DiagnosticV>,
>
    decreases causes.len(),
{
    if causes.len() == 0 {
        None
    } else {
        match spec_template_failure_text(causes[0], phase) {
            Some(d) => Some(d),
            None => first_template_cause(causes.skip(1), phase),
        }
    }
}

/// The diagnostics a failure message stands for: the first recogniser that
/// reads it wins, in the order template text (message, then each cause),
/// answer validation, front matter, template directory, sidecar, index
/// conflict; otherwise one error with the default code.
pub open spec fn spec_infer_error_diagnostics(
    default_code: Seq<char>,
    message: Seq<char>,
    phase: Seq<char>,
    causes: Seq<Seq<char>>,
) -> Seq<DiagnosticV> {
    if let Some(d) = spec_template_failure_text(message, phase) {
        d
    } else if let Some(d) = first_template_cause(causes, phase) {
        d
    } else if let Some(d) = spec_answer_validation(message, phase) {
        d
    } else if let Some(d) = spec_front_matter_failure(message, phase, causes) {
        d
    } else if let Some(d) = spec_template_parse_failure(message, phase, causes) {
        d
    } else if let Some(d) = spec_sidecar_failure(message, phase) {
        d
    } else if let Some(d) = spec_index_conflict(message, phase) {
        d
    } else {
        seq![DiagnosticV::error(default_code, message).in_phase(phase).caused(causes)]
    }
}

pub proof fn lemma_infer_nonempty(
    default_code: Seq<char>,
    message: Seq<char>,
    phase: Seq<char>,
    causes: Seq<Seq<char>>,
)
    ensures
        spec_infer_error_diagnostics(default_code, message, phase, causes).len() > 0,
{
    lemma_first_template_cause_single(causes, phase);
    if let Some(body) = strip_prefix(message, "Answer validation failed:\n- "@) {
        lemma_split_nonempty(body, "\n- "@);
    }
}

proof fn lemma_first_template_cause_single(causes: Seq<Seq<char>>, phase: Seq<char>)
    ensures
        first_template_cause(causes, phase) matches Some(d) ==> d.len() == 1,
    decreases causes.len(),
{
    if causes.len() > 0 {
        lemma_first_template_cause_single(causes.skip(1), phase);
    }
}

fn first_template_cause_exec(causes: &Vec<Vec<char>>, phase: &[char]) -> (r: Option<
    Vec<Diagnostic>,
>)
    ensures
        match r {
            Some(v) => first_template_cause(views(causes@), phase@) == Some(diags(v@)),
            None => first_template_cause(views(causes@), phase@) is None,
        },
{
    let mut i: usize = 0;
    assert(views(causes@).skip(0) =~= views(causes@));
    while i < causes.len()
        invariant
            i <= causes@.len(),
            first_template_cause(views(causes@), phase@) == first_template_cause(
                views(causes@).skip(i as int),
                phase@,
            ),
        decreases causes.len() - i,
    {
        assert(views(causes@).skip(i as int)[0] == causes@[i as int]@);
        assert(views(causes@).skip(i as int).skip(1) =~= views(causes@).skip(i + 1));
        if let Some(d) = parse_template_failure_text(&causes[i], phase) {
            return Some(d);
        }
        i += 1;
    }
    assert(views(causes@).skip(i as int) =~= Seq::<Seq<char>>::empty());
    None
}

/// Recognises a failure message (and its causes) as structured diagnostics.
pub fn infer_error_diagnostics(
    default_code: &str,
    message: &[char],
    phase: &[char],
    causes: &Vec<Vec<char>>,
) -> (r: Vec<Diagnostic>)
    ensures
        diags(r@) == spec_infer_error_diagnostics(default_code@, message@, phase@, views(causes@)),
{
    if let Some(d) = parse_template_failure_text(message, phase) {
        return d;
    }
    if let Some(d) = first_template_cause_exec(causes, phase) {
        return d;
    }
    if let Some(d) = parse_answer_validation(message, phase) {
        return d;
    }
    if let Some(d) = parse_front_matter_failure(message, phase, causes) {
        return d;
    }
    if let Some(d) = parse_template_parse_failure(message, phase, causes) {
        return d;
    }
    if let Some(d) = parse_sidecar_failure(message, phase) {
        return d;
    }
    if let Some(d) = parse_index_conflict(message, phase) {
        return d;
    }
    let d = error_with(default_code, message);
    let d = in_phase(d, phase);
    let cs = strings_of(causes);
    let d = d.with_caused_by(cs);
    let mut out: Vec<Diagnostic> = Vec::new();
    out.push(d);
    assert(diags(out@) =~= seq![out@[0]@]);
    out
}

// ---------------------------------------------------------------------------
// Command failures
// ---------------------------------------------------------------------------

/// The diagnostics of a command that failed; never empty.
#[derive(Debug)]
pub struct CommandFailure {
    pub diagnostics: Vec<Diagnostic>,
}

impl CommandFailure {
    /// A failure with a single diagnostic.
    pub fn new(diagnostic: Diagnostic) -> (r: CommandFailure)
        ensures
            diags(r.diagnostics@) == seq![diagnostic@],
    {
        let mut v: Vec<Diagnostic> = Vec::new();
        v.push(diagnostic);
        assert(diags(v@) =~= seq![diagnostic@]);
        CommandFailure { diagnostics: v }
    }

    /// A failure with the given (non-empty) diagnostics.
    pub fn from_diagnostics(diagnostics: Vec<Diagnostic>) -> (r: CommandFailure)
        requires
            diagnostics@.len() > 0,
        ensures
            r.diagnostics@ == diagnostics@,
    {
        CommandFailure { diagnostics }
    }

    /// A failure whose diagnostics are recognised from a message and its causes.
    pub fn from_message_with_causes(
        code: &str,
        message: &str,
        phase: &str,
        causes: Vec<String>,
    ) -> (r: CommandFailure)
        ensures
            diags(r.diagnostics@) == spec_infer_error_diagnostics(
                code@,
                message@,
                phase@,
                strs(causes@),
            ),
            r.diagnostics@.len() > 0,
    {
        let m = chars_of(message);
        let p = chars_of(phase);
        let cs = char_vecs(&causes);
        let diagnostics = infer_error_diagnostics(code, &m, &p, &cs);
        proof {
            lemma_infer_nonempty(code@, message@, phase@, strs(causes@));
        }
        if diagnostics.len() == 0 {
            return Self::new(
                Diagnostic::error(code, message).with_phase(phase).with_caused_by(causes),
            );
        }
        Self::from_diagnostics(diagnostics)
    }
}

} // verus!
