//! `llms.txt` exports: the root index, the full export, and scoped packs by
//! entity, audience and curated selection.

use vstd::prelude::*;

use crate::answer::{spec_machine_ai_visible, AnswerAudience, AnswerIntent, LlmsPriority};
use crate::answers::{audience_key, audience_name, AnswerRecord, AnswerRecordV};
use crate::corpus::{last_with_id, ref_values, AnswerCorpus};
use crate::diagnostics::strs;
use crate::index::index_document;
use crate::json::{jv, Json, JsonV};
use crate::order::{
    insert_sorted_string, lemma_lex_irreflexive, lemma_lex_total, lemma_lex_transitive,
    lemma_strictly_sorted_unique, lex_lt, str_lt, strictly_sorted, values, Ordered,
};
use crate::text::{
    ascii_upper, chars_of, ends_with, ends_with_exec, extend, extend_str, starts_with,
    starts_with_exec, str_eq, string_of, to_ascii_upper, trim_end_matches, views,
};

verus! {

// ---------------------------------------------------------------------------
// Site settings and slugs
// ---------------------------------------------------------------------------

/// How path components are made from names.
#[derive(Clone, Copy, Debug, PartialEq, Eq, Structural)]
pub enum SlugifyStrategy {
    On,
    Safe,
    Off,
}

/// The site-wide settings that machine outputs read.
#[derive(Debug)]
pub struct SiteSettings {
    pub title: Option<String>,
    pub description: Option<String>,
    pub base_url: String,
    pub feed_filenames: Vec<String>,
    pub slugify_paths: SlugifyStrategy,
}

/// What `slug::slugify` returns for a text.
pub uninterp spec fn slugified(text: Seq<char>) -> Seq<char>;

/// `slug::slugify`. The result is named by `slugified`; the crate documents
/// that it holds only `a`-`z`, `0`-`9` and `-`, which the contract states.
#[verifier::external_body]
fn slugify_text(text: &str) -> (r: String)
    ensures
        r@ == slugified(text@),
        forall|i: int|
            0 <= i < r@.len() ==> ('a' <= #[trigger] r@[i] <= 'z') || ('0' <= r@[i] <= '9') || r@[i]
                == '-',
{
    slug::slugify(text)
}

/// The characters a safe path component may not hold.
pub open spec fn is_unsafe_path_char(c: char) -> bool {
    c == '<' || c == '>' || c == ':' || c == '"' || c == '/' || c == '\\' || c == '|' || c
        == '?' || c == '*'
}

/// The text without trailing spaces and dots.
pub open spec fn trim_end_space_dot(s: Seq<char>) -> Seq<char>
    decreases s.len(),
{
    if s.len() > 0 && (s.last() == ' ' || s.last() == '.') {
        trim_end_space_dot(s.drop_last())
    } else {
        s
    }
}

/// The path component of a name under a strategy.
pub open spec fn path_slug(s: Seq<char>, strategy: SlugifyStrategy) -> Seq<char> {
    match strategy {
        SlugifyStrategy::On => slugified(s),
        SlugifyStrategy::Safe => trim_end_space_dot(s).filter(|c: char| !is_unsafe_path_char(c)),
        SlugifyStrategy::Off => s,
    }
}

pub fn slugify_paths(s: &str, strategy: SlugifyStrategy) -> (r: String)
    ensures
        r@ == path_slug(s@, strategy),
{
    match strategy {
        SlugifyStrategy::On => slugify_text(s),
        SlugifyStrategy::Off => s.to_owned(),
        SlugifyStrategy::Safe => {
            let c = chars_of(s);
            let mut n = c.len();
            assert(c@.take(n as int) =~= c@);
            while n > 0 && (c[n - 1] == ' ' || c[n - 1] == '.')
                invariant
                    n <= c@.len(),
                    trim_end_space_dot(c@) == trim_end_space_dot(c@.take(n as int)),
                decreases n,
            {
                assert(c@.take(n as int).drop_last() =~= c@.take(n - 1));
                n -= 1;
            }
            assert(trim_end_space_dot(c@.take(n as int)) == c@.take(n as int));
            let mut out: Vec<char> = Vec::new();
            let mut i: usize = 0;
            while i < n
                invariant
                    i <= n <= c@.len(),
                    out@ == c@.take(i as int).filter(|x: char| !is_unsafe_path_char(x)),
                decreases n - i,
            {
                proof {
                    reveal(Seq::filter);
                }
                assert(c@.take(i + 1).drop_last() =~= c@.take(i as int));
                let x = c[i];
                if !(x == '<' || x == '>' || x == ':' || x == '"' || x == '/' || x == '\\' || x
                    == '|' || x == '?' || x == '*') {
                    out.push(x);
                }
                i += 1;
            }
            assert(c@.take(n as int).take(i as int) =~= c@.take(i as int));
            string_of(&out)
        },
    }
}

/// Whether a path ends with one of the feed file names.
pub open spec fn ends_with_any(path: Seq<char>, names: Seq<Seq<char>>) -> bool {
    exists|k: int| 0 <= k < names.len() && ends_with(path, #[trigger] names[k])
}

/// The absolute URL of a site path.
pub open spec fn permalink(base: Seq<char>, feeds: Seq<Seq<char>>, path: Seq<char>) -> Seq<char> {
    let trailing = if ends_with(path, "/"@) || ends_with_any(path, feeds) || path.len() == 0 {
        seq![]
    } else {
        seq!['/']
    };
    if ends_with(base, "/"@) && path == "/"@ {
        base
    } else if path == "/"@ {
        base + seq!['/']
    } else if ends_with(base, "/"@) && starts_with(path, "/"@) {
        base + path.skip(1) + trailing
    } else if ends_with(base, "/"@) || starts_with(path, "/"@) {
        base + path + trailing
    } else {
        base + seq!['/'] + path + trailing
    }
}

fn slash() -> (r: Vec<char>)
    ensures
        r@ == "/"@,
        r@ == seq!['/'],
{
    let mut v: Vec<char> = Vec::new();
    v.push('/');
    proof {
        reveal_strlit("/");
        assert(v@ =~= "/"@);
    }
    v
}

impl SiteSettings {
    pub fn make_permalink(&self, path: &str) -> (r: String)
        ensures
            r@ == permalink(self.base_url@, strs(self.feed_filenames@), path@),
    {
        let p = chars_of(path);
        let b = chars_of(self.base_url.as_str());
        let sl = slash();
        let mut feed = false;
        let mut k: usize = 0;
        let ghost feeds = strs(self.feed_filenames@);
        while k < self.feed_filenames.len()
            invariant
                k <= self.feed_filenames@.len(),
                feeds == strs(self.feed_filenames@),
                p@ == path@,
                feed == exists|t: int| 0 <= t < k && ends_with(p@, #[trigger] feeds[t]),
            decreases self.feed_filenames.len() - k,
        {
            let f = chars_of(self.feed_filenames[k].as_str());
            assert(feeds[k as int] == f@);
            if ends_with_exec(&p, &f) {
                feed = true;
            }
            k += 1;
        }
        let no_trailing = ends_with_exec(&p, &sl) || feed || p.len() == 0;
        let base_slash = ends_with_exec(&b, &sl);
        let path_is_root = crate::text::eq(&p, &sl);
        let path_slash = starts_with_exec(&p, &sl);
        let mut out: Vec<char> = Vec::new();
        if base_slash && path_is_root {
            extend(&mut out, &b);
        } else if path_is_root {
            extend(&mut out, &b);
            out.push('/');
        } else {
            extend(&mut out, &b);
            if base_slash && path_slash {
                let rest = crate::text::slice_copy(&p, 1, p.len());
                extend(&mut out, &rest);
            } else if base_slash || path_slash {
                extend(&mut out, &p);
            } else {
                out.push('/');
                extend(&mut out, &p);
            }
            if !no_trailing {
                out.push('/');
            }
        }
        let ghost expected = permalink(self.base_url@, feeds, path@);
        assert(out@ =~= expected);
        string_of(&out)
    }
}

// ---------------------------------------------------------------------------
// Visibility classes
// ---------------------------------------------------------------------------

pub open spec fn ai_visible(r: AnswerRecordV) -> bool {
    spec_machine_ai_visible(r.visibility, r.ai_visibility)
}

pub open spec fn llms_visible(r: AnswerRecordV) -> bool {
    ai_visible(r) && r.llms_priority != LlmsPriority::Hidden
}

pub open spec fn is_core(r: AnswerRecordV) -> bool {
    llms_visible(r) && r.llms_priority == LlmsPriority::Core
}

pub open spec fn is_optional(r: AnswerRecordV) -> bool {
    llms_visible(r) && r.llms_priority == LlmsPriority::Optional
}

fn is_llms_visible(r: &AnswerRecord) -> (b: bool)
    ensures
        b == llms_visible(r@),
{
    r.is_machine_ai_visible() && !matches!(r.llms_priority, LlmsPriority::Hidden)
}

fn is_core_exec(r: &AnswerRecord) -> (b: bool)
    ensures
        b == is_core(r@),
{
    is_llms_visible(r) && matches!(r.llms_priority, LlmsPriority::Core)
}

fn is_optional_exec(r: &AnswerRecord) -> (b: bool)
    ensures
        b == is_optional(r@),
{
    is_llms_visible(r) && matches!(r.llms_priority, LlmsPriority::Optional)
}

/// The classes of records that outputs select: reaching machine outputs,
/// listed in `llms.txt` files, core, and optional.
pub open spec fn class_pred(class: u8) -> spec_fn(AnswerRecordV) -> bool {
    |x: AnswerRecordV|
        if class == 0 {
            ai_visible(x)
        } else if class == 1 {
            llms_visible(x)
        } else if class == 2 {
            is_core(x)
        } else {
            is_optional(x)
        }
}

/// The records of a list that are in a class, in order.
fn select_refs<'a>(recs: &Vec<&'a AnswerRecord>, class: u8) -> (r: Vec<&'a AnswerRecord>)
    requires
        class < 4,
    ensures
        ref_values(r@) == ref_values(recs@).filter(class_pred(class)),
{
    let mut r: Vec<&'a AnswerRecord> = Vec::new();
    let mut i: usize = 0;
    while i < recs.len()
        invariant
            i <= recs@.len(),
            class < 4,
            ref_values(r@) == ref_values(recs@.take(i as int)).filter(class_pred(class)),
        decreases recs.len() - i,
    {
        proof {
            reveal(Seq::filter);
        }
        let ghost before = ref_values(r@);
        assert(ref_values(recs@.take(i + 1)).drop_last() =~= ref_values(recs@.take(i as int)));
        assert(ref_values(recs@.take(i + 1)).last() == recs@[i as int]@);
        let x = recs[i];
        let keep = if class == 0 {
            x.is_machine_ai_visible()
        } else if class == 1 {
            is_llms_visible(x)
        } else if class == 2 {
            is_core_exec(x)
        } else {
            is_optional_exec(x)
        };
        assert(keep == class_pred(class)(x@));
        if keep {
            r.push(x);
            assert(ref_values(r@) =~= before.push(x@));
        }
        i += 1;
    }
    assert(recs@.take(i as int) =~= recs@);
    r
}

// ---------------------------------------------------------------------------
// Rendering
// ---------------------------------------------------------------------------

pub open spec fn heading(h: Seq<char>) -> Seq<char> {
    "# "@ + h + "\n\n"@
}

/// A quoted description.
pub open spec fn quoted(t: Seq<char>) -> Seq<char> {
    "> "@ + t + "\n\n"@
}

/// A record as a Markdown link to its machine Markdown, with its summary.
pub open spec fn record_line(r: AnswerRecordV) -> Seq<char> {
    "- ["@ + r.title + "]("@ + r.markdown_url + "): "@ + r.summary + "\n"@
}

pub open spec fn record_lines(rs: Seq<AnswerRecordV>) -> Seq<char>
    decreases rs.len(),
{
    if rs.len() == 0 {
        seq![]
    } else {
        record_lines(rs.drop_last()) + record_line(rs.last())
    }
}

/// A titled list of records; nothing for an empty list.
pub open spec fn section(title: Seq<char>, rs: Seq<AnswerRecordV>) -> Seq<char> {
    if rs.len() == 0 {
        seq![]
    } else {
        "## "@ + title + "\n\n"@ + record_lines(rs) + "\n"@
    }
}

fn push_section(out: &mut Vec<char>, title: &str, records: &Vec<&AnswerRecord>)
    ensures
        final(out)@ == old(out)@ + section(title@, ref_values(records@)),
{
    if records.len() == 0 {
        assert(final(out)@ =~= old(out)@ + section(title@, ref_values(records@)));
        return;
    }
    extend_str(out, "## ");
    extend_str(out, title);
    extend_str(out, "\n\n");
    let ghost base = out@;
    let mut i: usize = 0;
    while i < records.len()
        invariant
            i <= records@.len(),
            out@ == base + record_lines(ref_values(records@.take(i as int))),
        decreases records.len() - i,
    {
        let r = records[i];
        extend_str(out, "- [");
        extend_str(out, r.title.as_str());
        extend_str(out, "](");
        extend_str(out, r.markdown_url.as_str());
        extend_str(out, "): ");
        extend_str(out, r.summary.as_str());
        extend_str(out, "\n");
        assert(ref_values(records@.take(i + 1)).drop_last() =~= ref_values(records@.take(i as int)));
        assert(ref_values(records@.take(i + 1)).last() == r@);
        i += 1;
    }
    assert(records@.take(i as int) =~= records@);
    extend_str(out, "\n");
    assert(final(out)@ =~= old(out)@ + section(title@, ref_values(records@)));
}

/// The default corpus description.
pub open spec fn corpus_text(description: Option<Seq<char>>) -> Seq<char> {
    match description {
        Some(d) => d,
        None => "Authoritative answer corpus compiled for human and agent consumption."@,
    }
}

pub open spec fn site_title(title: Option<Seq<char>>) -> Seq<char> {
    match title {
        Some(t) => t,
        None => "Ansorum"@,
    }
}

fn site_title_exec(site: &SiteSettings) -> (r: &str)
    ensures
        r@ == site_title(crate::diagnostics::ostr(site.title)),
{
    match &site.title {
        Some(t) => t.as_str(),
        None => "Ansorum",
    }
}

fn corpus_description(site: &SiteSettings) -> (r: &str)
    ensures
        r@ == corpus_text(crate::diagnostics::ostr(site.description)),
{
    match &site.description {
        Some(d) => d.as_str(),
        None => "Authoritative answer corpus compiled for human and agent consumption.",
    }
}

/// A scoped pack as the root index lists it.
pub struct PackReference {
    pub name: String,
    pub title: String,
    pub llms_url: String,
}

/// A pack as the root index links it: `(name, title, url)`.
pub open spec fn pack_ref_line(p: (Seq<char>, Seq<char>, Seq<char>)) -> Seq<char> {
    "- ["@ + p.1 + "]("@ + p.2 + "): Scoped pack `"@ + p.0 + "`\n"@
}

pub open spec fn pack_ref_lines(ps: Seq<(Seq<char>, Seq<char>, Seq<char>)>) -> Seq<char>
    decreases ps.len(),
{
    if ps.len() == 0 {
        seq![]
    } else {
        pack_ref_lines(ps.drop_last()) + pack_ref_line(ps.last())
    }
}

pub open spec fn pack_refs_view(ps: Seq<PackReference>) -> Seq<(Seq<char>, Seq<char>, Seq<char>)> {
    ps.map_values(|p: PackReference| (p.name@, p.title@, p.llms_url@))
}

/// The root `llms.txt`.
pub open spec fn root_llms(
    title: Option<Seq<char>>,
    description: Option<Seq<char>>,
    s: Seq<AnswerRecordV>,
    refs: Seq<(Seq<char>, Seq<char>, Seq<char>)>,
) -> Seq<char> {
    heading(site_title(title)) + quoted(corpus_text(description)) + section(
        "Core Answers"@,
        s.filter(class_pred(2)),
    ) + section("Optional"@, s.filter(class_pred(3))) + if refs.len() == 0 {
        seq![]
    } else {
        "## Scoped Packs\n\n"@ + pack_ref_lines(refs) + "\n"@
    }
}

/// One answer of the full export: a heading that links its machine
/// Markdown, then that Markdown (its summary when it has none).
pub open spec fn full_entry(r: AnswerRecordV) -> Seq<char> {
    "### ["@ + r.title + "]("@ + r.markdown_url + ")\n\n"@ + match r.machine_markdown {
        Some(m) => m,
        None => r.summary,
    } + "\n\n"@
}

pub open spec fn full_entries(rs: Seq<AnswerRecordV>) -> Seq<char>
    decreases rs.len(),
{
    if rs.len() == 0 {
        seq![]
    } else {
        full_entries(rs.drop_last()) + full_entry(rs.last())
    }
}

/// A titled run of full entries; nothing for an empty list.
pub open spec fn full_section(title: Seq<char>, rs: Seq<AnswerRecordV>) -> Seq<char> {
    if rs.len() == 0 {
        seq![]
    } else {
        "## "@ + title + "\n\n"@ + full_entries(rs)
    }
}

/// The full `llms-full.txt` export: the core answers, then the optional
/// ones, each with its machine Markdown.
pub open spec fn full_llms(
    title: Option<Seq<char>>,
    description: Option<Seq<char>>,
    s: Seq<AnswerRecordV>,
) -> Seq<char> {
    heading(site_title(title) + " Full Export"@) + quoted(corpus_text(description)) + full_section(
        "Core Answers"@,
        s.filter(class_pred(2)),
    ) + full_section("Optional"@, s.filter(class_pred(3)))
}

fn push_full_section(out: &mut Vec<char>, title: &str, records: &Vec<&AnswerRecord>)
    ensures
        final(out)@ == old(out)@ + full_section(title@, ref_values(records@)),
{
    if records.len() == 0 {
        assert(final(out)@ =~= old(out)@ + full_section(title@, ref_values(records@)));
        return;
    }
    extend_str(out, "## ");
    extend_str(out, title);
    extend_str(out, "\n\n");
    let ghost base = out@;
    let mut i: usize = 0;
    while i < records.len()
        invariant
            i <= records@.len(),
            out@ == base + full_entries(ref_values(records@.take(i as int))),
        decreases records.len() - i,
    {
        let r = records[i];
        let ghost before = out@;
        extend_str(out, "### [");
        extend_str(out, r.title.as_str());
        extend_str(out, "](");
        extend_str(out, r.markdown_url.as_str());
        extend_str(out, ")\n\n");
        match &r.machine_markdown {
            Some(m) => extend_str(out, m.as_str()),
            None => extend_str(out, r.summary.as_str()),
        }
        extend_str(out, "\n\n");
        assert(out@ =~= before + full_entry(r@));
        assert(ref_values(records@.take(i + 1)).drop_last() =~= ref_values(records@.take(i as int)));
        assert(ref_values(records@.take(i + 1)).last() == r@);
        i += 1;
    }
    assert(records@.take(i as int) =~= records@);
    assert(final(out)@ =~= old(out)@ + full_section(title@, ref_values(records@)));
}

/// The `llms.txt` of a pack, given the pack's records that reach machine
/// outputs.
pub open spec fn pack_llms(
    title: Option<Seq<char>>,
    pack_title: Seq<char>,
    pack_description: Seq<char>,
    rs: Seq<AnswerRecordV>,
) -> Seq<char> {
    heading(site_title(title) + " | "@ + pack_title) + quoted(pack_description) + section(
        "Core Answers"@,
        rs.filter(class_pred(2)),
    ) + section("Optional"@, rs.filter(class_pred(3)))
}

fn corpus_refs(answers: &AnswerCorpus) -> (r: Vec<&AnswerRecord>)
    ensures
        ref_values(r@) == answers@,
{
    let recs = answers.iter();
    let mut r: Vec<&AnswerRecord> = Vec::new();
    let mut i: usize = 0;
    while i < recs.len()
        invariant
            i <= recs@.len(),
            values(recs@) == answers@,
            ref_values(r@) == values(recs@.take(i as int)),
        decreases recs.len() - i,
    {
        let ghost before = ref_values(r@);
        r.push(&recs[i]);
        assert(ref_values(r@) =~= before.push(recs@[i as int]@));
        assert(values(recs@.take(i + 1)) =~= values(recs@.take(i as int)).push(recs@[i as int]@));
        i += 1;
    }
    assert(recs@.take(i as int) =~= recs@);
    r
}

pub fn render_root_llms(site: &SiteSettings, answers: &AnswerCorpus, pack_refs: &Vec<PackReference>) -> (r:
    String)
    ensures
        r@ == root_llms(
            crate::diagnostics::ostr(site.title),
            crate::diagnostics::ostr(site.description),
            answers@,
            pack_refs_view(pack_refs@),
        ),
{
    let all = corpus_refs(answers);
    let mut out: Vec<char> = Vec::new();
    extend_str(&mut out, "# ");
    extend_str(&mut out, site_title_exec(site));
    extend_str(&mut out, "\n\n");
    extend_str(&mut out, "> ");
    extend_str(&mut out, corpus_description(site));
    extend_str(&mut out, "\n\n");
    let ghost t = crate::diagnostics::ostr(site.title);
    let ghost d = crate::diagnostics::ostr(site.description);
    assert(out@ =~= heading(site_title(t)) + quoted(corpus_text(d)));
    let core = select_refs(&all, 2);
    push_section(&mut out, "Core Answers", &core);
    let optional = select_refs(&all, 3);
    push_section(&mut out, "Optional", &optional);
    let ghost before = out@;
    assert(before =~= heading(site_title(t)) + quoted(corpus_text(d)) + section(
        "Core Answers"@,
        answers@.filter(class_pred(2)),
    ) + section("Optional"@, answers@.filter(class_pred(3))));
    if pack_refs.len() > 0 {
        extend_str(&mut out, "## Scoped Packs\n\n");
        let ghost base = out@;
        let mut i: usize = 0;
        while i < pack_refs.len()
            invariant
                i <= pack_refs@.len(),
                out@ == base + pack_ref_lines(pack_refs_view(pack_refs@.take(i as int))),
            decreases pack_refs.len() - i,
        {
            let p = &pack_refs[i];
            extend_str(&mut out, "- [");
            extend_str(&mut out, p.title.as_str());
            extend_str(&mut out, "](");
            extend_str(&mut out, p.llms_url.as_str());
            extend_str(&mut out, "): Scoped pack `");
            extend_str(&mut out, p.name.as_str());
            extend_str(&mut out, "`\n");
            assert(pack_refs_view(pack_refs@.take(i + 1)).drop_last() =~= pack_refs_view(
                pack_refs@.take(i as int),
            ));
            assert(pack_refs_view(pack_refs@.take(i + 1)).last() == (
                p.name@,
                p.title@,
                p.llms_url@,
            ));
            i += 1;
        }
        assert(pack_refs@.take(i as int) =~= pack_refs@);
        extend_str(&mut out, "\n");
        assert(out@ =~= before + ("## Scoped Packs\n\n"@ + pack_ref_lines(
            pack_refs_view(pack_refs@),
        ) + "\n"@));
    } else {
        assert(pack_refs_view(pack_refs@).len() == 0);
        assert(out@ =~= before + Seq::<char>::empty());
    }
    let ghost refs = pack_refs_view(pack_refs@);
    assert(refs.len() == pack_refs@.len());
    assert(root_llms(t, d, answers@, refs) =~= before + if refs.len() == 0 {
        Seq::<char>::empty()
    } else {
        "## Scoped Packs\n\n"@ + pack_ref_lines(refs) + "\n"@
    });
    assert(out@ =~= root_llms(
        crate::diagnostics::ostr(site.title),
        crate::diagnostics::ostr(site.description),
        answers@,
        pack_refs_view(pack_refs@),
    ));
    string_of(&out)
}

pub fn render_full_llms(site: &SiteSettings, answers: &AnswerCorpus) -> (r: String)
    ensures
        r@ == full_llms(
            crate::diagnostics::ostr(site.title),
            crate::diagnostics::ostr(site.description),
            answers@,
        ),
{
    let all = corpus_refs(answers);
    let mut out: Vec<char> = Vec::new();
    extend_str(&mut out, "# ");
    extend_str(&mut out, site_title_exec(site));
    extend_str(&mut out, " Full Export");
    extend_str(&mut out, "\n\n");
    extend_str(&mut out, "> ");
    extend_str(&mut out, corpus_description(site));
    extend_str(&mut out, "\n\n");
    let core = select_refs(&all, 2);
    push_full_section(&mut out, "Core Answers", &core);
    let optional = select_refs(&all, 3);
    push_full_section(&mut out, "Optional", &optional);
    assert(out@ =~= full_llms(
        crate::diagnostics::ostr(site.title),
        crate::diagnostics::ostr(site.description),
        answers@,
    ));
    string_of(&out)
}

pub fn render_pack_llms(
    site: &SiteSettings,
    pack_title: &str,
    pack_description: &str,
    records: &Vec<&AnswerRecord>,
) -> (r: String)
    ensures
        r@ == pack_llms(
            crate::diagnostics::ostr(site.title),
            pack_title@,
            pack_description@,
            ref_values(records@),
        ),
{
    let mut out: Vec<char> = Vec::new();
    extend_str(&mut out, "# ");
    extend_str(&mut out, site_title_exec(site));
    extend_str(&mut out, " | ");
    extend_str(&mut out, pack_title);
    extend_str(&mut out, "\n\n");
    extend_str(&mut out, "> ");
    extend_str(&mut out, pack_description);
    extend_str(&mut out, "\n\n");
    let core = select_refs(records, 2);
    push_section(&mut out, "Core Answers", &core);
    let optional = select_refs(records, 3);
    push_section(&mut out, "Optional", &optional);
    assert(out@ =~= pack_llms(
        crate::diagnostics::ostr(site.title),
        pack_title@,
        pack_description@,
        ref_values(records@),
    ));
    string_of(&out)
}

/// `value` split on `-`, `_` and spaces, each part capitalized (ASCII), joined
/// by single spaces.
pub open spec fn title_case_words(value: Seq<char>) -> Seq<Seq<char>>
    decreases value.len(),
{
    title_case_from(value, 0, 0)
}

pub open spec fn is_title_sep(c: char) -> bool {
    c == '-' || c == '_' || c == ' '
}

/// The capitalized non-empty parts of `value[start..]`, where the current
/// part began at `start` and the scan is at `i`.
pub open spec fn title_case_from(value: Seq<char>, start: int, i: int) -> Seq<Seq<char>>
    decreases value.len() - i,
{
    if i < start || start < 0 || i > value.len() {
        seq![]
    } else if i == value.len() {
        capitalized_part(value.subrange(start, i))
    } else if is_title_sep(value[i]) {
        capitalized_part(value.subrange(start, i)) + title_case_from(value, i + 1, i + 1)
    } else {
        title_case_from(value, start, i + 1)
    }
}

/// A part with its first character upper-cased; nothing for an empty part.
pub open spec fn capitalized_part(part: Seq<char>) -> Seq<Seq<char>> {
    if part.len() == 0 {
        seq![]
    } else {
        seq![seq![ascii_upper(part[0])] + part.skip(1)]
    }
}

pub open spec fn title_case_text(value: Seq<char>) -> Seq<char> {
    crate::text::join(title_case_words(value), " "@)
}

pub fn title_case(value: &str) -> (r: String)
    ensures
        r@ == title_case_text(value@),
{
    let v = chars_of(value);
    let mut parts: Vec<Vec<char>> = Vec::new();
    let mut start: usize = 0;
    let mut i: usize = 0;
    while i < v.len()
        invariant
            start <= i <= v@.len(),
            views(parts@) + title_case_from(v@, start as int, i as int) == title_case_from(
                v@,
                0,
                0,
            ),
        decreases v.len() - i,
    {
        if v[i] == '-' || v[i] == '_' || v[i] == ' ' {
            if i > start {
                let mut part: Vec<char> = Vec::new();
                part.push(to_ascii_upper(v[start]));
                let rest = crate::text::slice_copy(&v, start + 1, i);
                extend(&mut part, &rest);
                let ghost before = views(parts@);
                parts.push(part);
                assert(part@ =~= seq![ascii_upper(v@.subrange(start as int, i as int)[0])]
                    + v@.subrange(start as int, i as int).skip(1));
                assert(views(parts@) =~= before + capitalized_part(
                    v@.subrange(start as int, i as int),
                ));
            } else {
                assert(capitalized_part(v@.subrange(start as int, i as int)) =~= Seq::<
                    Seq<char>,
                >::empty());
                assert(views(parts@) + capitalized_part(v@.subrange(start as int, i as int))
                    =~= views(parts@));
            }
            start = i + 1;
        }
        i += 1;
    }
    if i > start {
        let mut part: Vec<char> = Vec::new();
        part.push(to_ascii_upper(v[start]));
        let rest = crate::text::slice_copy(&v, start + 1, i);
        extend(&mut part, &rest);
        let ghost before = views(parts@);
        parts.push(part);
        assert(part@ =~= seq![ascii_upper(v@.subrange(start as int, i as int)[0])]
            + v@.subrange(start as int, i as int).skip(1));
        assert(views(parts@) =~= before + capitalized_part(v@.subrange(start as int, i as int)));
    } else {
        assert(views(parts@) + capitalized_part(v@.subrange(start as int, i as int)) =~= views(
            parts@,
        ));
    }
    let sep = chars_of(" ");
    let joined = crate::text::join_exec(&parts, &sep);
    string_of(&joined)
}

// ---------------------------------------------------------------------------
// Packs
// ---------------------------------------------------------------------------

/// The selection in a curated pack file.
#[derive(Debug)]
pub struct CuratedPackFile {
    pub title: Option<String>,
    pub description: Option<String>,
    pub answers: Vec<String>,
    pub entities: Vec<String>,
    pub audiences: Vec<AnswerAudience>,
    pub intents: Vec<AnswerIntent>,
}

/// A curated pack with the definition read from its file.
#[derive(Debug)]
pub struct LoadedPack {
    pub name: String,
    /// The file's path, as messages show it.
    pub path: String,
    pub definition: CuratedPackFile,
}

/// A pack of answers with its output path and texts.
pub struct PackDefinition<'a> {
    pub name: String,
    pub path: String,
    pub title: String,
    pub description: String,
    pub records: Vec<&'a AnswerRecord>,
    /// What made the pack, as collision messages name it.
    pub origin: String,
}

/// The mathematical value of a [`PackDefinition`].
pub struct PackV {
    pub name: Seq<char>,
    pub path: Seq<char>,
    pub title: Seq<char>,
    pub description: Seq<char>,
    pub records: Seq<AnswerRecordV>,
    pub origin: Seq<char>,
}

impl<'a> View for PackDefinition<'a> {
    type V = PackV;

    open spec fn view(&self) -> PackV {
        PackV {
            name: self.name@,
            path: self.path@,
            title: self.title@,
            description: self.description@,
            records: ref_values(self.records@),
            origin: self.origin@,
        }
    }
}

impl<'a> PackDefinition<'a> {
    /// The pack's answers that reach machine outputs, in pack order.
    pub fn ai_visible_records(&self) -> (r: Vec<&'a AnswerRecord>)
        ensures
            ref_values(r@) == ref_values(self.records@).filter(class_pred(0)),
    {
        select_refs(&self.records, 0)
    }
}

/// References to records are ordered by id.
impl<'a> Ordered for &'a AnswerRecord {
    open spec fn less(a: AnswerRecordV, b: AnswerRecordV) -> bool {
        lex_lt(a.id, b.id)
    }

    proof fn less_irreflexive(a: AnswerRecordV) {
        lemma_lex_irreflexive(a.id);
    }

    proof fn less_transitive(a: AnswerRecordV, b: AnswerRecordV, c: AnswerRecordV) {
        lemma_lex_transitive(a.id, b.id, c.id);
    }

    fn lt(&self, other: &Self) -> (r: bool) {
        str_lt(self.id.as_str(), other.id.as_str())
    }
}

/// Map insertion of a pack into packs kept sorted by name.
pub open spec fn pack_insert(ps: Seq<PackV>, p: PackV) -> Seq<PackV>
    decreases ps.len(),
{
    if ps.len() == 0 {
        seq![p]
    } else if ps[0].name == p.name {
        seq![p] + ps.skip(1)
    } else if lex_lt(p.name, ps[0].name) {
        seq![p] + ps
    } else {
        seq![ps[0]] + pack_insert(ps.skip(1), p)
    }
}

proof fn lemma_pack_insert_at(ps: Seq<PackV>, p: PackV, i: int)
    requires
        0 <= i <= ps.len(),
        forall|j: int| 0 <= j < i ==> lex_lt(#[trigger] ps[j].name, p.name),
    ensures
        pack_insert(ps, p) == ps.take(i) + pack_insert(ps.skip(i), p),
    decreases i,
{
    if i == 0 {
        assert(ps.skip(0) =~= ps);
        assert(ps.take(0) + pack_insert(ps, p) =~= pack_insert(ps, p));
    } else {
        assert(lex_lt(ps[0].name, p.name));
        lemma_lex_irreflexive(p.name);
        if lex_lt(p.name, ps[0].name) {
            lemma_lex_transitive(p.name, ps[0].name, p.name);
        }
        let t = ps.skip(1);
        assert forall|j: int| 0 <= j < i - 1 implies lex_lt(#[trigger] t[j].name, p.name) by {
            assert(t[j] == ps[j + 1]);
        }
        lemma_pack_insert_at(t, p, i - 1);
        assert(t.skip(i - 1) =~= ps.skip(i));
        assert(seq![ps[0]] + t.take(i - 1) =~= ps.take(i));
    }
}

fn insert_pack<'a>(ps: &mut Vec<PackDefinition<'a>>, p: PackDefinition<'a>)
    ensures
        values(final(ps)@) == pack_insert(values(old(ps)@), p@),
{
    let ghost pv = values(ps@);
    let mut i: usize = 0;
    while i < ps.len() && str_lt(ps[i].name.as_str(), p.name.as_str())
        invariant
            i <= ps@.len(),
            pv == values(ps@),
            forall|j: int| 0 <= j < i ==> lex_lt(#[trigger] pv[j].name, p.name@),
        decreases ps.len() - i,
    {
        assert(pv[i as int].name == ps@[i as int].name@);
        i += 1;
    }
    let ghost q = p@;
    proof {
        lemma_pack_insert_at(pv, q, i as int);
    }
    if i < ps.len() && ps[i].name == p.name {
        proof {
            assert(pv.skip(i as int)[0] == pv[i as int]);
        }
        ps.set(i, p);
        assert(values(ps@) =~= pv.take(i as int) + (seq![q] + pv.skip(i as int).skip(1)));
    } else {
        proof {
            if i < pv.len() {
                assert(pv.skip(i as int)[0] == pv[i as int]);
                assert(pv[i as int].name == ps@[i as int].name@);
                lemma_lex_total(q.name, pv[i as int].name);
            }
        }
        ps.insert(i, p);
        assert(values(ps@) =~= pv.take(i as int) + (seq![q] + pv.skip(i as int)));
    }
}

/// The entities of the answers listed in `llms.txt` files, each once, sorted.
pub open spec fn visible_entities(s: Seq<AnswerRecordV>) -> Seq<Seq<char>> {
    choose|r: Seq<Seq<char>>|
        strictly_sorted::<String>(r) && forall|x: Seq<char>|
            r.contains(x) <==> exists|k: int|
                0 <= k < s.len() && llms_visible(#[trigger] s[k]) && s[k].entity == x
}

pub open spec fn entity_pack(strategy: SlugifyStrategy, s: Seq<AnswerRecordV>, e: Seq<char>) -> PackV {
    PackV {
        name: path_slug(e, strategy),
        path: path_slug(e, strategy),
        title: e + " answers"@,
        description: "Scoped AI-visible answers for the `"@ + e + "` entity."@,
        records: s.filter(|r: AnswerRecordV| r.entity == e).filter(class_pred(1)),
        origin: "auto entity pack for `"@ + e + "`"@,
    }
}

pub open spec fn with_entity_packs(
    ps: Seq<PackV>,
    strategy: SlugifyStrategy,
    s: Seq<AnswerRecordV>,
    es: Seq<Seq<char>>,
) -> Seq<PackV>
    decreases es.len(),
{
    if es.len() == 0 {
        ps
    } else {
        let prev = with_entity_packs(ps, strategy, s, es.drop_last());
        let p = entity_pack(strategy, s, es.last());
        if p.records.len() > 0 {
            pack_insert(prev, p)
        } else {
            prev
        }
    }
}

pub open spec fn all_audiences() -> Seq<AnswerAudience> {
    seq![
        AnswerAudience::Customer,
        AnswerAudience::Prospect,
        AnswerAudience::Developer,
        AnswerAudience::Admin,
        AnswerAudience::Internal,
    ]
}

pub open spec fn audience_pack(strategy: SlugifyStrategy, s: Seq<AnswerRecordV>, a: AnswerAudience) -> PackV {
    PackV {
        name: path_slug(audience_name(a), strategy),
        path: path_slug(audience_name(a), strategy),
        title: title_case_text(audience_name(a)) + " answers"@,
        description: "Scoped AI-visible answers for the `"@ + audience_name(a) + "` audience."@,
        records: s.filter(|r: AnswerRecordV| r.audience == a).filter(class_pred(1)),
        origin: "auto audience pack for `"@ + audience_name(a) + "`"@,
    }
}

pub open spec fn with_audience_packs(
    ps: Seq<PackV>,
    strategy: SlugifyStrategy,
    s: Seq<AnswerRecordV>,
    auds: Seq<AnswerAudience>,
) -> Seq<PackV>
    decreases auds.len(),
{
    if auds.len() == 0 {
        ps
    } else {
        let prev = with_audience_packs(ps, strategy, s, auds.drop_last());
        let p = audience_pack(strategy, s, auds.last());
        if p.records.len() > 0 {
            pack_insert(prev, p)
        } else {
            prev
        }
    }
}

fn visible_entities_exec(recs: &Vec<&AnswerRecord>) -> (r: Vec<String>)
    ensures
        values(r@) == visible_entities(ref_values(recs@)),
{
    let ghost s = ref_values(recs@);
    let mut r: Vec<String> = Vec::new();
    let mut i: usize = 0;
    while i < recs.len()
        invariant
            i <= recs@.len(),
            s == ref_values(recs@),
            strictly_sorted::<String>(values(r@)),
            forall|x: Seq<char>|
                values(r@).contains(x) <==> exists|k: int|
                    0 <= k < i && llms_visible(#[trigger] s[k]) && s[k].entity == x,
        decreases recs.len() - i,
    {
        assert(s[i as int] == recs@[i as int]@);
        if is_llms_visible(recs[i]) {
            let ghost before = values(r@);
            let _ = insert_sorted_string(&mut r, recs[i].entity.clone());
            assert forall|x: Seq<char>|
                values(r@).contains(x) <==> exists|k: int|
                    0 <= k < i + 1 && llms_visible(#[trigger] s[k]) && s[k].entity == x by {
                if exists|k: int| 0 <= k < i + 1 && llms_visible(#[trigger] s[k]) && s[k].entity == x {
                    let k = choose|k: int| 0 <= k < i + 1 && llms_visible(#[trigger] s[k]) && s[k].entity == x;
                    if k < i {
                        assert(before.contains(x));
                    }
                }
            }
        } else {
            assert forall|x: Seq<char>|
                values(r@).contains(x) <==> exists|k: int|
                    0 <= k < i + 1 && llms_visible(#[trigger] s[k]) && s[k].entity == x by {
                if exists|k: int| 0 <= k < i + 1 && llms_visible(#[trigger] s[k]) && s[k].entity == x {
                    let k = choose|k: int| 0 <= k < i + 1 && llms_visible(#[trigger] s[k]) && s[k].entity == x;
                    assert(k != i);
                }
            }
        }
        i += 1;
    }
    proof {
        let w = visible_entities(s);
        assert(strictly_sorted::<String>(w) && forall|x: Seq<char>|
            w.contains(x) <==> exists|k: int|
                0 <= k < s.len() && llms_visible(#[trigger] s[k]) && s[k].entity == x);
        lemma_strictly_sorted_unique::<String>(values(r@), w);
    }
    r
}

fn concat3(a: &str, b: &str, c: &str) -> (r: String)
    ensures
        r@ == a@ + b@ + c@,
{
    let mut v: Vec<char> = Vec::new();
    extend_str(&mut v, a);
    extend_str(&mut v, b);
    extend_str(&mut v, c);
    string_of(&v)
}

fn concat2(a: &str, b: &str) -> (r: String)
    ensures
        r@ == a@ + b@,
{
    let mut v: Vec<char> = Vec::new();
    extend_str(&mut v, a);
    extend_str(&mut v, b);
    string_of(&v)
}

fn entity_pack_exec<'a>(strategy: SlugifyStrategy, answers: &'a AnswerCorpus, e: &String) -> (r:
    PackDefinition<'a>)
    ensures
        r@ == entity_pack(strategy, answers@, e@),
{
    let same = answers.same_entity(e.as_str());
    let records = select_refs(&same, 1);
    let name = slugify_paths(e.as_str(), strategy);
    let path = slugify_paths(e.as_str(), strategy);
    let title = concat2(e.as_str(), " answers");
    let description = concat3("Scoped AI-visible answers for the `", e.as_str(), "` entity.");
    let origin = concat3("auto entity pack for `", e.as_str(), "`");
    PackDefinition { name, path, title, description, records, origin }
}

fn audience_pack_exec<'a>(strategy: SlugifyStrategy, answers: &'a AnswerCorpus, a: AnswerAudience) -> (r:
    PackDefinition<'a>)
    ensures
        r@ == audience_pack(strategy, answers@, a),
{
    let same = answers.same_audience(&a);
    let records = select_refs(&same, 1);
    let an = audience_key(&a);
    let name = slugify_paths(an, strategy);
    let path = slugify_paths(an, strategy);
    let tc = title_case(an);
    let title = concat2(tc.as_str(), " answers");
    let description = concat3("Scoped AI-visible answers for the `", an, "` audience.");
    let origin = concat3("auto audience pack for `", an, "`");
    PackDefinition { name, path, title, description, records, origin }
}

// ---------------------------------------------------------------------------
// Curated packs
// ---------------------------------------------------------------------------

/// The first id of a list that names no record, if any.
pub open spec fn first_unknown_id(s: Seq<AnswerRecordV>, ids: Seq<Seq<char>>) -> Option<Seq<char>>
    decreases ids.len(),
{
    if ids.len() == 0 {
        None
    } else {
        match first_unknown_id(s, ids.drop_last()) {
            Some(x) => Some(x),
            None => if last_with_id(s, ids.last()) is None {
                Some(ids.last())
            } else {
                None
            },
        }
    }
}

pub open spec fn by_entities(s: Seq<AnswerRecordV>, es: Seq<Seq<char>>) -> Seq<AnswerRecordV>
    decreases es.len(),
{
    if es.len() == 0 {
        seq![]
    } else {
        by_entities(s, es.drop_last()) + s.filter(|r: AnswerRecordV| r.entity == es.last())
    }
}

pub open spec fn by_audiences(s: Seq<AnswerRecordV>, auds: Seq<AnswerAudience>) -> Seq<AnswerRecordV>
    decreases auds.len(),
{
    if auds.len() == 0 {
        seq![]
    } else {
        by_audiences(s, auds.drop_last()) + s.filter(|r: AnswerRecordV| r.audience == auds.last())
    }
}

pub open spec fn by_intents(s: Seq<AnswerRecordV>, ints: Seq<AnswerIntent>) -> Seq<AnswerRecordV>
    decreases ints.len(),
{
    if ints.len() == 0 {
        seq![]
    } else {
        by_intents(s, ints.drop_last()) + s.filter(|r: AnswerRecordV| r.intent == ints.last())
    }
}

/// The records a pack file names, in the order it names them: by id, then
/// by entity, audience and intent.
pub open spec fn curated_candidates(s: Seq<AnswerRecordV>, f: CuratedPackFile) -> Seq<AnswerRecordV> {
    crate::corpus::resolved(s, strs(f.answers@)) + by_entities(s, strs(f.entities@)) + by_audiences(
        s,
        f.audiences@,
    ) + by_intents(s, f.intents@)
}

/// Each candidate counts once, by id, and is kept when it is listed in
/// `llms.txt` files: the ids seen and the records kept.
pub open spec fn select_all(rs: Seq<AnswerRecordV>) -> (Set<Seq<char>>, Seq<AnswerRecordV>)
    decreases rs.len(),
{
    if rs.len() == 0 {
        (Set::empty(), seq![])
    } else {
        let prev = select_all(rs.drop_last());
        let r = rs.last();
        if prev.0.contains(r.id) {
            prev
        } else {
            (
                prev.0.insert(r.id),
                if llms_visible(r) {
                    prev.1.push(r)
                } else {
                    prev.1
                },
            )
        }
    }
}

/// Records sorted by id.
pub open spec fn sorted_by_id(rs: Seq<AnswerRecordV>) -> Seq<AnswerRecordV> {
    choose|r: Seq<AnswerRecordV>|
        strictly_sorted::<&'static AnswerRecord>(r) && forall|x: AnswerRecordV|
            r.contains(x) <==> rs.contains(x)
}

/// The curated pack of a loaded definition, or why it is refused.
pub open spec fn curated_pack(s: Seq<AnswerRecordV>, lp: LoadedPack) -> Result<PackV, Seq<char>> {
    let f = lp.definition;
    let name = lp.name@;
    let path = lp.path@;
    match first_unknown_id(s, strs(f.answers@)) {
        Some(id) => Err(
            "Curated pack `"@ + name + "` references unknown answer id `"@ + id + "` in "@ + path,
        ),
        None => if f.answers@.len() == 0 && f.entities@.len() == 0 && f.audiences@.len() == 0
            && f.intents@.len() == 0 {
            Err(
                "Curated pack `"@ + name + "` in "@ + path
                    + " must select answers by `answers`, `entities`, `audiences`, or `intents`"@,
            )
        } else {
            Ok(
                PackV {
                    name,
                    path: name,
                    title: match f.title {
                        Some(t) => t@,
                        None => title_case_text(name) + " pack"@,
                    },
                    description: match f.description {
                        Some(d) => d@,
                        None => "Curated AI-visible answer pack `"@ + name + "`."@,
                    },
                    records: sorted_by_id(select_all(curated_candidates(s, f)).1),
                    origin: "curated pack `"@ + name + "` from "@ + path,
                },
            )
        },
    }
}

proof fn lemma_first_unknown_extends(s: Seq<AnswerRecordV>, ids: Seq<Seq<char>>, n: int)
    requires
        0 <= n <= ids.len(),
        first_unknown_id(s, ids.take(n)) is Some,
    ensures
        first_unknown_id(s, ids) == first_unknown_id(s, ids.take(n)),
    decreases ids.len() - n,
{
    if n < ids.len() {
        assert(ids.take(n + 1).drop_last() =~= ids.take(n));
        lemma_first_unknown_extends(s, ids, n + 1);
    } else {
        assert(ids.take(n) =~= ids);
    }
}

/// The selection state kept by the executable selection: ids seen (strictly
/// sorted) and records kept (strictly sorted by id).
pub open spec fn selection_matches(
    sel: Seq<Seq<char>>,
    kept: Seq<AnswerRecordV>,
    st: (Set<Seq<char>>, Seq<AnswerRecordV>),
) -> bool {
    &&& strictly_sorted::<String>(sel)
    &&& strictly_sorted::<&'static AnswerRecord>(kept)
    &&& forall|x: Seq<char>| sel.contains(x) <==> st.0.contains(x)
    &&& forall|x: AnswerRecordV| kept.contains(x) <==> st.1.contains(x)
    &&& forall|k: int| 0 <= k < kept.len() ==> sel.contains(#[trigger] kept[k].id)
}

/// Inserts a record into a vector strictly sorted by id that holds no record
/// with its id.
#[verifier::spinoff_prover]
fn insert_by_id<'a>(v: &mut Vec<&'a AnswerRecord>, r: &'a AnswerRecord)
    requires
        strictly_sorted::<&'static AnswerRecord>(ref_values(old(v)@)),
        forall|k: int| 0 <= k < old(v)@.len() ==> old(v)@[k].id@ != r.id@,
    ensures
        strictly_sorted::<&'static AnswerRecord>(ref_values(final(v)@)),
        forall|y: AnswerRecordV|
            ref_values(final(v)@).contains(y) <==> (ref_values(old(v)@).contains(y) || y == r@),
{
    let ghost old_vals = ref_values(v@);
    let mut i: usize = 0;
    while i < v.len() && str_lt(v[i].id.as_str(), r.id.as_str())
        invariant
            i <= v@.len(),
            v@ == old(v)@,
            old_vals == ref_values(old(v)@),
            strictly_sorted::<&'static AnswerRecord>(old_vals),
            forall|j: int| 0 <= j < i ==> lex_lt(#[trigger] old_vals[j].id, r.id@),
        decreases v.len() - i,
    {
        assert(old_vals[i as int] == v@[i as int]@);
        i += 1;
    }
    let ghost rv = r@;
    proof {
        if i < v@.len() {
            assert(old_vals[i as int] == v@[i as int]@);
            assert(old_vals[i as int].id != rv.id);
            lemma_lex_total(rv.id, old_vals[i as int].id);
        }
    }
    v.insert(i, r);
    proof {
        let nv = ref_values(v@);
        assert(nv =~= old_vals.insert(i as int, rv));
        assert forall|a: int, b: int| 0 <= a < b < nv.len() implies lex_lt(nv[a].id, nv[b].id) by {
            if b < i {
                assert(<&'static AnswerRecord as Ordered>::less(old_vals[a], old_vals[b]));
            } else if b == i {
                assert(lex_lt(old_vals[a].id, rv.id));
            } else if a < i {
                assert(lex_lt(old_vals[a].id, rv.id));
                if b > i + 1 {
                    assert(<&'static AnswerRecord as Ordered>::less(old_vals[i as int], old_vals[b - 1]));
                    lemma_lex_transitive(old_vals[a].id, rv.id, old_vals[i as int].id);
                    lemma_lex_transitive(old_vals[a].id, old_vals[i as int].id, old_vals[b - 1].id);
                } else {
                    lemma_lex_transitive(old_vals[a].id, rv.id, old_vals[b - 1].id);
                }
            } else if a == i {
                if b > i + 1 {
                    assert(<&'static AnswerRecord as Ordered>::less(old_vals[i as int], old_vals[b - 1]));
                    lemma_lex_transitive(rv.id, old_vals[i as int].id, old_vals[b - 1].id);
                }
            } else {
                assert(<&'static AnswerRecord as Ordered>::less(old_vals[a - 1], old_vals[b - 1]));
            }
        }
        assert forall|y: AnswerRecordV| nv.contains(y) <==> (old_vals.contains(y) || y == rv) by {
            if nv.contains(y) {
                let j = choose|j: int| 0 <= j < nv.len() && nv[j] == y;
                if j < i {
                    assert(old_vals[j] == y);
                } else if j > i {
                    assert(old_vals[j - 1] == y);
                }
            }
            if old_vals.contains(y) {
                let j = choose|j: int| 0 <= j < old_vals.len() && old_vals[j] == y;
                if j < i {
                    assert(nv[j] == y);
                } else {
                    assert(nv[j + 1] == y);
                }
            }
            if y == rv {
                assert(nv[i as int] == y);
            }
        }
    }
}

/// Offers one candidate to the selection.
fn select_step<'a>(
    sel: &mut Vec<String>,
    kept: &mut Vec<&'a AnswerRecord>,
    r: &'a AnswerRecord,
    Ghost(cands): Ghost<Seq<AnswerRecordV>>,
)
    requires
        selection_matches(values(old(sel)@), ref_values(old(kept)@), select_all(cands)),
    ensures
        selection_matches(values(final(sel)@), ref_values(final(kept)@), select_all(cands.push(r@))),
{
    let ghost st = select_all(cands);
    assert(cands.push(r@).drop_last() =~= cands);
    let ghost old_kept = ref_values(kept@);
    let added = insert_sorted_string(sel, r.id.clone());
    if added && is_llms_visible(r) {
        proof {
            assert forall|k: int| 0 <= k < kept@.len() implies kept@[k].id@ != r.id@ by {
                assert(old_kept[k] == kept@[k]@);
                assert(values(old(sel)@).contains(old_kept[k].id));
            }
        }
        insert_by_id(kept, r);
    }
    proof {
        let nst = select_all(cands.push(r@));
        let nk = ref_values(kept@);
        assert forall|k: int| 0 <= k < nk.len() implies values(sel@).contains(#[trigger] nk[k].id) by {
            if nk[k] != r@ {
                assert(nk.contains(nk[k]));
                assert(old_kept.contains(nk[k]));
                let t = choose|t: int| 0 <= t < old_kept.len() && old_kept[t] == nk[k];
                assert(values(old(sel)@).contains(old_kept[t].id));
            }
        }
        assert forall|x: AnswerRecordV| nk.contains(x) <==> nst.1.contains(x) by {
            if added && llms_visible(r@) {
                assert(nst.1 == st.1.push(r@));
                if st.1.contains(x) {
                    let t = choose|t: int| 0 <= t < st.1.len() && st.1[t] == x;
                    assert(st.1.push(r@)[t] == x);
                }
                if st.1.push(r@).contains(x) && x != r@ {
                    let t = choose|t: int| 0 <= t < st.1.push(r@).len() && st.1.push(r@)[t] == x;
                    assert(st.1[t] == x);
                }
                if x == r@ {
                    assert(st.1.push(r@)[st.1.len() as int] == x);
                }
            }
        }
    }
}

fn offer_all<'a>(
    sel: &mut Vec<String>,
    kept: &mut Vec<&'a AnswerRecord>,
    list: &Vec<&'a AnswerRecord>,
    Ghost(cands): Ghost<Seq<AnswerRecordV>>,
)
    requires
        selection_matches(values(old(sel)@), ref_values(old(kept)@), select_all(cands)),
    ensures
        selection_matches(
            values(final(sel)@),
            ref_values(final(kept)@),
            select_all(cands + ref_values(list@)),
        ),
{
    let mut i: usize = 0;
    while i < list.len()
        invariant
            i <= list@.len(),
            selection_matches(
                values(sel@),
                ref_values(kept@),
                select_all(cands + ref_values(list@.take(i as int))),
            ),
        decreases list.len() - i,
    {
        let ghost c = cands + ref_values(list@.take(i as int));
        select_step(sel, kept, list[i], Ghost(c));
        assert(c.push(list@[i as int]@) =~= cands + ref_values(list@.take(i + 1)));
        i += 1;
    }
    assert(list@.take(i as int) =~= list@);
}

/// The curated pack of a loaded definition.
pub fn curated_pack_exec<'a>(answers: &'a AnswerCorpus, lp: &LoadedPack) -> (r: Result<
    PackDefinition<'a>,
    String,
>)
    ensures
        match r {
            Ok(p) => curated_pack(answers@, *lp) == Ok::<PackV, Seq<char>>(p@),
            Err(e) => curated_pack(answers@, *lp) == Err::<PackV, Seq<char>>(e@),
        },
{
    let ghost s = answers@;
    let f = &lp.definition;
    let mut sel: Vec<String> = Vec::new();
    let mut kept: Vec<&'a AnswerRecord> = Vec::new();
    let ghost ids = strs(f.answers@);
    assert(select_all(Seq::empty()) == (Set::<Seq<char>>::empty(), Seq::<AnswerRecordV>::empty()));
    let mut i: usize = 0;
    while i < f.answers.len()
        invariant
            i <= f.answers@.len(),
            s == answers@,
            f == &lp.definition,
            ids == strs(f.answers@),
            first_unknown_id(s, ids.take(i as int)) is None,
            selection_matches(
                values(sel@),
                ref_values(kept@),
                select_all(crate::corpus::resolved(s, ids.take(i as int))),
            ),
        decreases f.answers.len() - i,
    {
        let id = &f.answers[i];
        assert(ids.take(i + 1).drop_last() =~= ids.take(i as int));
        assert(ids.take(i + 1).last() == id@);
        match answers.get(id.as_str()) {
            None => {
                proof {
                    assert(first_unknown_id(s, ids.take(i + 1)) == Some(id@));
                    lemma_first_unknown_extends(s, ids, i + 1);
                }
                let mut m: Vec<char> = Vec::new();
                extend_str(&mut m, "Curated pack `");
                extend_str(&mut m, lp.name.as_str());
                extend_str(&mut m, "` references unknown answer id `");
                extend_str(&mut m, id.as_str());
                extend_str(&mut m, "` in ");
                extend_str(&mut m, lp.path.as_str());
                return Err(string_of(&m));
            },
            Some(rec) => {
                let ghost c = crate::corpus::resolved(s, ids.take(i as int));
                select_step(&mut sel, &mut kept, rec, Ghost(c));
                assert(crate::corpus::resolved(s, ids.take(i + 1)) =~= c.push(rec@));
            },
        }
        i += 1;
    }
    assert(ids.take(i as int) =~= ids);
    let ghost base = crate::corpus::resolved(s, ids);
    let ghost es = strs(f.entities@);
    let mut j: usize = 0;
    while j < f.entities.len()
        invariant
            j <= f.entities@.len(),
            s == answers@,
            es == strs(f.entities@),
            selection_matches(
                values(sel@),
                ref_values(kept@),
                select_all(base + by_entities(s, es.take(j as int))),
            ),
        decreases f.entities.len() - j,
    {
        let list = answers.same_entity(f.entities[j].as_str());
        offer_all(&mut sel, &mut kept, &list, Ghost(base + by_entities(s, es.take(j as int))));
        assert(es.take(j + 1).drop_last() =~= es.take(j as int));
        assert(es.take(j + 1).last() == f.entities@[j as int]@);
        assert(base + by_entities(s, es.take(j as int)) + ref_values(list@) =~= base + by_entities(
            s,
            es.take(j + 1),
        ));
        j += 1;
    }
    assert(es.take(j as int) =~= es);
    let ghost base2 = base + by_entities(s, es);
    let mut k: usize = 0;
    while k < f.audiences.len()
        invariant
            k <= f.audiences@.len(),
            s == answers@,
            selection_matches(
                values(sel@),
                ref_values(kept@),
                select_all(base2 + by_audiences(s, f.audiences@.take(k as int))),
            ),
        decreases f.audiences.len() - k,
    {
        let list = answers.same_audience(&f.audiences[k]);
        offer_all(
            &mut sel,
            &mut kept,
            &list,
            Ghost(base2 + by_audiences(s, f.audiences@.take(k as int))),
        );
        assert(f.audiences@.take(k + 1).drop_last() =~= f.audiences@.take(k as int));
        assert(base2 + by_audiences(s, f.audiences@.take(k as int)) + ref_values(list@)
            =~= base2 + by_audiences(s, f.audiences@.take(k + 1)));
        k += 1;
    }
    assert(f.audiences@.take(k as int) =~= f.audiences@);
    let ghost base3 = base2 + by_audiences(s, f.audiences@);
    let mut t: usize = 0;
    while t < f.intents.len()
        invariant
            t <= f.intents@.len(),
            s == answers@,
            selection_matches(
                values(sel@),
                ref_values(kept@),
                select_all(base3 + by_intents(s, f.intents@.take(t as int))),
            ),
        decreases f.intents.len() - t,
    {
        let list = answers.same_intent(&f.intents[t]);
        offer_all(
            &mut sel,
            &mut kept,
            &list,
            Ghost(base3 + by_intents(s, f.intents@.take(t as int))),
        );
        assert(f.intents@.take(t + 1).drop_last() =~= f.intents@.take(t as int));
        assert(base3 + by_intents(s, f.intents@.take(t as int)) + ref_values(list@) =~= base3
            + by_intents(s, f.intents@.take(t + 1)));
        t += 1;
    }
    assert(f.intents@.take(t as int) =~= f.intents@);
    if f.answers.len() == 0 && f.entities.len() == 0 && f.audiences.len() == 0 && f.intents.len()
        == 0 {
        let mut m: Vec<char> = Vec::new();
        extend_str(&mut m, "Curated pack `");
        extend_str(&mut m, lp.name.as_str());
        extend_str(&mut m, "` in ");
        extend_str(&mut m, lp.path.as_str());
        extend_str(
            &mut m,
            " must select answers by `answers`, `entities`, `audiences`, or `intents`",
        );
        return Err(string_of(&m));
    }
    proof {
        let st = select_all(curated_candidates(s, *f));
        assert(curated_candidates(s, *f) == base3 + by_intents(s, f.intents@));
        let w = sorted_by_id(st.1);
        assert(strictly_sorted::<&'static AnswerRecord>(w) && forall|x: AnswerRecordV|
            w.contains(x) <==> st.1.contains(x));
        lemma_strictly_sorted_unique::<&'static AnswerRecord>(ref_values(kept@), w);
        assert(ref_values(kept@) == sorted_by_id(select_all(curated_candidates(s, lp.definition)).1));
        assert(first_unknown_id(s, strs(lp.definition.answers@)) is None);
    }
    let title = match &f.title {
        Some(tt) => tt.clone(),
        None => {
            let tc = title_case(lp.name.as_str());
            concat2(tc.as_str(), " pack")
        },
    };
    let description = match &f.description {
        Some(d) => d.clone(),
        None => concat3("Curated AI-visible answer pack `", lp.name.as_str(), "`."),
    };
    let origin = concat3("curated pack `", lp.name.as_str(), "` from ");
    let mut origin_chars = chars_of(origin.as_str());
    extend_str(&mut origin_chars, lp.path.as_str());
    let pack = PackDefinition {
        name: lp.name.clone(),
        path: lp.name.clone(),
        title,
        description,
        records: kept,
        origin: string_of(&origin_chars),
    };
    proof {
        let f0 = lp.definition;
        assert(pack@.title == match f0.title {
            Some(t) => t@,
            None => title_case_text(lp.name@) + " pack"@,
        });
        assert(pack@.description == match f0.description {
            Some(d) => d@,
            None => "Curated AI-visible answer pack `"@ + lp.name@ + "`."@,
        });
        assert(!(f0.answers@.len() == 0 && f0.entities@.len() == 0 && f0.audiences@.len() == 0
            && f0.intents@.len() == 0));
        let expected = PackV {
            name: lp.name@,
            path: lp.name@,
            title: match f0.title {
                Some(t) => t@,
                None => title_case_text(lp.name@) + " pack"@,
            },
            description: match f0.description {
                Some(d) => d@,
                None => "Curated AI-visible answer pack `"@ + lp.name@ + "`."@,
            },
            records: sorted_by_id(select_all(curated_candidates(s, f0)).1),
            origin: "curated pack `"@ + lp.name@ + "` from "@ + lp.path@,
        };
        assert(curated_pack(s, *lp) == Ok::<PackV, Seq<char>>(expected));
        assert(pack@ == expected);
    }
    Ok(pack)
}

// ---------------------------------------------------------------------------
// All packs and outputs
// ---------------------------------------------------------------------------

/// The index of the pack with the output path `path`, if any.
pub open spec fn find_pack(ps: Seq<PackV>, path: Seq<char>) -> Option<int>
    decreases ps.len(),
{
    if ps.len() == 0 {
        None
    } else {
        match find_pack(ps.drop_last(), path) {
            Some(i) => Some(i),
            None => if ps.last().path == path {
                Some(ps.len() - 1)
            } else {
                None
            },
        }
    }
}

/// Whether a pack has answers that reach machine outputs.
pub open spec fn pack_has_visible(p: PackV) -> bool {
    p.records.filter(class_pred(0)).len() > 0
}

/// Adds a curated pack: a pack whose output path is already taken is left
/// out when it has no answers that reach machine outputs, replaces the pack
/// there when that one has none, and is refused otherwise.
pub open spec fn curated_insert(ps: Seq<PackV>, p: PackV) -> Result<Seq<PackV>, Seq<char>> {
    match find_pack(ps, p.path) {
        None => Ok(pack_insert(ps, p)),
        Some(i) => if !pack_has_visible(p) {
            Ok(ps)
        } else if !pack_has_visible(ps[i]) {
            Ok(pack_insert(ps, p))
        } else {
            Err(
                "Duplicate ansorum pack output path `"@ + p.path + "` from "@ + p.origin
                    + " conflicts with "@ + ps[i].origin,
            )
        },
    }
}

pub open spec fn with_curated(ps: Seq<PackV>, s: Seq<AnswerRecordV>, lps: Seq<LoadedPack>) -> Result<
    Seq<PackV>,
    Seq<char>,
>
    decreases lps.len(),
{
    if lps.len() == 0 {
        Ok(ps)
    } else {
        match with_curated(ps, s, lps.drop_last()) {
            Err(e) => Err(e),
            Ok(prev) => match curated_pack(s, lps.last()) {
                Err(e) => Err(e),
                Ok(p) => curated_insert(prev, p),
            },
        }
    }
}

fn find_pack_exec(ps: &Vec<PackDefinition>, path: &str) -> (r: Option<usize>)
    ensures
        match r {
            Some(i) => find_pack(values(ps@), path@) == Some(i as int) && i < ps@.len(),
            None => find_pack(values(ps@), path@) is None,
        },
{
    let ghost pv = values(ps@);
    let mut i: usize = 0;
    while i < ps.len()
        invariant
            i <= ps@.len(),
            pv == values(ps@),
            find_pack(pv.take(i as int), path@) is None,
        decreases ps.len() - i,
    {
        assert(pv.take(i + 1).drop_last() =~= pv.take(i as int));
        assert(pv.take(i + 1).last() == pv[i as int]);
        if str_eq(ps[i].path.as_str(), path) {
            proof {
                lemma_find_pack_prefix(pv, path@, i + 1);
            }
            return Some(i);
        }
        i += 1;
    }
    assert(pv.take(i as int) =~= pv);
    None
}

proof fn lemma_find_pack_prefix(ps: Seq<PackV>, path: Seq<char>, n: int)
    requires
        0 <= n <= ps.len(),
        find_pack(ps.take(n), path) is Some,
    ensures
        find_pack(ps, path) == find_pack(ps.take(n), path),
    decreases ps.len() - n,
{
    if n < ps.len() {
        assert(ps.take(n + 1).drop_last() =~= ps.take(n));
        lemma_find_pack_prefix(ps, path, n + 1);
    } else {
        assert(ps.take(n) =~= ps);
    }
}

/// Adds a curated pack to packs kept sorted by name, as `curated_insert` says.
fn curated_insert_exec<'a>(ps: &mut Vec<PackDefinition<'a>>, p: PackDefinition<'a>) -> (r: Result<
    (),
    String,
>)
    ensures
        match r {
            Ok(_) => curated_insert(values(old(ps)@), p@) == Ok::<Seq<PackV>, Seq<char>>(
                values(final(ps)@),
            ),
            Err(e) => curated_insert(values(old(ps)@), p@) == Err::<Seq<PackV>, Seq<char>>(e@),
        },
{
    match find_pack_exec(ps, p.path.as_str()) {
        None => {
            insert_pack(ps, p);
            Ok(())
        },
        Some(i) => {
            if p.ai_visible_records().len() == 0 {
                Ok(())
            } else if ps[i].ai_visible_records().len() == 0 {
                insert_pack(ps, p);
                Ok(())
            } else {
                let mut m: Vec<char> = Vec::new();
                extend_str(&mut m, "Duplicate ansorum pack output path `");
                extend_str(&mut m, p.path.as_str());
                extend_str(&mut m, "` from ");
                extend_str(&mut m, p.origin.as_str());
                extend_str(&mut m, " conflicts with ");
                extend_str(&mut m, ps[i].origin.as_str());
                Err(string_of(&m))
            }
        },
    }
}

/// The packs of a site, sorted by name: entity packs, audience packs (which
/// replace an entity pack of the same name), then curated packs (added as
/// `curated_insert` says), keeping those with answers that reach machine
/// outputs. `load_error` is the error of the curated pack file that failed
/// to load after `lps`, if any.
pub open spec fn spec_build_packs(
    auto_entity: bool,
    auto_audience: bool,
    strategy: SlugifyStrategy,
    s: Seq<AnswerRecordV>,
    lps: Seq<LoadedPack>,
    load_error: Option<Seq<char>>,
) -> Result<Seq<PackV>, Seq<char>> {
    let p1 = if auto_entity {
        with_entity_packs(seq![], strategy, s, visible_entities(s))
    } else {
        seq![]
    };
    let p2 = if auto_audience {
        with_audience_packs(p1, strategy, s, all_audiences())
    } else {
        p1
    };
    match with_curated(p2, s, lps) {
        Err(e) => Err(e),
        Ok(p3) => match load_error {
            Some(e) => Err(e),
            None => Ok(p3.filter(|p: PackV| p.records.filter(class_pred(0)).len() > 0)),
        },
    }
}

pub fn build_packs<'a>(
    site: &SiteSettings,
    packs: &crate::config::Packs,
    curated: &Vec<LoadedPack>,
    load_error: &Option<String>,
    answers: &'a AnswerCorpus,
) -> (r: Result<Vec<PackDefinition<'a>>, String>)
    ensures
        match r {
            Ok(v) => spec_build_packs(
                packs.auto_entity_packs,
                packs.auto_audience_packs,
                site.slugify_paths,
                answers@,
                curated@,
                crate::diagnostics::ostr(*load_error),
            ) == Ok::<Seq<PackV>, Seq<char>>(values(v@)),
            Err(e) => spec_build_packs(
                packs.auto_entity_packs,
                packs.auto_audience_packs,
                site.slugify_paths,
                answers@,
                curated@,
                crate::diagnostics::ostr(*load_error),
            ) == Err::<Seq<PackV>, Seq<char>>(e@),
        },
{
    let ghost s = answers@;
    let strategy = site.slugify_paths;
    let mut ps: Vec<PackDefinition<'a>> = Vec::new();
    if packs.auto_entity_packs {
        let all = corpus_refs(answers);
        let entities = visible_entities_exec(&all);
        let ghost es = values(entities@);
        let mut i: usize = 0;
        while i < entities.len()
            invariant
                i <= entities@.len(),
                s == answers@,
                es == values(entities@),
                values(ps@) == with_entity_packs(seq![], strategy, s, es.take(i as int)),
            decreases entities.len() - i,
        {
            let p = entity_pack_exec(strategy, answers, &entities[i]);
            assert(es.take(i + 1).drop_last() =~= es.take(i as int));
            assert(es.take(i + 1).last() == entities@[i as int]@);
            if p.records.len() > 0 {
                insert_pack(&mut ps, p);
            }
            i += 1;
        }
        assert(es.take(i as int) =~= es);
    }
    let ghost p1 = values(ps@);
    assert(p1 == if packs.auto_entity_packs {
        with_entity_packs(seq![], strategy, s, visible_entities(s))
    } else {
        Seq::<PackV>::empty()
    });
    if packs.auto_audience_packs {
        let auds = [
            AnswerAudience::Customer,
            AnswerAudience::Prospect,
            AnswerAudience::Developer,
            AnswerAudience::Admin,
            AnswerAudience::Internal,
        ];
        let ghost aseq = all_audiences();
        assert(auds@ =~= aseq);
        let mut i: usize = 0;
        while i < 5
            invariant
                i <= 5,
                s == answers@,
                auds@ == aseq,
                aseq == all_audiences(),
                values(ps@) == with_audience_packs(p1, strategy, s, aseq.take(i as int)),
            decreases 5 - i,
        {
            let p = audience_pack_exec(strategy, answers, auds[i]);
            assert(aseq.take(i + 1).drop_last() =~= aseq.take(i as int));
            assert(aseq.take(i + 1).last() == auds@[i as int]);
            if p.records.len() > 0 {
                insert_pack(&mut ps, p);
            }
            i += 1;
        }
        assert(aseq.take(5) =~= aseq);
    }
    let ghost p2 = values(ps@);
    assert(p2 == if packs.auto_audience_packs {
        with_audience_packs(p1, strategy, s, all_audiences())
    } else {
        p1
    });
    assert(with_curated(p2, s, curated@.take(0)) == Ok::<Seq<PackV>, Seq<char>>(p2));
    let mut k: usize = 0;
    while k < curated.len()
        invariant
            k <= curated@.len(),
            s == answers@,
            strategy == site.slugify_paths,
            p1 == if packs.auto_entity_packs {
                with_entity_packs(seq![], strategy, s, visible_entities(s))
            } else {
                Seq::<PackV>::empty()
            },
            p2 == if packs.auto_audience_packs {
                with_audience_packs(p1, strategy, s, all_audiences())
            } else {
                p1
            },
            with_curated(p2, s, curated@.take(k as int)) == Ok::<Seq<PackV>, Seq<char>>(
                values(ps@),
            ),
        decreases curated.len() - k,
    {
        assert(curated@.take(k + 1).drop_last() =~= curated@.take(k as int));
        assert(curated@.take(k + 1).last() == curated@[k as int]);
        match curated_pack_exec(answers, &curated[k]) {
            Err(e) => {
                proof {
                    lemma_with_curated_err(p2, s, curated@, k + 1);
                }
                return Err(e);
            },
            Ok(p) => match curated_insert_exec(&mut ps, p) {
                Err(e) => {
                    proof {
                        lemma_with_curated_err(p2, s, curated@, k + 1);
                    }
                    return Err(e);
                },
                Ok(_) => {},
            },
        }
        k += 1;
    }
    assert(curated@.take(k as int) =~= curated@);
    match load_error {
        Some(e) => {
            return Err(e.clone());
        },
        None => {},
    }
    let mut out: Vec<PackDefinition<'a>> = Vec::new();
    let ghost p3 = values(ps@);
    let mut ps = ps;
    let n0 = ps.len();
    let mut t: usize = 0;
    while ps.len() > 0
        invariant
            p3.len() == n0,
            t + ps@.len() == p3.len(),
            ps@.len() <= p3.len(),
            values(ps@) == p3.skip(t as int),
            values(out@) == p3.take(t as int).filter(
                |p: PackV| p.records.filter(class_pred(0)).len() > 0,
            ),
        decreases ps@.len(),
    {
        proof {
            reveal(Seq::filter);
        }
        let ghost old_ps = ps@;
        let p = ps.remove(0);
        assert(values(old_ps)[0] == p@);
        assert(values(old_ps)[0] == p3[t as int]);
        assert(p3.take(t + 1).drop_last() =~= p3.take(t as int));
        assert(values(ps@) =~= values(old_ps).skip(1));
        let visible = select_refs(&p.records, 0);
        let ghost before = values(out@);
        if visible.len() > 0 {
            out.push(p);
            assert(values(out@) =~= before.push(p3[t as int]));
        }
        assert(values(ps@) =~= p3.skip(t + 1));
        t += 1;
    }
    assert(p3.take(t as int) =~= p3);
    Ok(out)
}

proof fn lemma_with_curated_err(ps: Seq<PackV>, s: Seq<AnswerRecordV>, lps: Seq<LoadedPack>, n: int)
    requires
        0 <= n <= lps.len(),
        with_curated(ps, s, lps.take(n)) is Err,
    ensures
        with_curated(ps, s, lps) == with_curated(ps, s, lps.take(n)),
    decreases lps.len() - n,
{
    if n < lps.len() {
        assert(lps.take(n + 1).drop_last() =~= lps.take(n));
        lemma_with_curated_err(ps, s, lps, n + 1);
    } else {
        assert(lps.take(n) =~= lps);
    }
}

/// The machine outputs of a site.
pub struct LlmsOutputs {
    pub llms_txt: String,
    pub llms_full_txt: String,
    pub packs: Vec<PackOutput>,
}

/// The outputs of one pack: its `llms.txt` and its `answers.json` document.
pub struct PackOutput {
    pub path: String,
    pub llms_txt: String,
    pub answers_json: Json,
}

/// How the root index lists the packs.
pub open spec fn pack_refs_of(base: Seq<char>, feeds: Seq<Seq<char>>, ps: Seq<PackV>) -> Seq<
    (Seq<char>, Seq<char>, Seq<char>),
> {
    ps.map_values(|p: PackV| (p.name, p.title, permalink(base, feeds, p.path + "/llms.txt"@)))
}

/// The outputs of a pack: its path, its `llms.txt` and its index document.
pub open spec fn pack_output(title: Option<Seq<char>>, p: PackV) -> (Seq<char>, Seq<char>, JsonV) {
    (
        p.path,
        pack_llms(title, p.title, p.description, p.records.filter(class_pred(0))),
        index_document(p.records.filter(class_pred(0))),
    )
}

pub open spec fn pack_outputs_view(v: Seq<PackOutput>) -> Seq<(Seq<char>, Seq<char>, JsonV)> {
    v.map_values(|o: PackOutput| (o.path@, o.llms_txt@, jv(o.answers_json)))
}

/// Builds `llms.txt`, `llms-full.txt` and the scoped packs of a site.
pub fn build_outputs(
    site: &SiteSettings,
    packs: &crate::config::Packs,
    curated: &Vec<LoadedPack>,
    load_error: &Option<String>,
    answers: &AnswerCorpus,
) -> (r: Result<LlmsOutputs, String>)
    ensures
        match spec_build_packs(
            packs.auto_entity_packs,
            packs.auto_audience_packs,
            site.slugify_paths,
            answers@,
            curated@,
            crate::diagnostics::ostr(*load_error),
        ) {
            Ok(ps) => r matches Ok(o) && o.llms_txt@ == root_llms(
                crate::diagnostics::ostr(site.title),
                crate::diagnostics::ostr(site.description),
                answers@,
                pack_refs_of(site.base_url@, strs(site.feed_filenames@), ps),
            ) && o.llms_full_txt@ == full_llms(
                crate::diagnostics::ostr(site.title),
                crate::diagnostics::ostr(site.description),
                answers@,
            ) && pack_outputs_view(o.packs@) == ps.map_values(
                |p: PackV| pack_output(crate::diagnostics::ostr(site.title), p),
            ),
            Err(e) => r matches Err(m) && m@ == e,
        },
{
    let generated = match build_packs(site, packs, curated, load_error, answers) {
        Ok(g) => g,
        Err(e) => return Err(e),
    };
    let ghost ps = values(generated@);
    let mut refs: Vec<PackReference> = Vec::new();
    let mut i: usize = 0;
    while i < generated.len()
        invariant
            i <= generated@.len(),
            ps == values(generated@),
            pack_refs_view(refs@) == pack_refs_of(
                site.base_url@,
                strs(site.feed_filenames@),
                ps.take(i as int),
            ),
        decreases generated.len() - i,
    {
        let p = &generated[i];
        let url_path = concat2(p.path.as_str(), "/llms.txt");
        let llms_url = site.make_permalink(url_path.as_str());
        let ghost before = pack_refs_view(refs@);
        refs.push(PackReference { name: p.name.clone(), title: p.title.clone(), llms_url });
        assert(ps[i as int] == p@);
        assert(pack_refs_view(refs@) =~= before.push(
            (p.name@, p.title@, permalink(site.base_url@, strs(site.feed_filenames@), p.path@ + "/llms.txt"@)),
        ));
        assert(ps.take(i + 1) =~= ps.take(i as int).push(ps[i as int]));
        assert(pack_refs_view(refs@) =~= pack_refs_of(
            site.base_url@,
            strs(site.feed_filenames@),
            ps.take(i + 1),
        ));
        i += 1;
    }
    assert(ps.take(i as int) =~= ps);
    let llms_txt = render_root_llms(site, answers, &refs);
    let llms_full_txt = render_full_llms(site, answers);
    let mut outs: Vec<PackOutput> = Vec::new();
    let ghost title = crate::diagnostics::ostr(site.title);
    let mut j: usize = 0;
    while j < generated.len()
        invariant
            j <= generated@.len(),
            ps == values(generated@),
            title == crate::diagnostics::ostr(site.title),
            pack_outputs_view(outs@) == ps.take(j as int).map_values(
                |p: PackV| pack_output(title, p),
            ),
        decreases generated.len() - j,
    {
        let p = &generated[j];
        let records = select_refs(&p.records, 0);
        let text = render_pack_llms(site, p.title.as_str(), p.description.as_str(), &records);
        let doc = answers.to_json_subset(records.as_slice());
        let ghost before = pack_outputs_view(outs@);
        outs.push(PackOutput { path: p.path.clone(), llms_txt: text, answers_json: doc });
        assert(ps[j as int] == p@);
        assert(pack_outputs_view(outs@) =~= before.push(pack_output(title, p@)));
        assert(ps.take(j + 1).map_values(|p: PackV| pack_output(title, p)) =~= ps.take(
            j as int,
        ).map_values(|p: PackV| pack_output(title, p)).push(pack_output(title, ps[j as int])));
        j += 1;
    }
    assert(ps.take(j as int) =~= ps);
    Ok(LlmsOutputs { llms_txt, llms_full_txt, packs: outs })
}

} // verus!
