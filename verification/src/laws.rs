//! Properties of the library as a whole, stated over the models its
//! functions' contracts use, and proved.

use vstd::prelude::*;

use crate::answer::{
    spec_machine_ai_visible, AiVisibility, AnswerFrontMatter, AnswerVisibility, LlmsPriority,
};
use crate::audit::{
    audit_findings, governance_findings, machine_output_findings, page_findings, pages_findings,
    related_leaks, reports_stale, stale_review, related_link_findings, review_findings, schema_findings,
    visibility_findings, AuditFindingV, AuditSeverity, CalendarDate,
};
use crate::content_file::{machine_front_matter, spec_machine_markdown};
use crate::diagnostics::strs;
use crate::eval::{record_score, retrieval_ok, scored, scores_fit, token_set};
use crate::json::{field, lemma_obj_insert_get, obj_get, obj_index, obj_insert, JsonV};
use crate::library::Page;
use crate::structured::{
    faq_question, js, obj2, preset_common, preset_typed, spec_structured_data, with_context,
};
use crate::answers::AnswerRecordV;
use crate::cli::{spec_threshold_exceeded, FailOn};
use crate::config::{allowlist_error, host_entry_error, host_key, packs_error, parses_as_host};
use crate::diagnostics::{count_severity, DiagnosticSeverity, DiagnosticV};
use crate::front_matter::{merged_raw, spec_has_data, RawAnswerV};
use crate::index::{index_pred, listed_pred, lists_id};
use crate::llms::{class_pred, is_core, is_optional, llms_visible};
use crate::report::{counts, threshold_diagnostic};
use crate::text::{contains, lemma_find, matches_at, trim};

verus! {

broadcast use vstd::seq_lib::group_filter_ensures;

// ---------------------------------------------------------------------------
// Machine outputs only carry what AI visibility allows
// ---------------------------------------------------------------------------

pub open spec fn machine_visible(r: AnswerRecordV) -> bool {
    spec_machine_ai_visible(r.visibility, r.ai_visibility)
}

/// The answers the machine index lists: every answer that is public with an
/// AI visibility other than `hidden`, none other; and each listed answer's
/// related ids, as the index gives them, name listed answers only.
pub proof fn law_machine_index_visibility(answers: Seq<AnswerRecordV>)
    ensures
        forall|i: int|
            0 <= i < answers.filter(index_pred()).len() ==> machine_visible(
                #[trigger] answers.filter(index_pred())[i],
            ),
        forall|i: int|
            0 <= i < answers.len() && machine_visible(answers[i]) ==> #[trigger] answers.filter(index_pred()).contains(answers[i]),
        forall|r: AnswerRecordV, id: Seq<char>|
            #[trigger] r.related.filter(listed_pred(answers)).contains(id) ==> lists_id(answers, id),
{
    assert forall|i: int| 0 <= i < answers.len() && machine_visible(answers[i]) implies #[trigger] answers.filter(
        index_pred(),
    ).contains(answers[i]) by {
        answers.lemma_filter_contains(index_pred(), i);
    }
    assert forall|r: AnswerRecordV, id: Seq<char>|
        #[trigger] r.related.filter(listed_pred(answers)).contains(id) implies lists_id(answers, id) by {
        let f = r.related.filter(listed_pred(answers));
        let k = choose|k: int| 0 <= k < f.len() && f[k] == id;
        r.related.lemma_filter_pred(listed_pred(answers), k);
    }
}

/// `llms.txt` outputs list only answers visible to them (public, AI-visible,
/// not `hidden` in `llms_priority`), and every such answer is in the visible
/// list; the core and optional sections of the root, pack and full-export
/// files split exactly those answers.
pub proof fn law_llms_visibility(answers: Seq<AnswerRecordV>)
    ensures
        forall|i: int|
            0 <= i < answers.filter(class_pred(1)).len() ==> llms_visible(
                #[trigger] answers.filter(class_pred(1))[i],
            ),
        forall|i: int|
            0 <= i < answers.filter(class_pred(2)).len() ==> is_core(
                #[trigger] answers.filter(class_pred(2))[i],
            ),
        forall|i: int|
            0 <= i < answers.filter(class_pred(3)).len() ==> is_optional(
                #[trigger] answers.filter(class_pred(3))[i],
            ),
        forall|i: int|
            0 <= i < answers.len() && llms_visible(answers[i]) ==> #[trigger] answers.filter(
                class_pred(1),
            ).contains(answers[i]),
        forall|r: AnswerRecordV| llms_visible(r) <==> (#[trigger] is_core(r) || is_optional(r)),
        forall|r: AnswerRecordV| !(#[trigger] is_core(r) && is_optional(r)),
{
    assert forall|i: int| 0 <= i < answers.filter(class_pred(1)).len() implies llms_visible(
        #[trigger] answers.filter(class_pred(1))[i],
    ) by {
        answers.lemma_filter_pred(class_pred(1), i);
    }
    assert forall|i: int| 0 <= i < answers.filter(class_pred(2)).len() implies is_core(
        #[trigger] answers.filter(class_pred(2))[i],
    ) by {
        answers.lemma_filter_pred(class_pred(2), i);
    }
    assert forall|i: int| 0 <= i < answers.filter(class_pred(3)).len() implies is_optional(
        #[trigger] answers.filter(class_pred(3))[i],
    ) by {
        answers.lemma_filter_pred(class_pred(3), i);
    }
    assert forall|i: int| 0 <= i < answers.len() && llms_visible(answers[i]) implies #[trigger] answers.filter(
        class_pred(1),
    ).contains(answers[i]) by {
        answers.lemma_filter_contains(class_pred(1), i);
    }
    assert forall|r: AnswerRecordV| llms_visible(r) <==> (#[trigger] is_core(r) || is_optional(r)) by {
        match r.llms_priority {
            LlmsPriority::Core => {},
            LlmsPriority::Optional => {},
            LlmsPriority::Hidden => {},
        }
    }
}

// ---------------------------------------------------------------------------
// Configuration checks
// ---------------------------------------------------------------------------

proof fn lemma_allowlist_from(hosts: Seq<Seq<char>>, k: nat)
    requires
        allowlist_error(hosts, k) is None,
    ensures
        forall|i: int|
            k <= i < hosts.len() ==> host_entry_error(
                #[trigger] hosts[i],
                hosts.take(i).map_values(|h: Seq<char>| host_key(h)),
            ) is None,
    decreases hosts.len() - k,
{
    if k < hosts.len() {
        lemma_allowlist_from(hosts, k + 1);
    }
}

/// An accepted redirect allowlist holds only non-blank entries that parse as
/// hosts, and no two entries name the same host (ignoring case and
/// surrounding whitespace).
pub proof fn law_valid_allowlist_is_distinct(hosts: Seq<Seq<char>>)
    requires
        allowlist_error(hosts, 0) is None,
    ensures
        forall|i: int|
            0 <= i < hosts.len() ==> trim(#[trigger] hosts[i]).len() > 0 && parses_as_host(
                host_key(hosts[i]),
            ),
        forall|i: int, j: int|
            0 <= i < j < hosts.len() ==> host_key(#[trigger] hosts[i]) != host_key(
                #[trigger] hosts[j],
            ),
{
    lemma_allowlist_from(hosts, 0);
    assert forall|i: int| 0 <= i < hosts.len() implies trim(#[trigger] hosts[i]).len() > 0
        && parses_as_host(host_key(hosts[i])) by {
        assert(host_entry_error(hosts[i], hosts.take(i).map_values(|h: Seq<char>| host_key(h))) is None);
    }
    assert forall|i: int, j: int| 0 <= i < j < hosts.len() implies host_key(#[trigger] hosts[i])
        != host_key(#[trigger] hosts[j]) by {
        let earlier = hosts.take(j).map_values(|h: Seq<char>| host_key(h));
        assert(host_entry_error(hosts[j], earlier) is None);
        assert(earlier[i] == host_key(hosts[i]));
    }
}

proof fn lemma_packs_from(ps: Seq<(Seq<char>, Seq<char>)>, k: nat)
    requires
        packs_error(ps, k) is None,
    ensures
        forall|j: int|
            k <= j < ps.len() ==> !ps.take(j).map_values(|e: (Seq<char>, Seq<char>)| e.0).contains(
                (#[trigger] ps[j]).0,
            ) && !ps.take(j).map_values(|e: (Seq<char>, Seq<char>)| e.1).contains(ps[j].1),
    decreases ps.len() - k,
{
    if k < ps.len() {
        lemma_packs_from(ps, k + 1);
    }
}

/// Accepted curated packs have distinct names and distinct sources.
pub proof fn law_valid_packs_are_distinct(ps: Seq<(Seq<char>, Seq<char>)>)
    requires
        packs_error(ps, 0) is None,
    ensures
        forall|i: int, j: int|
            0 <= i < j < ps.len() ==> (#[trigger] ps[i]).0 != (#[trigger] ps[j]).0 && ps[i].1
                != ps[j].1,
{
    lemma_packs_from(ps, 0);
    assert forall|i: int, j: int| 0 <= i < j < ps.len() implies (#[trigger] ps[i]).0 != (
    #[trigger] ps[j]).0 && ps[i].1 != ps[j].1 by {
        let names = ps.take(j).map_values(|e: (Seq<char>, Seq<char>)| e.0);
        let sources = ps.take(j).map_values(|e: (Seq<char>, Seq<char>)| e.1);
        assert(!names.contains(ps[j].0));
        assert(!sources.contains(ps[j].1));
        assert(names[i] == ps[i].0);
        assert(sources[i] == ps[i].1);
    }
}

// ---------------------------------------------------------------------------
// Answer front matter from two sources
// ---------------------------------------------------------------------------

/// Answer front matter with nothing set.
pub open spec fn empty_raw() -> RawAnswerV {
    RawAnswerV {
        id: None,
        summary: None,
        canonical_questions: seq![],
        intent: None,
        entity: None,
        audience: None,
        related: seq![],
        external_refs: seq![],
        schema_type: None,
        review_by: None,
        priority: None,
        visibility: None,
        ai_visibility: None,
        llms_priority: None,
        token_budget: None,
        aliases: seq![],
        ai_extra: None,
        last_reviewed_by: None,
        owner: None,
        confidence_notes: None,
    }
}

/// Merging with an empty source changes nothing, whichever side it is on;
/// a merge has data exactly when one of its sources has.
pub proof fn law_front_matter_merge(a: RawAnswerV, b: RawAnswerV)
    ensures
        merged_raw(a, empty_raw()) == a,
        merged_raw(empty_raw(), b) == b,
        spec_has_data(merged_raw(a, b)) == (spec_has_data(a) || spec_has_data(b)),
        !spec_has_data(empty_raw()),
{
    let m = merged_raw(a, empty_raw());
    assert(m.canonical_questions =~= a.canonical_questions);
    assert(m.related =~= a.related);
    assert(m.external_refs =~= a.external_refs);
    assert(m.aliases =~= a.aliases);
}

// ---------------------------------------------------------------------------
// Failure thresholds and reports
// ---------------------------------------------------------------------------

/// `--fail-on warn` is at least as strict as `--fail-on error`.
pub proof fn law_warn_threshold_is_stricter(errors: nat, warnings: nat)
    ensures
        spec_threshold_exceeded(FailOn::Error, errors, warnings) ==> spec_threshold_exceeded(
            FailOn::Warn,
            errors,
            warnings,
        ),
{
}

/// The diagnostic that `--fail-on warn` adds is an error, so a run it
/// promotes reports one error more than it had.
pub proof fn law_promotion_adds_an_error(ds: Seq<DiagnosticV>, stage: Seq<char>)
    ensures
        count_severity(ds.push(threshold_diagnostic(stage)), DiagnosticSeverity::Error)
            == count_severity(ds, DiagnosticSeverity::Error) + 1,
        count_severity(ds.push(threshold_diagnostic(stage)), DiagnosticSeverity::Warn)
            == count_severity(ds, DiagnosticSeverity::Warn),
{
    assert(ds.push(threshold_diagnostic(stage)).drop_last() =~= ds);
}

/// A report's summary accounts for each of its diagnostics exactly once.
pub proof fn law_report_summary_is_complete(
    s: crate::diagnostics::DiagnosticSummary,
    ds: Seq<DiagnosticV>,
)
    requires
        counts(s, ds),
    ensures
        s.errors + s.warnings + s.infos == ds.len(),
{
    crate::diagnostics::lemma_count_total(ds);
}

// ---------------------------------------------------------------------------
// Emitted machine Markdown passes the audit's leak checks
// ---------------------------------------------------------------------------

/// The codes of a list of audit findings.
pub open spec fn finding_codes(fs: Seq<AuditFindingV>) -> Seq<Seq<char>> {
    fs.map_values(|f: AuditFindingV| f.code)
}

/// A page that carries the machine Markdown of its own answer, under its own
/// permalink, never trips the audit's machine-output leak checks: no
/// `summary_only_leak` and no `hidden_content_leak`; and the audit reports
/// `missing_machine_output` for it exactly when the answer is not public but
/// its AI visibility is not `hidden`.
pub proof fn law_machine_markdown_passes_leak_checks(
    p: Page,
    a: AnswerFrontMatter,
    title: Seq<char>,
    body: Seq<char>,
)
    requires
        p.canonical_machine_markdown matches Some(md) ==> spec_machine_markdown(
            a@,
            title,
            p.permalink@,
            body,
        ) == Some(md@),
        p.canonical_machine_markdown is None ==> spec_machine_markdown(
            a@,
            title,
            p.permalink@,
            body,
        ) is None,
    ensures
        !finding_codes(machine_output_findings(p, a)).contains("summary_only_leak"@),
        !finding_codes(machine_output_findings(p, a)).contains("hidden_content_leak"@),
        finding_codes(machine_output_findings(p, a)).contains("missing_machine_output"@) <==> (
        a.visibility != AnswerVisibility::Public && a.ai_visibility != AiVisibility::Hidden),
{
    reveal_strlit("summary_only_leak");
    reveal_strlit("hidden_content_leak");
    reveal_strlit("missing_machine_output");
    reveal_strlit("token_budget_overflow");
    let fs = machine_output_findings(p, a);
    let pointer = "Canonical page: <"@ + p.permalink@ + ">"@;
    if let Some(md) = p.canonical_machine_markdown {
        if a.ai_visibility == AiVisibility::SummaryOnly {
            let head = machine_front_matter(a@, p.permalink@) + "\n# "@ + title + "\n\n"@
                + a.summary@;
            reveal_strlit("\n\nCanonical page: <");
            reveal_strlit("Canonical page: <");
            reveal_strlit("\n\n");
            reveal_strlit(">\n");
            reveal_strlit(">");
            reveal_strlit("\n");
            assert("\n\nCanonical page: <"@ =~= "\n\n"@ + "Canonical page: <"@);
            assert(">\n"@ =~= ">"@ + "\n"@);
            assert(md@ =~= (head + "\n\n"@) + pointer + "\n"@);
            let k: int = head.len() + 2int;
            assert(md@.subrange(k, k + pointer.len() as int) =~= pointer);
            assert(matches_at(md@, pointer, k));
            lemma_find(md@, pointer);
            assert(contains(md@, pointer));
        }
    }
    assert forall|i: int| 0 <= i < fs.len() implies {
        let c = #[trigger] finding_codes(fs)[i];
        c != "summary_only_leak"@ && c != "hidden_content_leak"@
    } by {
        assert(finding_codes(fs)[i] == fs[i].code);
    }
    if a.visibility != AnswerVisibility::Public && a.ai_visibility != AiVisibility::Hidden {
        assert(finding_codes(fs)[0] == "missing_machine_output"@);
    } else if finding_codes(fs).contains("missing_machine_output"@) {
        let i = choose|i: int| 0 <= i < finding_codes(fs).len() && finding_codes(fs)[i] == "missing_machine_output"@;
        assert(finding_codes(fs)[i] == fs[i].code);
    }
}

// ---------------------------------------------------------------------------
// FAQ presets answer each question with the summary
// ---------------------------------------------------------------------------

/// In the structured data of an `FAQPage` answer page without a sidecar,
/// `mainEntity` lists one `Question` per canonical question of the answer, in
/// order: its `name` is the question and the `text` of its `acceptedAnswer`
/// is the answer's summary.
pub proof fn law_faq_answers_are_the_summary(p: Page)
    requires
        p.answer matches Some(a) && (a.schema_type matches Some(st) && st@ == "FAQPage"@),
        p.structured_data_sidecar is None,
    ensures
        spec_structured_data(p) matches Ok(Some(d)) ==> ({
            let a = p.answer->0;
            let qs = strs(a.canonical_questions@);
            &&& field(d, "mainEntity"@) matches Some(JsonV::Array(items))
            &&& field(d, "mainEntity"@)->0->Array_0.len() == qs.len()
            &&& forall|i: int|
                0 <= i < qs.len() ==> {
                    let item = #[trigger] field(d, "mainEntity"@)->0->Array_0[i];
                    &&& field(item, "name"@) == Some(JsonV::Str(qs[i]))
                    &&& field(item, "acceptedAnswer"@) matches Some(ans)
                    &&& field(field(item, "acceptedAnswer"@)->0, "text"@) == Some(
                        JsonV::Str(a.summary@),
                    )
                }
        }),
{
    let a = p.answer->0;
    let st = a.schema_type->0@;
    reveal_strlit("FAQPage");
    reveal_strlit("WebPage");
    reveal_strlit("Article");
    reveal_strlit("TechArticle");
    reveal_strlit("mainEntity");
    reveal_strlit("@context");
    reveal_strlit("@type");
    reveal_strlit("name");
    reveal_strlit("acceptedAnswer");
    reveal_strlit("text");
    let qs = strs(a.canonical_questions@);
    let items = qs.map_values(|q: Seq<char>| faq_question(q, a.summary@));
    let es = preset_common(p, a, st);
    let typed = preset_typed(p, a, st, es);
    assert(st != "WebPage"@) by {
        assert(st[0] != "WebPage"@[0]);
    }
    assert(st != "Article"@) by {
        assert(st[0] != "Article"@[0]);
    }
    assert(st != "TechArticle"@) by {
        assert(st.len() != "TechArticle"@.len());
    }
    assert(typed == obj_insert(es, "mainEntity"@, JsonV::Array(items)));
    lemma_obj_insert_get(es, "mainEntity"@, JsonV::Array(items));
    assert(obj_get(typed, "mainEntity"@) == Some(JsonV::Array(items)));
    let ctx = with_context(typed);
    if obj_index(typed, "@context"@) is None {
        lemma_obj_insert_get(typed, "@context"@, js("https://schema.org"@));
        assert("@context"@ != "mainEntity"@);
    }
    assert(obj_get(ctx, "mainEntity"@) == Some(JsonV::Array(items)));
    if let Ok(Some(d)) = spec_structured_data(p) {
        assert(d == JsonV::Object(ctx));
        assert forall|i: int| 0 <= i < qs.len() implies {
            let item = #[trigger] field(d, "mainEntity"@)->0->Array_0[i];
            &&& field(item, "name"@) == Some(JsonV::Str(qs[i]))
            &&& field(item, "acceptedAnswer"@) matches Some(ans)
            &&& field(field(item, "acceptedAnswer"@)->0, "text"@) == Some(JsonV::Str(a.summary@))
        } by {
            let q = qs[i];
            assert(items[i] == faq_question(q, a.summary@));
            let e1 = obj_insert(seq![], "@type"@, js("Question"@));
            let e2 = obj_insert(e1, "name"@, js(q));
            let answer = obj2("@type"@, js("Answer"@), "text"@, js(a.summary@));
            lemma_obj_insert_get(e2, "acceptedAnswer"@, answer);
            lemma_obj_insert_get(e1, "name"@, js(q));
            assert("name"@ != "acceptedAnswer"@);
            let a1 = obj_insert(seq![], "@type"@, js("Answer"@));
            lemma_obj_insert_get(a1, "text"@, js(a.summary@));
        }
    }
}

// ---------------------------------------------------------------------------
// Retrieval verdicts
// ---------------------------------------------------------------------------

/// Retrieval passes exactly when something is ranked, every expected id is
/// among the ranked ids, and no forbidden id is.
pub proof fn law_retrieval_passes_iff_clean(
    ranked: Seq<Seq<char>>,
    expected: Seq<Seq<char>>,
    forbidden: Seq<Seq<char>>,
)
    ensures
        retrieval_ok(ranked, expected, forbidden) <==> ({
            &&& ranked.len() > 0
            &&& forall|i: int| 0 <= i < expected.len() ==> ranked.contains(#[trigger] expected[i])
            &&& forall|i: int| 0 <= i < forbidden.len() ==> !ranked.contains(#[trigger] forbidden[i])
        }),
{
    let missing = expected.filter(|id: Seq<char>| !ranked.contains(id));
    let present = forbidden.filter(|id: Seq<char>| ranked.contains(id));
    assert(missing.len() == 0 <==> forall|i: int| 0 <= i < expected.len() ==> ranked.contains(
        #[trigger] expected[i],
    )) by {
        if missing.len() > 0 {
            assert(missing.contains(missing[0]));
            expected.lemma_filter_pred(|id: Seq<char>| !ranked.contains(id), 0);
            expected.lemma_filter_contains_rev(|id: Seq<char>| !ranked.contains(id), missing[0]);
            let k = choose|k: int| 0 <= k < expected.len() && expected[k] == missing[0];
            assert(!ranked.contains(expected[k]));
        }
        assert forall|i: int| 0 <= i < expected.len() && !ranked.contains(#[trigger] expected[i]) implies missing.len() > 0 by {
            expected.lemma_filter_contains(|id: Seq<char>| !ranked.contains(id), i);
        }
    }
    assert(present.len() == 0 <==> forall|i: int| 0 <= i < forbidden.len() ==> !ranked.contains(
        #[trigger] forbidden[i],
    )) by {
        if present.len() > 0 {
            assert(present.contains(present[0]));
            forbidden.lemma_filter_pred(|id: Seq<char>| ranked.contains(id), 0);
            forbidden.lemma_filter_contains_rev(|id: Seq<char>| ranked.contains(id), present[0]);
            let k = choose|k: int| 0 <= k < forbidden.len() && forbidden[k] == present[0];
            assert(ranked.contains(forbidden[k]));
        }
        assert forall|i: int| 0 <= i < forbidden.len() && ranked.contains(#[trigger] forbidden[i]) implies present.len() > 0 by {
            forbidden.lemma_filter_contains(|id: Seq<char>| ranked.contains(id), i);
        }
    }
}

// ---------------------------------------------------------------------------
// Stale reviews are reported whatever the priority
// ---------------------------------------------------------------------------

proof fn lemma_pages_findings_include(pages: Seq<Page>, today: CalendarDate, i: int, f: AuditFindingV)
    requires
        0 <= i < pages.len(),
        page_findings(pages[i], today).contains(f),
    ensures
        pages_findings(pages, today).contains(f),
    decreases pages.len(),
{
    let d = pages.drop_last();
    let head = pages_findings(d, today);
    let tail = page_findings(pages.last(), today);
    assert(pages_findings(pages, today) == head + tail);
    if i == pages.len() - 1 {
        let k = choose|k: int| 0 <= k < tail.len() && tail[k] == f;
        assert((head + tail)[head.len() + k] == f);
    } else {
        assert(d[i] == pages[i]);
        lemma_pages_findings_include(d, today, i, f);
        let k = choose|k: int| 0 <= k < head.len() && head[k] == f;
        assert((head + tail)[k] == f);
    }
}

/// Every answer page whose `review_by` reads as a date before `today` gets a
/// `stale_review_by` finding for its answer and source path, whatever its
/// priority: an error for a high-priority answer, a warning otherwise.
pub proof fn law_stale_reviews_are_reported(
    pages: Seq<Page>,
    corpus: Seq<AnswerRecordV>,
    today: CalendarDate,
    i: int,
)
    requires
        0 <= i < pages.len(),
        stale_review(pages[i], today),
    ensures
        exists|k: int|
            0 <= k < audit_findings(pages, corpus, today).len() && reports_stale(
                #[trigger] audit_findings(pages, corpus, today)[k],
                pages[i],
            ),
{
    let p = pages[i];
    let a = p.answer->0;
    let rb = a.review_by->0;
    let stale = review_findings(p, a, today);
    assert(stale.len() == 1);
    let f = stale[0];
    assert(f.code == "stale_review_by"@);
    let pf = page_findings(p, today);
    let v = visibility_findings(p, a);
    let rl = related_link_findings(p, a);
    let g = governance_findings(p, a);
    let sc = schema_findings(p, a);
    let mo = machine_output_findings(p, a);
    assert(pf == v + rl + (stale + g) + sc + mo);
    assert(pf[(v.len() + rl.len()) as int] == f);
    assert(pf.contains(f));
    lemma_pages_findings_include(pages, today, i, f);
    let all = audit_findings(pages, corpus, today);
    let head = pages_findings(pages, today);
    assert(all == head + related_leaks(corpus, corpus));
    let k = choose|k: int| 0 <= k < head.len() && head[k] == f;
    assert(all[k] == f);
    assert(reports_stale(all[k], p));
}

// ---------------------------------------------------------------------------
// Ranking ranks exactly the answers visible to AI with a positive score
// ---------------------------------------------------------------------------

/// An answer is ranked for a question exactly when its AI visibility is not
/// `hidden` and its score for the question is positive; each ranked entry
/// carries that answer's id and score.
pub proof fn law_ranking_candidates(q: Seq<char>, s: Seq<AnswerRecordV>)
    requires
        scores_fit(q, s),
    ensures
        forall|x: (Seq<char>, i32)|
            #[trigger] scored(q, s).contains(x) ==> exists|j: int|
                0 <= j < s.len() && s[j].ai_visibility != AiVisibility::Hidden && record_score(
                    q,
                    token_set(q),
                    s[j],
                ) > 0 && x == (s[j].id, record_score(q, token_set(q), s[j]) as i32),
        forall|j: int|
            0 <= j < s.len() && s[j].ai_visibility != AiVisibility::Hidden && record_score(
                q,
                token_set(q),
                #[trigger] s[j],
            ) > 0 ==> scored(q, s).contains((s[j].id, record_score(q, token_set(q), s[j]) as i32)),
{
    let pv = |r: AnswerRecordV| r.ai_visibility != AiVisibility::Hidden;
    let f = |r: AnswerRecordV| (r.id, record_score(q, token_set(q), r) as i32);
    let g = |c: (Seq<char>, i32)| c.1 > 0;
    let vis = s.filter(pv);
    let mapped = vis.map_values(f);
    assert(scored(q, s) == mapped.filter(g));
    assert forall|x: (Seq<char>, i32)| #[trigger] scored(q, s).contains(x) implies exists|j: int|
        0 <= j < s.len() && s[j].ai_visibility != AiVisibility::Hidden && record_score(
            q,
            token_set(q),
            s[j],
        ) > 0 && x == (s[j].id, record_score(q, token_set(q), s[j]) as i32) by {
        mapped.lemma_filter_contains_rev(g, x);
        let idx = choose|idx: int| 0 <= idx < mapped.len() && mapped[idx] == x;
        let k = choose|k: int| 0 <= k < mapped.filter(g).len() && mapped.filter(g)[k] == x;
        mapped.lemma_filter_pred(g, k);
        let r = vis[idx];
        assert(vis.contains(r));
        s.lemma_filter_contains_rev(pv, r);
        let j = choose|j: int| 0 <= j < s.len() && s[j] == r;
        let kk = choose|kk: int| 0 <= kk < vis.len() && vis[kk] == r;
        s.lemma_filter_pred(pv, idx);
        assert(record_score(q, token_set(q), s[j]) <= i32::MAX);
    }
    assert forall|j: int|
        0 <= j < s.len() && s[j].ai_visibility != AiVisibility::Hidden && record_score(
            q,
            token_set(q),
            #[trigger] s[j],
        ) > 0 implies scored(q, s).contains(
        (s[j].id, record_score(q, token_set(q), s[j]) as i32),
    ) by {
        s.lemma_filter_contains(pv, j);
        let idx = choose|idx: int| 0 <= idx < vis.len() && vis[idx] == s[j];
        assert(mapped[idx] == f(s[j]));
        assert(record_score(q, token_set(q), s[j]) <= i32::MAX);
        mapped.lemma_filter_contains(g, idx);
    }
}

} // verus!
