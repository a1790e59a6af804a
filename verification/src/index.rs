//! The machine index `answers.json`: one entry per answer, in corpus order,
//! with related ids limited to the answers the index itself lists.

use vstd::prelude::*;

use crate::answer::spec_machine_ai_visible;
use crate::answers::{
    ai_visibility_key, ai_visibility_name, audience_key, audience_name, intent_key, intent_name,
    llms_priority_key, llms_priority_name, token_budget_key, token_budget_name, visibility_key,
    visibility_name, AnswerRecord, AnswerRecordV,
};
use crate::corpus::{ref_values, AnswerCorpus};
use crate::diagnostics::strs;
use crate::json::{entries_v, jv, lemma_jv_object, Json, JsonV};
use crate::order::values;
use crate::structured::{js, lemma_jv_array, str_values};

verus! {

/// Some record of `records` has id `id`.
pub open spec fn lists_id(records: Seq<AnswerRecordV>, id: Seq<char>) -> bool {
    exists|k: int| 0 <= k < records.len() && #[trigger] records[k].id == id
}

/// The ids some record of `listed` has.
pub open spec fn listed_pred(listed: Seq<AnswerRecordV>) -> spec_fn(Seq<char>) -> bool {
    |id: Seq<char>| lists_id(listed, id)
}

/// The answers the machine index lists: public, with an AI visibility other
/// than `hidden`.
pub open spec fn index_pred() -> spec_fn(AnswerRecordV) -> bool {
    |x: AnswerRecordV| spec_machine_ai_visible(x.visibility, x.ai_visibility)
}

/// The index entry of a record, with related ids limited to `listed`.
pub open spec fn index_entry(r: AnswerRecordV, listed: Seq<AnswerRecordV>) -> JsonV {
    JsonV::Object(
        seq![
            ("id"@, js(r.id)),
            ("title"@, js(r.title)),
            ("summary"@, js(r.summary)),
            ("canonical_url"@, js(r.canonical_url)),
            ("markdown_url"@, js(r.markdown_url)),
            ("entity"@, js(r.entity)),
            ("intent"@, js(intent_name(r.intent))),
            ("audience"@, js(audience_name(r.audience))),
            ("related"@, str_values(r.related.filter(listed_pred(listed)))),
            ("canonical_questions"@, str_values(r.canonical_questions)),
            ("retrieval_aliases"@, str_values(r.retrieval_aliases)),
        ] + match r.review_by {
            Some(v) => seq![("review_by"@, js(v))],
            None => seq![],
        } + seq![
            ("llms_priority"@, js(llms_priority_name(r.llms_priority))),
            ("token_budget"@, js(token_budget_name(r.token_budget))),
            ("visibility"@, js(visibility_name(r.visibility))),
            ("ai_visibility"@, js(ai_visibility_name(r.ai_visibility))),
        ] + match r.last_modified {
            Some(v) => seq![("last_modified"@, js(v))],
            None => seq![],
        },
    )
}

/// The index document of a list of records.
pub open spec fn index_document(records: Seq<AnswerRecordV>) -> JsonV {
    JsonV::Object(
        seq![
            ("version"@, JsonV::Number("1"@)),
            (
                "answers"@,
                JsonV::Array(records.map_values(|r: AnswerRecordV| index_entry(r, records))),
            ),
        ],
    )
}

fn lists_id_exec(records: &[&AnswerRecord], id: &String) -> (r: bool)
    ensures
        r == lists_id(ref_values(records@), id@),
{
    let ghost s = ref_values(records@);
    let mut i: usize = 0;
    while i < records.len()
        invariant
            i <= records@.len(),
            s == ref_values(records@),
            forall|k: int| 0 <= k < i ==> #[trigger] s[k].id != id@,
        decreases records.len() - i,
    {
        assert(s[i as int] == records@[i as int]@);
        if records[i].id == *id {
            assert(s[i as int].id == id@);
            return true;
        }
        i += 1;
    }
    proof {
        if lists_id(s, id@) {
            let k = choose|k: int| 0 <= k < s.len() && #[trigger] s[k].id == id@;
            assert(s[k].id != id@);
        }
    }
    false
}

fn str_json(s: &String) -> (r: Json)
    ensures
        jv(r) == js(s@),
{
    Json::Str(s.clone())
}

fn strs_json(v: &Vec<String>) -> (r: Json)
    ensures
        jv(r) == str_values(strs(v@)),
{
    let mut items: Vec<Json> = Vec::new();
    let mut i: usize = 0;
    while i < v.len()
        invariant
            i <= v@.len(),
            items@.map_values(|j: Json| jv(j)) == strs(v@.take(i as int)).map_values(
                |s: Seq<char>| JsonV::Str(s),
            ),
        decreases v.len() - i,
    {
        let ghost before = items@.map_values(|j: Json| jv(j));
        items.push(Json::Str(v[i].clone()));
        assert(items@.map_values(|j: Json| jv(j)) =~= before.push(JsonV::Str(v@[i as int]@)));
        assert(strs(v@.take(i + 1)).map_values(|s: Seq<char>| JsonV::Str(s)) =~= strs(
            v@.take(i as int),
        ).map_values(|s: Seq<char>| JsonV::Str(s)).push(JsonV::Str(v@[i as int]@)));
        i += 1;
    }
    assert(v@.take(i as int) =~= v@);
    proof {
        lemma_jv_array(items);
    }
    Json::Array(items)
}

fn listed_related(rec: &AnswerRecord, records: &[&AnswerRecord]) -> (r: Json)
    ensures
        jv(r) == str_values(
            rec@.related.filter(listed_pred(ref_values(records@))),
        ),
{
    let ghost listed = ref_values(records@);
    let ghost rel = rec@.related;
    let mut items: Vec<Json> = Vec::new();
    let mut i: usize = 0;
    while i < rec.related.len()
        invariant
            i <= rec.related@.len(),
            rel == rec@.related,
            listed == ref_values(records@),
            items@.map_values(|j: Json| jv(j)) == rel.take(i as int).filter(
                listed_pred(listed),
            ).map_values(|s: Seq<char>| JsonV::Str(s)),
        decreases rec.related.len() - i,
    {
        proof {
            reveal(Seq::filter);
        }
        let ghost before = items@.map_values(|j: Json| jv(j));
        assert(rel.take(i + 1).drop_last() =~= rel.take(i as int));
        assert(rel.take(i + 1).last() == rec.related@[i as int]@);
        if lists_id_exec(records, &rec.related[i]) {
            items.push(Json::Str(rec.related[i].clone()));
            assert(items@.map_values(|j: Json| jv(j)) =~= before.push(
                JsonV::Str(rec.related@[i as int]@),
            ));
        }
        i += 1;
    }
    assert(rel.take(i as int) =~= rel);
    proof {
        lemma_jv_array(items);
    }
    Json::Array(items)
}

fn index_entry_exec(rec: &AnswerRecord, records: &[&AnswerRecord]) -> (r: Json)
    ensures
        jv(r) == index_entry(rec@, ref_values(records@)),
{
    let mut es: Vec<(String, Json)> = Vec::new();
    es.push(("id".to_owned(), str_json(&rec.id)));
    es.push(("title".to_owned(), str_json(&rec.title)));
    es.push(("summary".to_owned(), str_json(&rec.summary)));
    es.push(("canonical_url".to_owned(), str_json(&rec.canonical_url)));
    es.push(("markdown_url".to_owned(), str_json(&rec.markdown_url)));
    es.push(("entity".to_owned(), str_json(&rec.entity)));
    es.push(("intent".to_owned(), Json::Str(intent_key(&rec.intent).to_owned())));
    es.push(("audience".to_owned(), Json::Str(audience_key(&rec.audience).to_owned())));
    es.push(("related".to_owned(), listed_related(rec, records)));
    es.push(("canonical_questions".to_owned(), strs_json(&rec.canonical_questions)));
    es.push(("retrieval_aliases".to_owned(), strs_json(&rec.retrieval_aliases)));
    match &rec.review_by {
        Some(v) => es.push(("review_by".to_owned(), str_json(v))),
        None => {},
    }
    es.push(("llms_priority".to_owned(), Json::Str(llms_priority_key(&rec.llms_priority).to_owned())));
    es.push(("token_budget".to_owned(), Json::Str(token_budget_key(&rec.token_budget).to_owned())));
    es.push(("visibility".to_owned(), Json::Str(visibility_key(&rec.visibility).to_owned())));
    es.push(("ai_visibility".to_owned(), Json::Str(ai_visibility_key(&rec.ai_visibility).to_owned())));
    match &rec.last_modified {
        Some(v) => es.push(("last_modified".to_owned(), str_json(v))),
        None => {},
    }
    proof {
        lemma_jv_object(es);
        let r = rec@;
        let listed = ref_values(records@);
        let expected = seq![
            ("id"@, js(r.id)),
            ("title"@, js(r.title)),
            ("summary"@, js(r.summary)),
            ("canonical_url"@, js(r.canonical_url)),
            ("markdown_url"@, js(r.markdown_url)),
            ("entity"@, js(r.entity)),
            ("intent"@, js(intent_name(r.intent))),
            ("audience"@, js(audience_name(r.audience))),
            ("related"@, str_values(r.related.filter(listed_pred(listed)))),
            ("canonical_questions"@, str_values(r.canonical_questions)),
            ("retrieval_aliases"@, str_values(r.retrieval_aliases)),
        ] + match r.review_by {
            Some(v) => seq![("review_by"@, js(v))],
            None => seq![],
        } + seq![
            ("llms_priority"@, js(llms_priority_name(r.llms_priority))),
            ("token_budget"@, js(token_budget_name(r.token_budget))),
            ("visibility"@, js(visibility_name(r.visibility))),
            ("ai_visibility"@, js(ai_visibility_name(r.ai_visibility))),
        ] + match r.last_modified {
            Some(v) => seq![("last_modified"@, js(v))],
            None => seq![],
        };
        assert(entries_v(es@) =~= expected);
    }
    Json::Object(es)
}

impl AnswerCorpus {
    /// The index document of the given records, in the order given.
    pub fn to_json_subset(&self, records: &[&AnswerRecord]) -> (r: Json)
        ensures
            jv(r) == index_document(ref_values(records@)),
    {
        let ghost listed = ref_values(records@);
        let mut items: Vec<Json> = Vec::new();
        let mut i: usize = 0;
        while i < records.len()
            invariant
                i <= records@.len(),
                listed == ref_values(records@),
                items@.map_values(|j: Json| jv(j)) == listed.take(i as int).map_values(
                    |r: AnswerRecordV| index_entry(r, listed),
                ),
            decreases records.len() - i,
        {
            let ghost before = items@.map_values(|j: Json| jv(j));
            let e = index_entry_exec(records[i], records);
            items.push(e);
            assert(listed[i as int] == records@[i as int]@);
            assert(items@.map_values(|j: Json| jv(j)) =~= before.push(
                index_entry(listed[i as int], listed),
            ));
            assert(listed.take(i + 1).map_values(|r: AnswerRecordV| index_entry(r, listed))
                =~= listed.take(i as int).map_values(
                |r: AnswerRecordV| index_entry(r, listed),
            ).push(index_entry(listed[i as int], listed)));
            i += 1;
        }
        assert(listed.take(i as int) =~= listed);
        proof {
            lemma_jv_array(items);
        }
        let mut es: Vec<(String, Json)> = Vec::new();
        es.push(("version".to_owned(), Json::Number("1".to_owned())));
        es.push(("answers".to_owned(), Json::Array(items)));
        proof {
            lemma_jv_object(es);
            assert(entries_v(es@) =~= seq![
                ("version"@, JsonV::Number("1"@)),
                (
                    "answers"@,
                    JsonV::Array(listed.map_values(|r: AnswerRecordV| index_entry(r, listed))),
                ),
            ]);
        }
        Json::Object(es)
    }

    /// The index document of the answers that reach machine outputs.
    pub fn to_json(&self) -> (r: Json)
        ensures
            jv(r) == index_document(
                self@.filter(index_pred()),
            ),
    {
        let recs = self.iter();
        let mut visible: Vec<&AnswerRecord> = Vec::new();
        let mut i: usize = 0;
        while i < recs.len()
            invariant
                i <= recs@.len(),
                values(recs@) == self@,
                ref_values(visible@) == values(recs@.take(i as int)).filter(index_pred()),
            decreases recs.len() - i,
        {
            proof {
                reveal(Seq::filter);
            }
            let ghost before = ref_values(visible@);
            assert(values(recs@.take(i + 1)).drop_last() =~= values(recs@.take(i as int)));
            assert(values(recs@.take(i + 1)).last() == recs@[i as int]@);
            if recs[i].is_machine_ai_visible() {
                visible.push(&recs[i]);
                assert(ref_values(visible@) =~= before.push(recs@[i as int]@));
            }
            i += 1;
        }
        assert(recs@.take(i as int) =~= recs@);
        self.to_json_subset(visible.as_slice())
    }
}

} // verus!
