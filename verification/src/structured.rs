//! JSON-LD structured data of answer pages: a preset built from the answer
//! metadata, merged with the page's sidecar document.

use vstd::prelude::*;

use crate::answer::AnswerFrontMatter;
use crate::answers::{audience_key, audience_name};
use crate::diagnostics::strs;
use crate::json::{
    entries_v, json_clone, json_insert, jv, lemma_jv_object, merge_json, merged, obj_index,
    obj_insert, Json, JsonV,
};
use crate::library::Page;
use crate::text::{
    chars_of, decimal, decimal_exec, extend, extend_str, join, join_exec, str_eq, string_of, trim,
    trim_end_matches, trim_end_matches_exec, trim_exec, views,
};

verus! {

pub open spec fn js(s: Seq<char>) -> JsonV {
    JsonV::Str(s)
}

/// A two-entry object.
pub open spec fn obj2(k1: Seq<char>, v1: JsonV, k2: Seq<char>, v2: JsonV) -> JsonV {
    JsonV::Object(obj_insert(obj_insert(seq![], k1, v1), k2, v2))
}

/// An array of strings.
pub open spec fn str_values(v: Seq<Seq<char>>) -> JsonV {
    JsonV::Array(v.map_values(|s: Seq<char>| JsonV::Str(s)))
}

pub proof fn lemma_jv_array(items: Vec<Json>)
    ensures
        jv(Json::Array(items)) == JsonV::Array(items@.map_values(|j: Json| jv(j))),
{
    let sa = jv(Json::Array(items))->Array_0;
    assert(sa =~= items@.map_values(|j: Json| jv(j)));
}

fn js_exec(s: &str) -> (r: Json)
    ensures
        jv(r) == js(s@),
{
    Json::Str(s.to_owned())
}

fn obj2_exec(k1: &str, v1: Json, k2: &str, v2: Json) -> (r: Json)
    ensures
        jv(r) == obj2(k1@, jv(v1), k2@, jv(v2)),
{
    let mut es: Vec<(String, Json)> = Vec::new();
    assert(entries_v(es@) =~= Seq::<(Seq<char>, JsonV)>::empty());
    json_insert(&mut es, k1.to_owned(), v1);
    json_insert(&mut es, k2.to_owned(), v2);
    proof {
        lemma_jv_object(es);
    }
    Json::Object(es)
}

fn str_values_exec(v: &Vec<String>) -> (r: Json)
    ensures
        jv(r) == str_values(strs(v@)),
{
    let mut items: Vec<Json> = Vec::new();
    let mut i: usize = 0;
    while i < v.len()
        invariant
            i <= v@.len(),
            items@.map_values(|j: Json| jv(j)) == strs(v@.take(i as int)).map_values(
                |s: Seq<char>| JsonV::Str(s),
            ),
        decreases v.len() - i,
    {
        let ghost before = items@.map_values(|j: Json| jv(j));
        items.push(Json::Str(v[i].clone()));
        assert(items@.map_values(|j: Json| jv(j)) =~= before.push(JsonV::Str(v@[i as int]@)));
        assert(strs(v@.take(i + 1)).map_values(|s: Seq<char>| JsonV::Str(s)) =~= strs(
            v@.take(i as int),
        ).map_values(|s: Seq<char>| JsonV::Str(s)).push(JsonV::Str(v@[i as int]@)));
        i += 1;
    }
    assert(v@.take(i as int) =~= v@);
    proof {
        lemma_jv_array(items);
    }
    Json::Array(items)
}

/// The FAQ entry of one question.
pub open spec fn faq_question(q: Seq<char>, summary: Seq<char>) -> JsonV {
    JsonV::Object(
        obj_insert(
            obj_insert(obj_insert(seq![], "@type"@, js("Question"@)), "name"@, js(q)),
            "acceptedAnswer"@,
            obj2("@type"@, js("Answer"@), "text"@, js(summary)),
        ),
    )
}

/// The link of the `i`-th breadcrumb of a page.
pub open spec fn breadcrumb_link(p: Page, i: int) -> Seq<char> {
    trim_end_matches(p.permalink@, p.path@) + join(strs(p.components@).take(i + 1), "/"@) + "/"@
}

/// The `i`-th breadcrumb of a page.
pub open spec fn breadcrumb_entry(p: Page, i: int) -> JsonV {
    JsonV::Object(
        obj_insert(
            obj_insert(
                obj_insert(
                    obj_insert(seq![], "@type"@, js("ListItem"@)),
                    "position"@,
                    JsonV::Number(decimal((i + 1) as nat)),
                ),
                "name"@,
                js(p.components@[i]@),
            ),
            "item"@,
            js(breadcrumb_link(p, i)),
        ),
    )
}

/// The entries every preset has, before the ones that depend on the schema
/// type.
pub open spec fn preset_common(p: Page, a: AnswerFrontMatter, st: Seq<char>) -> Seq<
    (Seq<char>, JsonV),
> {
    let e1 = obj_insert(seq![], "@context"@, js("https://schema.org"@));
    let e2 = obj_insert(e1, "@type"@, js(st));
    let e3 = obj_insert(e2, "url"@, js(p.permalink@));
    let e4 = obj_insert(e3, "description"@, js(a.summary@));
    let e5 = obj_insert(e4, "identifier"@, js(a.id@));
    let e6 = obj_insert(e5, "inLanguage"@, js(p.lang@));
    let e7 = obj_insert(
        e6,
        "audience"@,
        obj2("@type"@, js("Audience"@), "audienceType"@, js(audience_name(a.audience))),
    );
    let e8 = obj_insert(e7, "about"@, obj2("@type"@, js("Thing"@), "name"@, js(a.entity@)));
    let title = p.answer_title@;
    let e9 = if title.len() > 0 {
        obj_insert(e8, "name"@, js(title))
    } else {
        e8
    };
    let e10 = match p.description {
        Some(d) => if trim(d@).len() > 0 {
            obj_insert(e9, "description"@, js(d@))
        } else {
            e9
        },
        None => e9,
    };
    let modified = if p.updated is Some {
        p.updated
    } else {
        p.date
    };
    let e11 = match modified {
        Some(u) => obj_insert(e10, "dateModified"@, js(u@)),
        None => e10,
    };
    let e12 = if a.external_refs@.len() > 0 {
        obj_insert(e11, "sameAs"@, str_values(strs(a.external_refs@)))
    } else {
        e11
    };
    if a.aliases@.len() > 0 {
        obj_insert(e12, "alternateName"@, str_values(strs(a.aliases@)))
    } else {
        e12
    }
}

/// The entries that a schema type adds to the common ones.
pub open spec fn preset_typed(
    p: Page,
    a: AnswerFrontMatter,
    st: Seq<char>,
    es: Seq<(Seq<char>, JsonV)>,
) -> Seq<(Seq<char>, JsonV)> {
    let title = p.answer_title@;
    if st == "WebPage"@ || st == "Article"@ || st == "TechArticle"@ {
        let e = if title.len() > 0 {
            obj_insert(es, "headline"@, js(title))
        } else {
            es
        };
        obj_insert(e, "mainEntityOfPage"@, js(p.permalink@))
    } else if st == "FAQPage"@ {
        obj_insert(
            es,
            "mainEntity"@,
            JsonV::Array(
                strs(a.canonical_questions@).map_values(
                    |q: Seq<char>| faq_question(q, a.summary@),
                ),
            ),
        )
    } else if st == "DefinedTerm"@ {
        let e = if title.len() > 0 {
            obj_insert(obj_insert(es, "termCode"@, js(a.id@)), "name"@, js(title))
        } else {
            es
        };
        obj_insert(e, "description"@, js(a.summary@))
    } else if st == "BreadcrumbList"@ {
        obj_insert(
            es,
            "itemListElement"@,
            JsonV::Array(
                Seq::new(p.components@.len(), |i: int| breadcrumb_entry(p, i)),
            ),
        )
    } else {
        es
    }
}

/// The structured-data preset of a page: present for answer pages with a
/// schema type.
pub open spec fn preset_doc(p: Page) -> Option<JsonV> {
    match p.answer {
        Some(a) => match a.schema_type {
            Some(st) => Some(JsonV::Object(preset_typed(p, a, st@, preset_common(p, a, st@)))),
            None => None,
        },
        None => None,
    }
}

pub open spec fn opt_jv(o: Option<Json>) -> Option<JsonV> {
    match o {
        Some(j) => Some(jv(j)),
        None => None,
    }
}

fn preset_common_exec(page: &Page, a: &AnswerFrontMatter, st: &String) -> (r: Vec<(String, Json)>)
    ensures
        entries_v(r@) == preset_common(*page, *a, st@),
{
    let mut es: Vec<(String, Json)> = Vec::new();
    assert(entries_v(es@) =~= Seq::<(Seq<char>, JsonV)>::empty());
    json_insert(&mut es, "@context".to_owned(), js_exec("https://schema.org"));
    json_insert(&mut es, "@type".to_owned(), Json::Str(st.clone()));
    json_insert(&mut es, "url".to_owned(), Json::Str(page.permalink.clone()));
    json_insert(&mut es, "description".to_owned(), Json::Str(a.summary.clone()));
    json_insert(&mut es, "identifier".to_owned(), Json::Str(a.id.clone()));
    json_insert(&mut es, "inLanguage".to_owned(), Json::Str(page.lang.clone()));
    let audience = obj2_exec(
        "@type",
        js_exec("Audience"),
        "audienceType",
        js_exec(audience_key(&a.audience)),
    );
    json_insert(&mut es, "audience".to_owned(), audience);
    let about = obj2_exec("@type", js_exec("Thing"), "name", Json::Str(a.entity.clone()));
    json_insert(&mut es, "about".to_owned(), about);
    if !page.answer_title.as_str().is_empty() {
        json_insert(&mut es, "name".to_owned(), Json::Str(page.answer_title.clone()));
    }
    match &page.description {
        Some(d) => {
            let dc = chars_of(d.as_str());
            let t = trim_exec(&dc);
            if t.len() > 0 {
                json_insert(&mut es, "description".to_owned(), Json::Str(d.clone()));
            }
        },
        None => {},
    }
    let modified = if page.updated.is_some() {
        &page.updated
    } else {
        &page.date
    };
    match modified {
        Some(u) => {
            json_insert(&mut es, "dateModified".to_owned(), Json::Str(u.clone()));
        },
        None => {},
    }
    if a.external_refs.len() > 0 {
        json_insert(&mut es, "sameAs".to_owned(), str_values_exec(&a.external_refs));
    }
    if a.aliases.len() > 0 {
        json_insert(&mut es, "alternateName".to_owned(), str_values_exec(&a.aliases));
    }
    es
}

fn faq_question_exec(q: &String, summary: &String) -> (r: Json)
    ensures
        jv(r) == faq_question(q@, summary@),
{
    let mut es: Vec<(String, Json)> = Vec::new();
    assert(entries_v(es@) =~= Seq::<(Seq<char>, JsonV)>::empty());
    json_insert(&mut es, "@type".to_owned(), js_exec("Question"));
    json_insert(&mut es, "name".to_owned(), Json::Str(q.clone()));
    let answer = obj2_exec("@type", js_exec("Answer"), "text", Json::Str(summary.clone()));
    json_insert(&mut es, "acceptedAnswer".to_owned(), answer);
    proof {
        lemma_jv_object(es);
    }
    Json::Object(es)
}

fn breadcrumb_entry_exec(page: &Page, i: usize) -> (r: Json)
    requires
        i < page.components@.len(),
    ensures
        jv(r) == breadcrumb_entry(*page, i as int),
{
    let permalink = chars_of(page.permalink.as_str());
    let path = chars_of(page.path.as_str());
    let mut link = trim_end_matches_exec(&permalink, &path);
    let mut parts: Vec<Vec<char>> = Vec::new();
    let n = page.components.len();
    assert(i < n);
    let end = i + 1;
    let mut k: usize = 0;
    while k < end
        invariant
            k <= end,
            end == i + 1,
            i < page.components@.len(),
            views(parts@) == strs(page.components@).take(k as int),
        decreases end - k,
    {
        let ghost before = views(parts@);
        parts.push(chars_of(page.components[k].as_str()));
        assert(views(parts@) =~= before.push(page.components@[k as int]@));
        assert(strs(page.components@).take(k + 1) =~= strs(page.components@).take(k as int).push(
            page.components@[k as int]@,
        ));
        k += 1;
    }
    let sep = chars_of("/");
    let joined = join_exec(&parts, &sep);
    extend(&mut link, &joined);
    extend_str(&mut link, "/");
    let mut es: Vec<(String, Json)> = Vec::new();
    assert(entries_v(es@) =~= Seq::<(Seq<char>, JsonV)>::empty());
    json_insert(&mut es, "@type".to_owned(), js_exec("ListItem"));
    let pos = decimal_exec(i + 1);
    json_insert(&mut es, "position".to_owned(), Json::Number(string_of(&pos)));
    json_insert(&mut es, "name".to_owned(), Json::Str(page.components[i].clone()));
    json_insert(&mut es, "item".to_owned(), Json::Str(string_of(&link)));
    proof {
        lemma_jv_object(es);
    }
    Json::Object(es)
}

/// The structured-data preset of a page.
pub fn structured_data_preset(page: &Page) -> (r: Option<Json>)
    ensures
        opt_jv(r) == preset_doc(*page),
{
    let a = match &page.answer {
        Some(a) => a,
        None => return None,
    };
    let st = match &a.schema_type {
        Some(st) => st,
        None => return None,
    };
    let mut es = preset_common_exec(page, a, st);
    let ghost common = entries_v(es@);
    let title_present = !page.answer_title.as_str().is_empty();
    let s = st.as_str();
    if str_eq(s, "WebPage") || str_eq(s, "Article") || str_eq(s, "TechArticle") {
        if title_present {
            json_insert(&mut es, "headline".to_owned(), Json::Str(page.answer_title.clone()));
        }
        json_insert(&mut es, "mainEntityOfPage".to_owned(), Json::Str(page.permalink.clone()));
    } else if str_eq(s, "FAQPage") {
        let mut items: Vec<Json> = Vec::new();
        let qs = &a.canonical_questions;
        let mut i: usize = 0;
        while i < qs.len()
            invariant
                i <= qs@.len(),
                items@.map_values(|j: Json| jv(j)) == strs(qs@.take(i as int)).map_values(
                    |q: Seq<char>| faq_question(q, a.summary@),
                ),
            decreases qs.len() - i,
        {
            let ghost before = items@.map_values(|j: Json| jv(j));
            let item = faq_question_exec(&qs[i], &a.summary);
            items.push(item);
            assert(items@.map_values(|j: Json| jv(j)) =~= before.push(
                faq_question(qs@[i as int]@, a.summary@),
            ));
            assert(strs(qs@.take(i + 1)).map_values(|q: Seq<char>| faq_question(q, a.summary@))
                =~= strs(qs@.take(i as int)).map_values(
                |q: Seq<char>| faq_question(q, a.summary@),
            ).push(faq_question(qs@[i as int]@, a.summary@)));
            i += 1;
        }
        assert(qs@.take(i as int) =~= qs@);
        proof {
            lemma_jv_array(items);
        }
        json_insert(&mut es, "mainEntity".to_owned(), Json::Array(items));
    } else if str_eq(s, "DefinedTerm") {
        if title_present {
            json_insert(&mut es, "termCode".to_owned(), Json::Str(a.id.clone()));
            json_insert(&mut es, "name".to_owned(), Json::Str(page.answer_title.clone()));
        }
        json_insert(&mut es, "description".to_owned(), Json::Str(a.summary.clone()));
    } else if str_eq(s, "BreadcrumbList") {
        let mut items: Vec<Json> = Vec::new();
        let mut i: usize = 0;
        while i < page.components.len()
            invariant
                i <= page.components@.len(),
                items@.map_values(|j: Json| jv(j)) == Seq::new(
                    i as nat,
                    |k: int| breadcrumb_entry(*page, k),
                ),
            decreases page.components.len() - i,
        {
            let ghost before = items@.map_values(|j: Json| jv(j));
            let item = breadcrumb_entry_exec(page, i);
            let ghost iv = jv(item);
            items.push(item);
            assert(items@.map_values(|j: Json| jv(j)) =~= before.push(iv));
            assert(Seq::new((i + 1) as nat, |k: int| breadcrumb_entry(*page, k)) =~= Seq::new(
                i as nat,
                |k: int| breadcrumb_entry(*page, k),
            ).push(breadcrumb_entry(*page, i as int)));
            i += 1;
        }
        proof {
            lemma_jv_array(items);
        }
        json_insert(&mut es, "itemListElement".to_owned(), Json::Array(items));
    }
    proof {
        lemma_jv_object(es);
    }
    Some(Json::Object(es))
}

/// The structured data of an answer page, as a JSON document.
#[derive(Debug)]
pub struct StructuredDataOutput {
    pub json: Json,
}

/// Entries with `@context` set to schema.org when it is missing.
pub open spec fn with_context(es: Seq<(Seq<char>, JsonV)>) -> Seq<(Seq<char>, JsonV)> {
    if obj_index(es, "@context"@) is None {
        obj_insert(es, "@context"@, js("https://schema.org"@))
    } else {
        es
    }
}

/// The structured data of a page: none for pages without answer metadata or
/// without preset and sidecar; the preset with the sidecar merged into it;
/// an error when the document has neither `@type` nor `@graph`.
pub open spec fn spec_structured_data(p: Page) -> Result<Option<JsonV>, Seq<char>> {
    if p.answer is None {
        Ok(None)
    } else {
        let doc: Option<JsonV> = match (preset_doc(p), p.structured_data_sidecar) {
            (Some(pr), Some(sc)) => Some(merged(pr, jv(sc))),
            (Some(pr), None) => Some(pr),
            (None, Some(sc)) => Some(jv(sc)),
            (None, None) => None,
        };
        match doc {
            None => Ok(None),
            Some(d) => match d {
                JsonV::Object(es) => {
                    let es2 = with_context(es);
                    if obj_index(es2, "@type"@) is None && obj_index(es2, "@graph"@) is None {
                        Err(p.source_path@ + ": structured data must contain `@type` or `@graph`"@)
                    } else {
                        Ok(Some(JsonV::Object(es2)))
                    }
                },
                _ => Ok(Some(d)),
            },
        }
    }
}

fn has_key(es: &Vec<(String, Json)>, k: &str) -> (r: bool)
    ensures
        r == obj_index(entries_v(es@), k@) is Some,
{
    let key = k.to_owned();
    match crate::json::find_key(es, &key) {
        Some(_) => true,
        None => false,
    }
}

/// The structured data of a page.
pub fn structured_data_for_page(page: &Page) -> (r: Result<Option<StructuredDataOutput>, String>)
    requires
        page.sidecar_ok(),
    ensures
        match r {
            Ok(Some(o)) => spec_structured_data(*page) == Ok::<Option<JsonV>, Seq<char>>(
                Some(jv(o.json)),
            ),
            Ok(None) => spec_structured_data(*page) == Ok::<Option<JsonV>, Seq<char>>(None),
            Err(e) => spec_structured_data(*page) == Err::<Option<JsonV>, Seq<char>>(e@),
        },
{
    if page.answer.is_none() {
        return Ok(None);
    }
    let preset = structured_data_preset(page);
    let document = match (preset, &page.structured_data_sidecar) {
        (Some(pr), Some(sc)) => merge_json(pr, sc),
        (Some(pr), None) => pr,
        (None, Some(sc)) => json_clone(sc),
        (None, None) => return Ok(None),
    };
    match document {
        Json::Object(es) => {
            let mut es = es;
            proof {
                lemma_jv_object(es);
            }
            if !has_key(&es, "@context") {
                json_insert(&mut es, "@context".to_owned(), js_exec("https://schema.org"));
            }
            if !has_key(&es, "@type") && !has_key(&es, "@graph") {
                let mut m: Vec<char> = Vec::new();
                extend_str(&mut m, page.source_path.as_str());
                extend_str(&mut m, ": structured data must contain `@type` or `@graph`");
                return Err(string_of(&m));
            }
            proof {
                lemma_jv_object(es);
            }
            Ok(Some(StructuredDataOutput { json: Json::Object(es) }))
        },
        other => Ok(Some(StructuredDataOutput { json: other })),
    }
}

} // verus!
