//! The rubric grading exchange of `eval --llm` with the OpenAI Responses API:
//! the model check, the grading request and the text of a response.

use vstd::prelude::*;

use crate::answers::AnswerRecord;
use crate::diagnostics::{ostr, strs};
use crate::eval::EvalCase;
use crate::json::{
    entries_v, json_object, jv, obj_index, object_from, push_entry as put, Json, JsonV,
};
use crate::structured::{js, lemma_jv_array};
use crate::text::{chars_of, extend_str, starts_with, starts_with_exec, string_of};

verus! {

pub open spec fn obj(es: Seq<(Seq<char>, JsonV)>) -> JsonV {
    JsonV::Object(object_from(es))
}

pub open spec fn num(t: Seq<char>) -> JsonV {
    JsonV::Number(t)
}

pub open spec fn str_array(v: Seq<Seq<char>>) -> JsonV {
    JsonV::Array(v.map_values(|s: Seq<char>| js(s)))
}

pub open spec fn opt_str_v(o: Option<Seq<char>>) -> JsonV {
    match o {
        Some(s) => js(s),
        None => JsonV::Null,
    }
}

// ---------------------------------------------------------------------------
// Model check
// ---------------------------------------------------------------------------

/// The model LLM grading runs with: one is required, of the GPT-5.4 family.
pub open spec fn spec_grading_model(model: Option<Seq<char>>) -> Result<Seq<char>, Seq<char>> {
    match model {
        None => Err(
            "LLM eval requires a GPT-5.4 model. Set `ansorum.eval.model`, or pass `--model`."@,
        ),
        Some(m) => if starts_with(m, "gpt-5.4"@) {
            Ok(m)
        } else {
            Err("Eval model `"@ + m + "` must be in the GPT-5.4 family"@)
        },
    }
}

/// Checks the model LLM grading would run with.
pub fn grading_model(model: Option<&str>) -> (r: Result<String, String>)
    ensures
        match r {
            Ok(m) => spec_grading_model(
                match model {
                    Some(m) => Some(m@),
                    None => None,
                },
            ) == Ok::<Seq<char>, Seq<char>>(m@),
            Err(e) => spec_grading_model(
                match model {
                    Some(m) => Some(m@),
                    None => None,
                },
            ) == Err::<Seq<char>, Seq<char>>(e@),
        },
{
    match model {
        None => Err(
            "LLM eval requires a GPT-5.4 model. Set `ansorum.eval.model`, or pass `--model`.".to_string(),
        ),
        Some(m) => {
            if starts_with_exec(&chars_of(m), &chars_of("gpt-5.4")) {
                Ok(m.to_string())
            } else {
                let mut t: Vec<char> = Vec::new();
                extend_str(&mut t, "Eval model `");
                extend_str(&mut t, m);
                extend_str(&mut t, "` must be in the GPT-5.4 family");
                Err(string_of(&t))
            }
        },
    }
}

// ---------------------------------------------------------------------------
// Grade schema
// ---------------------------------------------------------------------------

/// A rubric score: a number from 0.0 to 1.0.
pub open spec fn score_schema() -> JsonV {
    obj(
        seq![
            ("type"@, js("number"@)),
            ("minimum"@, num("0.0"@)),
            ("maximum"@, num("1.0"@)),
        ],
    )
}

pub open spec fn rubric_fields() -> Seq<Seq<char>> {
    seq![
        "relevance"@,
        "completeness"@,
        "factual_consistency"@,
        "citation_quality"@,
        "preference_ordering"@,
    ]
}

/// The JSON schema the grade must follow: five scores and a rationale.
pub open spec fn spec_grade_schema() -> JsonV {
    obj(
        seq![
            ("type"@, js("object"@)),
            ("additionalProperties"@, JsonV::Bool(false)),
            ("required"@, str_array(rubric_fields() + seq!["rationale"@])),
            (
                "properties"@,
                obj(
                    seq![
                        ("relevance"@, score_schema()),
                        ("completeness"@, score_schema()),
                        ("factual_consistency"@, score_schema()),
                        ("citation_quality"@, score_schema()),
                        ("preference_ordering"@, score_schema()),
                        (
                            "rationale"@,
                            obj(seq![("type"@, js("string"@)), ("minLength"@, num("1"@))]),
                        ),
                    ],
                ),
            ),
        ],
    )
}

fn str_json(t: &str) -> (r: Json)
    ensures
        jv(r) == js(t@),
{
    Json::Str(t.to_string())
}

fn num_json(t: &str) -> (r: Json)
    ensures
        jv(r) == num(t@),
{
    Json::Number(t.to_string())
}

fn score_schema_exec() -> (r: Json)
    ensures
        jv(r) == score_schema(),
{
    let mut es: Vec<(String, Json)> = Vec::new();
    put(&mut es, "type", str_json("number"));
    put(&mut es, "minimum", num_json("0.0"));
    put(&mut es, "maximum", num_json("1.0"));
    assert(entries_v(es@) =~= seq![
        ("type"@, js("number"@)),
        ("minimum"@, num("0.0"@)),
        ("maximum"@, num("1.0"@)),
    ]);
    json_object(es)
}

fn strings_json(v: &Vec<String>) -> (r: Json)
    ensures
        jv(r) == str_array(strs(v@)),
{
    let mut items: Vec<Json> = Vec::new();
    let mut i: usize = 0;
    while i < v.len()
        invariant
            i <= v@.len(),
            items@.map_values(|j: Json| jv(j)) == strs(v@.take(i as int)).map_values(
                |s: Seq<char>| js(s),
            ),
        decreases v.len() - i,
    {
        let ghost before = items@.map_values(|j: Json| jv(j));
        items.push(Json::Str(v[i].clone()));
        proof {
            assert(strs(v@.take(i + 1)) =~= strs(v@.take(i as int)).push(v@[i as int]@));
            assert(items@.map_values(|j: Json| jv(j)) =~= before.push(js(v@[i as int]@)));
        }
        i += 1;
    }
    assert(v@.take(i as int) =~= v@);
    proof {
        lemma_jv_array(items);
    }
    Json::Array(items)
}

/// The JSON schema of an LLM grade.
pub fn llm_grade_schema() -> (r: Json)
    ensures
        jv(r) == spec_grade_schema(),
{
    let mut required: Vec<String> = Vec::new();
    required.push("relevance".to_string());
    required.push("completeness".to_string());
    required.push("factual_consistency".to_string());
    required.push("citation_quality".to_string());
    required.push("preference_ordering".to_string());
    required.push("rationale".to_string());
    assert(strs(required@) =~= rubric_fields() + seq!["rationale"@]);
    let mut props: Vec<(String, Json)> = Vec::new();
    put(&mut props, "relevance", score_schema_exec());
    put(&mut props, "completeness", score_schema_exec());
    put(&mut props, "factual_consistency", score_schema_exec());
    put(&mut props, "citation_quality", score_schema_exec());
    put(&mut props, "preference_ordering", score_schema_exec());
    let mut rationale: Vec<(String, Json)> = Vec::new();
    put(&mut rationale, "type", str_json("string"));
    put(&mut rationale, "minLength", num_json("1"));
    assert(entries_v(rationale@) =~= seq![("type"@, js("string"@)), ("minLength"@, num("1"@))]);
    put(&mut props, "rationale", json_object(rationale));
    assert(entries_v(props@) =~= seq![
        ("relevance"@, score_schema()),
        ("completeness"@, score_schema()),
        ("factual_consistency"@, score_schema()),
        ("citation_quality"@, score_schema()),
        ("preference_ordering"@, score_schema()),
        ("rationale"@, obj(seq![("type"@, js("string"@)), ("minLength"@, num("1"@))])),
    ]);
    let mut es: Vec<(String, Json)> = Vec::new();
    put(&mut es, "type", str_json("object"));
    put(&mut es, "additionalProperties", Json::Bool(false));
    put(&mut es, "required", strings_json(&required));
    put(&mut es, "properties", json_object(props));
    assert(entries_v(es@) =~= seq![
        ("type"@, js("object"@)),
        ("additionalProperties"@, JsonV::Bool(false)),
        ("required"@, str_array(rubric_fields() + seq!["rationale"@])),
        (
            "properties"@,
            obj(
                seq![
                    ("relevance"@, score_schema()),
                    ("completeness"@, score_schema()),
                    ("factual_consistency"@, score_schema()),
                    ("citation_quality"@, score_schema()),
                    ("preference_ordering"@, score_schema()),
                    ("rationale"@, obj(seq![("type"@, js("string"@)), ("minLength"@, num("1"@))])),
                ],
            ),
        ),
    ]);
    json_object(es)
}

// ---------------------------------------------------------------------------
// Grading request
// ---------------------------------------------------------------------------

/// The system prompt of a grading request.
pub open spec fn spec_system_prompt(prompt_version: Seq<char>) -> Seq<char> {
    "You are grading an Ansorum answer eval case. Prompt version: "@ + prompt_version
        + ". Grade each rubric dimension from 0.0 to 1.0. Be strict. Return JSON only."@
}

/// The system prompt of a grading request.
pub fn system_prompt(prompt_version: &str) -> (r: String)
    ensures
        r@ == spec_system_prompt(prompt_version@),
{
    let mut t: Vec<char> = Vec::new();
    extend_str(&mut t, "You are grading an Ansorum answer eval case. Prompt version: ");
    extend_str(&mut t, prompt_version);
    extend_str(
        &mut t,
        ". Grade each rubric dimension from 0.0 to 1.0. Be strict. Return JSON only.",
    );
    string_of(&t)
}

/// What the grader is told of an answer: its identity, links and Markdown.
pub open spec fn spec_answer_context(a: &AnswerRecord, markdown: Option<Seq<char>>) -> JsonV {
    obj(
        seq![
            ("id"@, js(a.id@)),
            ("title"@, js(a.title@)),
            ("summary"@, js(a.summary@)),
            ("canonical_url"@, js(a.canonical_url@)),
            ("markdown_url"@, js(a.markdown_url@)),
            ("markdown"@, opt_str_v(markdown)),
        ],
    )
}

fn opt_str_json(o: Option<String>) -> (r: Json)
    ensures
        jv(r) == opt_str_v(ostr(o)),
{
    match o {
        Some(s) => Json::Str(s),
        None => Json::Null,
    }
}

/// What the grader is told of an answer.
pub fn answer_context(answer: &AnswerRecord, markdown: Option<String>) -> (r: Json)
    ensures
        jv(r) == spec_answer_context(answer, ostr(markdown)),
{
    let mut es: Vec<(String, Json)> = Vec::new();
    put(&mut es, "id", Json::Str(answer.id.clone()));
    put(&mut es, "title", Json::Str(answer.title.clone()));
    put(&mut es, "summary", Json::Str(answer.summary.clone()));
    put(&mut es, "canonical_url", Json::Str(answer.canonical_url.clone()));
    put(&mut es, "markdown_url", Json::Str(answer.markdown_url.clone()));
    let ghost md = ostr(markdown);
    put(&mut es, "markdown", opt_str_json(markdown));
    assert(entries_v(es@) =~= seq![
        ("id"@, js(answer.id@)),
        ("title"@, js(answer.title@)),
        ("summary"@, js(answer.summary@)),
        ("canonical_url"@, js(answer.canonical_url@)),
        ("markdown_url"@, js(answer.markdown_url@)),
        ("markdown"@, opt_str_v(md)),
    ]);
    json_object(es)
}

/// The rubric the grader scores against.
pub open spec fn spec_rubric() -> JsonV {
    obj(
        seq![
            ("relevance"@, js("Does the selected answer address the user question directly?"@)),
            (
                "completeness"@,
                js("Does it cover the required concepts without obvious omissions?"@),
            ),
            (
                "factual_consistency"@,
                js(
                    "Is it consistent with the expected answer set and does it avoid forbidden answers?"@,
                ),
            ),
            (
                "citation_quality"@,
                js("Does it preserve useful canonical or markdown links for traceability?"@),
            ),
            (
                "preference_ordering"@,
                js("If multiple answers compete, is the selected answer the best available choice?"@),
            ),
        ],
    )
}

fn rubric_exec() -> (r: Json)
    ensures
        jv(r) == spec_rubric(),
{
    let mut es: Vec<(String, Json)> = Vec::new();
    put(&mut es, "relevance", str_json("Does the selected answer address the user question directly?"));
    put(&mut es, "completeness", str_json("Does it cover the required concepts without obvious omissions?"));
    put(
        &mut es,
        "factual_consistency",
        str_json("Is it consistent with the expected answer set and does it avoid forbidden answers?"),
    );
    put(
        &mut es,
        "citation_quality",
        str_json("Does it preserve useful canonical or markdown links for traceability?"),
    );
    put(
        &mut es,
        "preference_ordering",
        str_json("If multiple answers compete, is the selected answer the best available choice?"),
    );
    assert(entries_v(es@) =~= seq![
        ("relevance"@, js("Does the selected answer address the user question directly?"@)),
        ("completeness"@, js("Does it cover the required concepts without obvious omissions?"@)),
        (
            "factual_consistency"@,
            js("Is it consistent with the expected answer set and does it avoid forbidden answers?"@),
        ),
        (
            "citation_quality"@,
            js("Does it preserve useful canonical or markdown links for traceability?"@),
        ),
        (
            "preference_ordering"@,
            js("If multiple answers compete, is the selected answer the best available choice?"@),
        ),
    ]);
    json_object(es)
}

pub open spec fn jvs(v: Seq<Json>) -> Seq<JsonV> {
    v.map_values(|j: Json| jv(j))
}

/// How many ranked ids a grading prompt shows.
pub const RANKED_IDS_SHOWN: usize = 5;

/// The first `RANKED_IDS_SHOWN` ranked ids (all of them when there are fewer).
pub open spec fn top_ranked(ids: Seq<Seq<char>>) -> Seq<Seq<char>> {
    if ids.len() <= RANKED_IDS_SHOWN {
        ids
    } else {
        ids.take(RANKED_IDS_SHOWN as int)
    }
}

fn top_ranked_exec(v: &Vec<String>) -> (r: Vec<String>)
    ensures
        strs(r@) == top_ranked(strs(v@)),
{
    let n = if v.len() <= RANKED_IDS_SHOWN {
        v.len()
    } else {
        RANKED_IDS_SHOWN
    };
    let mut r: Vec<String> = Vec::new();
    let mut i: usize = 0;
    while i < n
        invariant
            i <= n <= v@.len(),
            strs(r@) == strs(v@.take(i as int)),
        decreases n - i,
    {
        r.push(v[i].clone());
        assert(strs(v@.take(i + 1)) =~= strs(v@.take(i as int)).push(v@[i as int]@));
        assert(strs(r@) =~= strs(v@.take(i + 1)));
        i += 1;
    }
    assert(strs(v@.take(n as int)) =~= top_ranked(strs(v@)));
    r
}

/// The user prompt of a grading request: the case, the first ranked ids,
/// the selected answer (`null` when none) and the expected answers, with the
/// rubric.
pub open spec fn spec_user_prompt(
    case: &EvalCase,
    ranked_ids: Seq<Seq<char>>,
    selected: Option<JsonV>,
    expected: Seq<JsonV>,
) -> JsonV {
    obj(
        seq![
            ("question"@, js(case.question@)),
            ("expected_ids"@, str_array(strs(case.expected_ids@))),
            ("forbidden_ids"@, str_array(strs(case.forbidden_ids@))),
            ("required_terms"@, str_array(strs(case.required_terms@))),
            ("rubric_focus"@, opt_str_v(ostr(case.rubric_focus))),
            ("ranked_ids"@, str_array(top_ranked(ranked_ids))),
            (
                "selected_answer"@,
                match selected {
                    Some(s) => s,
                    None => JsonV::Null,
                },
            ),
            ("expected_answers"@, JsonV::Array(expected)),
            ("rubric"@, spec_rubric()),
        ],
    )
}

/// The user prompt of a grading request.
pub fn grading_user_prompt(
    case: &EvalCase,
    ranked_ids: &Vec<String>,
    selected: Option<Json>,
    expected: Vec<Json>,
) -> (r: Json)
    ensures
        jv(r) == spec_user_prompt(
            case,
            strs(ranked_ids@),
            match selected {
                Some(s) => Some(jv(s)),
                None => None,
            },
            jvs(expected@),
        ),
{
    let ghost sel: Option<JsonV> = match &selected {
        Some(s) => Some(jv(*s)),
        None => None,
    };
    let ghost ex = jvs(expected@);
    proof {
        lemma_jv_array(expected);
    }
    let focus = match &case.rubric_focus {
        Some(f) => Some(f.clone()),
        None => None,
    };
    let mut es: Vec<(String, Json)> = Vec::new();
    put(&mut es, "question", Json::Str(case.question.clone()));
    put(&mut es, "expected_ids", strings_json(&case.expected_ids));
    put(&mut es, "forbidden_ids", strings_json(&case.forbidden_ids));
    put(&mut es, "required_terms", strings_json(&case.required_terms));
    put(&mut es, "rubric_focus", opt_str_json(focus));
    let shown = top_ranked_exec(ranked_ids);
    put(&mut es, "ranked_ids", strings_json(&shown));
    let s = match selected {
        Some(s) => s,
        None => Json::Null,
    };
    put(&mut es, "selected_answer", s);
    put(&mut es, "expected_answers", Json::Array(expected));
    put(&mut es, "rubric", rubric_exec());
    assert(entries_v(es@) =~= seq![
        ("question"@, js(case.question@)),
        ("expected_ids"@, str_array(strs(case.expected_ids@))),
        ("forbidden_ids"@, str_array(strs(case.forbidden_ids@))),
        ("required_terms"@, str_array(strs(case.required_terms@))),
        ("rubric_focus"@, opt_str_v(ostr(case.rubric_focus))),
        ("ranked_ids"@, str_array(top_ranked(strs(ranked_ids@)))),
        (
            "selected_answer"@,
            match sel {
                Some(s) => s,
                None => JsonV::Null,
            },
        ),
        ("expected_answers"@, JsonV::Array(ex)),
        ("rubric"@, spec_rubric()),
    ]);
    json_object(es)
}

/// One message of a request's `input`.
pub open spec fn spec_message(role: Seq<char>, text: Seq<char>) -> JsonV {
    obj(
        seq![
            ("role"@, js(role)),
            (
                "content"@,
                JsonV::Array(seq![obj(seq![("type"@, js("input_text"@)), ("text"@, js(text))])]),
            ),
        ],
    )
}

fn message_exec(role: &str, text: &str) -> (r: Json)
    ensures
        jv(r) == spec_message(role@, text@),
{
    let mut part: Vec<(String, Json)> = Vec::new();
    put(&mut part, "type", str_json("input_text"));
    put(&mut part, "text", str_json(text));
    assert(entries_v(part@) =~= seq![("type"@, js("input_text"@)), ("text"@, js(text@))]);
    let mut content: Vec<Json> = Vec::new();
    content.push(json_object(part));
    let ghost cv = jvs(content@);
    assert(cv =~= seq![obj(seq![("type"@, js("input_text"@)), ("text"@, js(text@))])]);
    proof {
        lemma_jv_array(content);
    }
    let mut es: Vec<(String, Json)> = Vec::new();
    put(&mut es, "role", str_json(role));
    put(&mut es, "content", Json::Array(content));
    assert(entries_v(es@) =~= seq![("role"@, js(role@)), ("content"@, JsonV::Array(cv))]);
    json_object(es)
}

/// The body of a grading request: the model, the system and user messages
/// (the user prompt as JSON text) and the strict grade schema.
pub open spec fn spec_grading_request(
    model: Seq<char>,
    system: Seq<char>,
    user_prompt_text: Seq<char>,
) -> JsonV {
    obj(
        seq![
            ("model"@, js(model)),
            (
                "input"@,
                JsonV::Array(
                    seq![spec_message("system"@, system), spec_message("user"@, user_prompt_text)],
                ),
            ),
            (
                "text"@,
                obj(
                    seq![
                        (
                            "format"@,
                            obj(
                                seq![
                                    ("type"@, js("json_schema"@)),
                                    ("name"@, js("ansorum_eval_grade"@)),
                                    ("strict"@, JsonV::Bool(true)),
                                    ("schema"@, spec_grade_schema()),
                                ],
                            ),
                        ),
                    ],
                ),
            ),
        ],
    )
}

/// The body of a grading request; `user_prompt_text` is the user prompt
/// serialized as JSON.
pub fn grading_request(model: &str, system: &str, user_prompt_text: &str) -> (r: Json)
    ensures
        jv(r) == spec_grading_request(model@, system@, user_prompt_text@),
{
    let mut format: Vec<(String, Json)> = Vec::new();
    put(&mut format, "type", str_json("json_schema"));
    put(&mut format, "name", str_json("ansorum_eval_grade"));
    put(&mut format, "strict", Json::Bool(true));
    put(&mut format, "schema", llm_grade_schema());
    let ghost fv = entries_v(format@);
    let mut text: Vec<(String, Json)> = Vec::new();
    put(&mut text, "format", json_object(format));
    let ghost tv = entries_v(text@);
    assert(tv =~= seq![("format"@, JsonV::Object(object_from(fv)))]);
    let mut input: Vec<Json> = Vec::new();
    input.push(message_exec("system", system));
    input.push(message_exec("user", user_prompt_text));
    let ghost iv = jvs(input@);
    assert(iv =~= seq![spec_message("system"@, system@), spec_message("user"@, user_prompt_text@)]);
    proof {
        lemma_jv_array(input);
    }
    let mut es: Vec<(String, Json)> = Vec::new();
    put(&mut es, "model", str_json(model));
    put(&mut es, "input", Json::Array(input));
    put(&mut es, "text", json_object(text));
    assert(fv =~= seq![
        ("type"@, js("json_schema"@)),
        ("name"@, js("ansorum_eval_grade"@)),
        ("strict"@, JsonV::Bool(true)),
        ("schema"@, spec_grade_schema()),
    ]);
    assert(entries_v(es@) =~= seq![
        ("model"@, js(model@)),
        ("input"@, JsonV::Array(iv)),
        ("text"@, JsonV::Object(object_from(tv))),
    ]);
    json_object(es)
}

// ---------------------------------------------------------------------------
// Response text
// ---------------------------------------------------------------------------

/// The value of key `k` of an object (its first entry with that key); none
/// for anything else.
pub open spec fn json_get(j: JsonV, k: Seq<char>) -> Option<JsonV> {
    match j {
        JsonV::Object(es) => match obj_index(es, k) {
            Some(i) => Some(es[i].1),
            None => None,
        },
        _ => None,
    }
}

pub open spec fn as_str(o: Option<JsonV>) -> Option<Seq<char>> {
    match o {
        Some(JsonV::Str(s)) => Some(s),
        _ => None,
    }
}

pub open spec fn as_array(o: Option<JsonV>) -> Seq<JsonV> {
    match o {
        Some(JsonV::Array(v)) => v,
        _ => seq![],
    }
}

/// The first `text` string among content parts.
pub open spec fn first_text(parts: Seq<JsonV>) -> Option<Seq<char>>
    decreases parts.len(),
{
    if parts.len() == 0 {
        None
    } else {
        match as_str(json_get(parts[0], "text"@)) {
            Some(t) => Some(t),
            None => first_text(parts.skip(1)),
        }
    }
}

/// The first `text` string among the content parts of the output items.
pub open spec fn first_output_text(items: Seq<JsonV>) -> Option<Seq<char>>
    decreases items.len(),
{
    if items.len() == 0 {
        None
    } else {
        match first_text(as_array(json_get(items[0], "content"@))) {
            Some(t) => Some(t),
            None => first_output_text(items.skip(1)),
        }
    }
}

/// The text of a Responses API reply: its `output_text` string, else the
/// first `text` string of the content of its `output` items.
pub open spec fn spec_response_text(response: JsonV) -> Option<Seq<char>> {
    match as_str(json_get(response, "output_text"@)) {
        Some(t) => Some(t),
        None => first_output_text(as_array(json_get(response, "output"@))),
    }
}

fn get<'a>(j: &'a Json, key: &str) -> (r: Option<&'a Json>)
    ensures
        match r {
            Some(x) => json_get(jv(*j), key@) == Some(jv(*x)),
            None => json_get(jv(*j), key@) is None,
        },
{
    match j {
        Json::Object(es) => {
            proof {
                crate::json::lemma_jv_object(*es);
                crate::json::lemma_obj_index(entries_v(es@), key@);
            }
            let k = key.to_string();
            match crate::json::find_key(es, &k) {
                Some(i) => {
                    assert(entries_v(es@)[i as int].1 == jv(es@[i as int].1));
                    Some(&es[i].1)
                },
                None => None,
            }
        },
        _ => None,
    }
}

fn get_str(j: &Json, key: &str) -> (r: Option<String>)
    ensures
        ostr(r) == as_str(json_get(jv(*j), key@)),
{
    match get(j, key) {
        Some(Json::Str(s)) => Some(s.clone()),
        _ => None,
    }
}

fn get_array<'a>(j: &'a Json, key: &str) -> (r: &'a [Json])
    ensures
        jvs(r@) == as_array(json_get(jv(*j), key@)),
{
    match get(j, key) {
        Some(Json::Array(v)) => {
            proof {
                lemma_jv_array(*v);
            }
            v.as_slice()
        },
        _ => {
            let empty: &[Json] = &[];
            assert(jvs(empty@) =~= Seq::<JsonV>::empty());
            empty
        },
    }
}

fn first_text_exec(parts: &[Json]) -> (r: Option<String>)
    ensures
        ostr(r) == first_text(jvs(parts@)),
{
    let mut i: usize = 0;
    assert(jvs(parts@).skip(0) =~= jvs(parts@));
    while i < parts.len()
        invariant
            i <= parts@.len(),
            first_text(jvs(parts@)) == first_text(jvs(parts@).skip(i as int)),
        decreases parts.len() - i,
    {
        assert(jvs(parts@).skip(i as int)[0] == jv(parts@[i as int]));
        assert(jvs(parts@).skip(i as int).skip(1) =~= jvs(parts@).skip(i + 1));
        match get_str(&parts[i], "text") {
            Some(t) => {
                return Some(t);
            },
            None => {},
        }
        i += 1;
    }
    assert(jvs(parts@).skip(i as int) =~= Seq::<JsonV>::empty());
    None
}

/// The text of a Responses API reply, if it has any.
pub fn extract_response_text(response: &Json) -> (r: Option<String>)
    ensures
        ostr(r) == spec_response_text(jv(*response)),
{
    match get_str(response, "output_text") {
        Some(t) => {
            return Some(t);
        },
        None => {},
    }
    let items = get_array(response, "output");
    let mut i: usize = 0;
    assert(jvs(items@).skip(0) =~= jvs(items@));
    while i < items.len()
        invariant
            i <= items@.len(),
            spec_response_text(jv(*response)) == first_output_text(jvs(items@).skip(i as int)),
        decreases items.len() - i,
    {
        assert(jvs(items@).skip(i as int)[0] == jv(items@[i as int]));
        assert(jvs(items@).skip(i as int).skip(1) =~= jvs(items@).skip(i + 1));
        let parts = get_array(&items[i], "content");
        match first_text_exec(parts) {
            Some(t) => {
                return Some(t);
            },
            None => {},
        }
        i += 1;
    }
    assert(jvs(items@).skip(i as int) =~= Seq::<JsonV>::empty());
    None
}

} // verus!
