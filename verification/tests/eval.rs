use ansorum::cli::EvalFormat;
use ansorum::config::Eval;
use ansorum::eval::{
    classify_openai_failure, contains_term, counts_failed, ensure_unique, eval_format_name,
    normalize_text, prepare_fixture_cases, resolve_api_base, resolve_fixture_path, resolve_model,
    tally_cases, tokenize, CaseVerdicts, EvalCase, DEFAULT_FIXTURES_PATH,
};
use ansorum::json::Json;
use ansorum::responses::{
    extract_response_text, grading_model, grading_user_prompt, llm_grade_schema, system_prompt,
};

fn case(question: &str) -> EvalCase {
    EvalCase {
        question: question.to_string(),
        expected_ids: Vec::new(),
        forbidden_ids: Vec::new(),
        required_terms: Vec::new(),
        rubric_focus: None,
    }
}

#[test]
fn required_terms_match_machine_markdown() {
    assert!(contains_term("## Eligibility\nRefunds follow the billing policy.", "eligibility"));
    assert!(contains_term("Canonical page: <https://example.com/refunds/>", "canonical page"));
    assert!(!contains_term("Refund details only", "exceptions"));
}

#[test]
fn default_fixture_path_resolves_from_root() {
    let resolved = resolve_fixture_path("/tmp/site", DEFAULT_FIXTURES_PATH);
    assert_eq!(resolved, "/tmp/site/eval/fixtures.yaml");
    let _ = EvalFormat::Human;
}

#[test]
fn final_report_enforces_case_success() {
    let cases = vec![CaseVerdicts {
        retrieval_passed: true,
        selection_passed: true,
        llm_passed: None,
    }];
    let (passed, counts) = tally_cases(&cases, false);
    assert_eq!(counts.passed_cases, 1);
    assert_eq!(counts.total_cases, 1);
    assert_eq!(passed, vec![true]);
}

#[test]
fn llm_eval_defaults_to_mini_model() {
    let eval = Eval::default();
    let model = resolve_model(&eval, true, None).expect("expected default model");
    assert_eq!(model.as_deref(), Some("gpt-5.4-mini"));
}

#[test]
fn model_override_beats_default_model() {
    let eval = Eval::default();
    let model = resolve_model(&eval, true, Some("gpt-5.4")).expect("expected overridden model");
    assert_eq!(model.as_deref(), Some("gpt-5.4"));
}

#[test]
fn classifies_openai_timeout_failures() {
    let message = classify_openai_failure(
        "https://api.openai.com/v1/responses",
        None,
        true,
        false,
        "deadline elapsed",
    );
    assert!(message.contains("timed out after 45s"));
}

#[test]
fn classifies_openai_auth_failures() {
    let message = classify_openai_failure(
        "https://api.openai.com/v1/responses",
        Some(401),
        false,
        false,
        "401 Unauthorized",
    );
    assert!(message.contains("Check OPENAI_API_KEY"));
}

#[test]
fn classifies_openai_rate_limits() {
    let message = classify_openai_failure(
        "https://api.openai.com/v1/responses",
        Some(429),
        false,
        false,
        "429 Too Many Requests",
    );
    assert!(message.contains("rate limited"));
}

#[test]
fn classifies_openai_server_failures() {
    let message = classify_openai_failure(
        "https://api.openai.com/v1/responses",
        Some(502),
        false,
        false,
        "502 Bad Gateway",
    );
    assert!(message.contains("upstream status 502 Bad Gateway"));
}

#[test]
fn classifies_openai_transport_failures() {
    let message = classify_openai_failure(
        "https://api.openai.com/v1/responses",
        None,
        false,
        true,
        "connection refused",
    );
    assert!(message.contains("could not connect"));
}

#[test]
fn classifies_client_errors_and_other_transport_failures() {
    let message = classify_openai_failure("https://x.test/v1", Some(404), false, false, "nope");
    assert_eq!(
        message,
        "OpenAI eval request failed with API status 404 Not Found from https://x.test/v1. Check the eval request configuration and selected model."
    );
    let message = classify_openai_failure("https://x.test/v1", None, false, false, "reset");
    assert_eq!(message, "OpenAI eval transport failure while calling https://x.test/v1: reset");
}

#[test]
fn model_outside_the_family_is_refused() {
    let mut eval = Eval::default();
    eval.model = Some("gpt-4o".to_string());
    let err = resolve_model(&eval, false, None).expect_err("model family is checked");
    assert_eq!(err, "Eval model `gpt-4o` must be in the GPT-5.4 family");
    assert_eq!(resolve_model(&Eval::default(), false, None), Ok(None));
}

#[test]
fn api_base_override_comes_first() {
    let mut eval = Eval::default();
    assert_eq!(resolve_api_base(&eval, None), "https://api.openai.com/v1/responses");
    eval.api_base = Some("https://proxy.test/v1".to_string());
    assert_eq!(resolve_api_base(&eval, None), "https://proxy.test/v1");
    assert_eq!(resolve_api_base(&eval, Some("http://local/v1")), "http://local/v1");
}

#[test]
fn fixture_paths_keep_absolute_fixtures() {
    assert_eq!(resolve_fixture_path("/tmp/site/", "eval/x.yaml"), "/tmp/site/eval/x.yaml");
    assert_eq!(resolve_fixture_path("/tmp/site", "/abs/x.yaml"), "/abs/x.yaml");
}

#[test]
fn text_is_normalized_and_tokenized() {
    assert_eq!(normalize_text("  Can I get a REFUND?! "), "can i get a refund");
    let tokens = tokenize("can i get a refund after 30 days");
    assert_eq!(tokens, vec!["30", "after", "can", "days", "get", "refund"]);
}

#[test]
fn duplicate_fixture_values_are_refused() {
    let values = vec!["a".to_string(), "b".to_string(), "a".to_string()];
    let err = ensure_unique("expected_ids", &values, "eval/fixtures.yaml").expect_err("dup");
    assert_eq!(err, "Eval fixture file eval/fixtures.yaml contains duplicate values in `expected_ids`");
    assert!(ensure_unique("expected_ids", &vec!["a".to_string()], "f").is_ok());
}

#[test]
fn fixture_cases_are_checked() {
    let err = prepare_fixture_cases("f.yaml", Vec::new()).expect_err("empty");
    assert_eq!(err, "Eval fixture file f.yaml does not contain any cases");
    let cases = prepare_fixture_cases("f.yaml", vec![case("  can i get a refund  ")]).expect("ok");
    assert_eq!(cases[0].question, "can i get a refund");
}

#[test]
fn counts_decide_failure() {
    let cases = vec![
        CaseVerdicts { retrieval_passed: true, selection_passed: true, llm_passed: Some(true) },
        CaseVerdicts { retrieval_passed: true, selection_passed: false, llm_passed: None },
    ];
    let (passed, counts) = tally_cases(&cases, false);
    assert_eq!(passed, vec![true, false]);
    assert_eq!(counts.selection_passed, 1);
    assert_eq!(counts.llm_scored_cases, 1);
    assert!(counts_failed(&counts, false));
    let (_, required) = tally_cases(&cases[..1].to_vec(), true);
    assert!(!counts_failed(&required, true));
}

#[test]
fn eval_formats_have_event_names() {
    assert_eq!(eval_format_name(EvalFormat::Human), "human");
    assert_eq!(eval_format_name(EvalFormat::JsonStream), "json_stream");
}

#[test]
fn grading_requires_a_gpt_5_4_model() {
    assert!(grading_model(None).unwrap_err().starts_with("LLM eval requires a GPT-5.4 model."));
    assert_eq!(grading_model(Some("gpt-5.4-mini")), Ok("gpt-5.4-mini".to_string()));
    assert_eq!(
        grading_model(Some("o3")),
        Err("Eval model `o3` must be in the GPT-5.4 family".to_string())
    );
    assert!(system_prompt("v2").contains("Prompt version: v2."));
}

#[test]
fn response_text_prefers_output_text() {
    let direct = Json::Object(vec![("output_text".to_string(), Json::Str("{}".to_string()))]);
    assert_eq!(extract_response_text(&direct), Some("{}".to_string()));
    let part = Json::Object(vec![("text".to_string(), Json::Str("graded".to_string()))]);
    let item = Json::Object(vec![("content".to_string(), Json::Array(vec![Json::Null, part]))]);
    let nested = Json::Object(vec![("output".to_string(), Json::Array(vec![item]))]);
    assert_eq!(extract_response_text(&nested), Some("graded".to_string()));
    assert_eq!(extract_response_text(&Json::Null), None);
}

#[test]
fn grade_schema_lists_every_rubric_field() {
    match llm_grade_schema() {
        Json::Object(entries) => {
            let keys: Vec<&str> = entries.iter().map(|(k, _)| k.as_str()).collect();
            assert_eq!(keys, vec!["additionalProperties", "properties", "required", "type"]);
            match &entries[2].1 {
                Json::Array(items) => assert_eq!(items.len(), 6),
                _ => panic!("required is an array"),
            }
        }
        _ => panic!("schema is an object"),
    }
}

fn ranked_ids_of(prompt: &Json) -> Vec<String> {
    let shown = match prompt {
        Json::Object(es) => es.iter().find(|(k, _)| k == "ranked_ids").map(|(_, v)| v),
        _ => None,
    };
    match shown {
        Some(Json::Array(items)) => items
            .iter()
            .map(|i| match i {
                Json::Str(s) => s.clone(),
                _ => panic!("ranked id is a string"),
            })
            .collect(),
        _ => panic!("ranked_ids array"),
    }
}

#[test]
fn grading_prompt_shows_the_first_five_ranked_ids() {
    let ranked: Vec<String> = (1..=7).map(|i| format!("answer-{i}")).collect();
    let prompt = grading_user_prompt(&case("how do refunds work"), &ranked, None, Vec::new());
    let expected: Vec<String> = (1..=5).map(|i| format!("answer-{i}")).collect();
    assert_eq!(ranked_ids_of(&prompt), expected);
    let short = vec!["only".to_string()];
    let prompt = grading_user_prompt(&case("q"), &short, None, Vec::new());
    assert_eq!(ranked_ids_of(&prompt), vec!["only".to_string()]);
}
