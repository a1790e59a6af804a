use ansorum::answer::{
    AiVisibility, AnswerAudience, AnswerIntent, AnswerVisibility, LlmsPriority, TokenBudget,
};
use ansorum::front_matter::{non_empty_vec, optional_string, required_string, RawAnswerFrontMatter};
use ansorum::page_front_matter::{PageFrontMatter, PageFrontMatterRaw};

fn full_raw() -> PageFrontMatterRaw {
    let mut raw = PageFrontMatterRaw::default();
    raw.title = Some("Refund policy".to_string());
    raw.id = Some("top-level".to_string());
    raw.summary = Some("Top level summary".to_string());
    raw.canonical_questions = vec!["how do refunds work".to_string()];
    raw.intent = Some(AnswerIntent::Policy);
    raw.entity = Some("billing".to_string());
    raw.audience = Some(AnswerAudience::Customer);
    raw.visibility = Some(AnswerVisibility::Public);
    raw.ai_visibility = Some(AiVisibility::Public);
    raw.llms_priority = Some(LlmsPriority::Core);
    raw.token_budget = Some(TokenBudget::Medium);
    raw.aliases = vec!["top alias".to_string()];
    raw
}

fn legacy_answer() -> RawAnswerFrontMatter {
    let mut a = RawAnswerFrontMatter::default();
    a.id = Some("legacy".to_string());
    a.summary = Some("Legacy summary".to_string());
    a.canonical_questions = vec!["legacy question".to_string()];
    a.intent = Some(AnswerIntent::Faq);
    a.entity = Some("support".to_string());
    a.audience = Some(AnswerAudience::Prospect);
    a.visibility = Some(AnswerVisibility::Internal);
    a.ai_visibility = Some(AiVisibility::Hidden);
    a.llms_priority = Some(LlmsPriority::Optional);
    a.token_budget = Some(TokenBudget::Small);
    a.aliases = vec!["legacy alias".to_string()];
    a
}

#[test]
fn keeps_page_defaults_when_answer_fields_are_absent() {
    let res =
        PageFrontMatter::parse(PageFrontMatterRaw::default(), RawAnswerFrontMatter::default())
            .unwrap();
    assert!(res.render);
    assert!(res.in_search_index);
    assert!(res.answer.is_none());
}

#[test]
fn first_class_answer_fields_override_extra_answer_values() {
    let res = PageFrontMatter::parse(full_raw(), legacy_answer()).unwrap();
    let answer = res.answer.unwrap();
    assert_eq!(answer.id, "top-level");
    assert_eq!(answer.summary, "Top level summary");
    assert_eq!(answer.aliases, vec!["top alias".to_string()]);
}

#[test]
fn errors_when_answer_missing_required_fields() {
    let mut raw = PageFrontMatterRaw::default();
    raw.title = Some("Refund policy".to_string());
    raw.intent = Some(AnswerIntent::Policy);
    let res = PageFrontMatter::parse(raw, RawAnswerFrontMatter::default());
    assert!(res.is_err());
    assert_eq!(res.unwrap_err(), "An answer page requires `id`");
}

#[test]
fn promotes_extra_answer_front_matter() {
    let mut raw = PageFrontMatterRaw::default();
    raw.title = Some("Refund policy".to_string());
    let mut extra = legacy_answer();
    extra.visibility = Some(AnswerVisibility::Public);
    extra.ai_visibility = Some(AiVisibility::SummaryOnly);
    let res = PageFrontMatter::parse(raw, extra).unwrap();
    let answer = res.answer.unwrap();
    assert_eq!(answer.id, "legacy");
    assert_eq!(answer.ai_visibility, AiVisibility::SummaryOnly);
    assert_eq!(answer.aliases, vec!["legacy alias".to_string()]);
}

#[test]
fn page_checks_run_in_order() {
    let mut raw = PageFrontMatterRaw::default();
    raw.slug = Some(String::new());
    assert_eq!(
        PageFrontMatter::parse(raw, RawAnswerFrontMatter::default()).unwrap_err(),
        "`slug` can't be empty if present"
    );
    let mut raw = PageFrontMatterRaw::default();
    raw.path = Some(String::new());
    assert_eq!(
        PageFrontMatter::parse(raw, RawAnswerFrontMatter::default()).unwrap_err(),
        "`path` can't be empty if present"
    );
    let mut raw = PageFrontMatterRaw::default();
    raw.taxonomies = vec![("tags".to_string(), vec!["ok".to_string(), "  ".to_string()])];
    assert_eq!(
        PageFrontMatter::parse(raw, RawAnswerFrontMatter::default()).unwrap_err(),
        "A taxonomy term cannot be an empty string"
    );
    let mut raw = PageFrontMatterRaw::default();
    raw.date = Some("yesterday".to_string());
    assert_eq!(
        PageFrontMatter::parse(raw, RawAnswerFrontMatter::default()).unwrap_err(),
        "`date` could not be parsed: yesterday."
    );
}

#[test]
fn dates_are_read_in_three_forms() {
    let tuple_of = |date: &str| {
        let mut f = PageFrontMatter::default();
        f.date = Some(date.to_string());
        f.date_to_datetime();
        f.datetime_tuple
    };
    assert_eq!(tuple_of("2002-10-02T15:00:00Z"), Some((2002, 10, 2)));
    assert_eq!(tuple_of("2002-10-02T15:00:00"), Some((2002, 10, 2)));
    assert_eq!(tuple_of("2016-10-10"), Some((2016, 10, 10)));
    assert_eq!(tuple_of("2002-14-01"), None);
    let mut raw = PageFrontMatterRaw::default();
    raw.date = Some("2016-10-10".to_string());
    raw.updated = Some("2017-01-02T10:00:00+00:00".to_string());
    raw.weight = Some(3);
    let f = PageFrontMatter::parse(raw, RawAnswerFrontMatter::default()).unwrap();
    assert_eq!(f.datetime_tuple, Some((2016, 10, 10)));
    assert_eq!(f.updated_datetime_tuple, Some((2017, 1, 2)));
    assert_eq!(f.weight(), 3);
}

#[test]
fn merge_and_field_checks() {
    let merged = RawAnswerFrontMatter::default().merge(legacy_answer());
    assert_eq!(merged.id.as_deref(), Some("legacy"));
    assert!(merged.has_data());
    assert!(!RawAnswerFrontMatter::default().merge(RawAnswerFrontMatter::default()).has_data());
    assert_eq!(required_string(Some("  id ".to_string()), "id"), Ok("id".to_string()));
    assert_eq!(required_string(None, "id"), Err("An answer page requires `id`".to_string()));
    assert_eq!(optional_string(Some("  ".to_string()), "owner").unwrap_err().contains("owner"), true);
    assert_eq!(
        non_empty_vec(vec!["a".to_string(), " ".to_string()], "related"),
        Err("`related` entries cannot be empty".to_string())
    );
}
