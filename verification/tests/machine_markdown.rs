use ansorum::answer::{
    AiVisibility, AnswerAudience, AnswerFrontMatter, AnswerIntent, AnswerVisibility, LlmsPriority,
    TokenBudget,
};
use ansorum::content_file::{
    answer_title, lacks_sort_key, machine_markdown, page_path, split_front_matter, FrontMatterKind,
};
use ansorum::audit::{audit_library, CalendarDate};
use ansorum::config::Packs;
use ansorum::corpus::AnswerCorpus;
use ansorum::json::Json;
use ansorum::library::{Library, Page};
use ansorum::llms::{build_outputs, SiteSettings, SlugifyStrategy};

fn strings(items: &[&str]) -> Vec<String> {
    items.iter().map(|s| s.to_string()).collect()
}

fn taxes() -> AnswerFrontMatter {
    AnswerFrontMatter {
        id: "tax-exemption".to_string(),
        summary: "How tax is calculated, when exemption certificates apply, and what changes on future invoices."
            .to_string(),
        canonical_questions: strings(&[
            "why was i charged tax",
            "vat invoice",
            "how do i add a tax exemption certificate",
        ]),
        intent: AnswerIntent::Policy,
        entity: "billing".to_string(),
        audience: AnswerAudience::Customer,
        related: strings(&["invoice-download", "refunds-policy"]),
        external_refs: strings(&["https://example.com/tax"]),
        schema_type: Some("FAQPage".to_string()),
        review_by: Some("2026-09-01".to_string()),
        priority: None,
        visibility: AnswerVisibility::Public,
        ai_visibility: AiVisibility::Public,
        llms_priority: LlmsPriority::Optional,
        token_budget: TokenBudget::Medium,
        aliases: strings(&["sales tax", "vat", "tax certificate"]),
        ai_extra: None,
        last_reviewed_by: None,
        owner: None,
        confidence_notes: None,
    }
}

fn front_matter_of(markdown: &str) -> &str {
    markdown
        .strip_prefix("---\n")
        .and_then(|rest| rest.split_once("\n---\n").map(|(front_matter, _)| front_matter))
        .expect("machine markdown starts with a front matter")
}

#[test]
fn machine_markdown_front_matter_matches_golden_output() {
    let markdown = machine_markdown(
        &taxes(),
        "Sales tax, VAT, and tax exemption",
        "https://answers.example.com/taxes/",
        "Tax is calculated from the sold-to address.\n",
    )
    .expect("public answer has machine markdown");
    let expected = "---\n\
id: tax-exemption\n\
canonical_url: https://answers.example.com/taxes/\n\
visibility: public\n\
ai_visibility: public\n\
intent: policy\n\
entity: billing\n\
audience: customer\n\
llms_priority: optional\n\
token_budget: medium\n\
canonical_questions:\n\
- why was i charged tax\n\
- vat invoice\n\
- how do i add a tax exemption certificate\n\
retrieval_aliases:\n\
- sales tax\n\
- vat\n\
- tax certificate\n\
related:\n\
- invoice-download\n\
- refunds-policy\n\
---\n\
\n\
# Sales tax, VAT, and tax exemption\n\
\n\
How tax is calculated, when exemption certificates apply, and what changes on future invoices.\n\
\n\
Tax is calculated from the sold-to address.\n";
    assert_eq!(markdown, expected);
}

#[test]
fn machine_markdown_front_matter_parses_back_with_special_characters() {
    let mut answer = taxes();
    answer.id = "refunds-policy".to_string();
    answer.entity = "billing:core".to_string();
    answer.summary = "First line:\n\"Quoted\" details.".to_string();
    answer.canonical_questions = strings(&["how do refunds: work?", "can i get a \"refund\"?"]);
    answer.aliases = strings(&["refund:policy", "line one\nline two"]);
    let markdown = machine_markdown(
        &answer,
        "Billing: \"Refunds\"",
        "https://answers.example.com/refunds/",
        "Refund details for customers.",
    )
    .expect("public answer has machine markdown");

    let yaml: serde_yaml::Value =
        serde_yaml::from_str(front_matter_of(&markdown)).expect("parse yaml front matter");
    assert_eq!(yaml["entity"].as_str(), Some("billing:core"));
    assert_eq!(yaml["canonical_questions"][0].as_str(), Some("how do refunds: work?"));
    assert_eq!(yaml["canonical_questions"][1].as_str(), Some("can i get a \"refund\"?"));
    assert_eq!(yaml["retrieval_aliases"][0].as_str(), Some("refund:policy"));
    assert_eq!(yaml["retrieval_aliases"][1].as_str(), Some("line one\nline two"));
    assert_eq!(yaml["canonical_url"].as_str(), Some("https://answers.example.com/refunds/"));
    assert!(markdown.contains("\n# Billing: \"Refunds\"\n"));
}

#[test]
fn machine_markdown_quotes_scalars_yaml_would_misread() {
    let mut answer = taxes();
    answer.entity = "Yes".to_string();
    answer.aliases = strings(&["2026", "null", "tab\there", "é accent", "trailing "]);
    answer.related = Vec::new();
    let markdown = machine_markdown(&answer, "Taxes", "https://example.com/taxes/", "Body")
        .expect("public answer has machine markdown");
    let front = front_matter_of(&markdown);
    assert!(front.contains("entity: \"Yes\"\n"));
    assert!(front.contains("- \"2026\"\n"));
    assert!(front.contains("- \"null\"\n"));
    assert!(front.contains("- \"tab\\there\"\n"));
    assert!(front.contains("related: []"));
    let yaml: serde_yaml::Value = serde_yaml::from_str(front).expect("parse yaml front matter");
    assert_eq!(yaml["entity"].as_str(), Some("Yes"));
    assert_eq!(yaml["retrieval_aliases"][0].as_str(), Some("2026"));
    assert_eq!(yaml["retrieval_aliases"][1].as_str(), Some("null"));
    assert_eq!(yaml["retrieval_aliases"][2].as_str(), Some("tab\there"));
    assert_eq!(yaml["retrieval_aliases"][3].as_str(), Some("é accent"));
    assert_eq!(yaml["retrieval_aliases"][4].as_str(), Some("trailing "));
    assert_eq!(yaml["related"].as_sequence().map(|s| s.len()), Some(0));
}

#[test]
fn summary_only_machine_markdown_points_to_the_canonical_page() {
    let mut answer = taxes();
    answer.ai_visibility = AiVisibility::SummaryOnly;
    let markdown = machine_markdown(
        &answer,
        "Cancel a subscription",
        "https://answers.example.com/cancel/",
        "Cancellation details for customers.",
    )
    .expect("summary-only answer has machine markdown");
    assert!(markdown.contains("ai_visibility: summary_only\n"));
    assert!(markdown.ends_with("\n\nCanonical page: <https://answers.example.com/cancel/>\n"));
    assert!(!markdown.contains("Cancellation details for customers."));
}

#[test]
fn hidden_and_non_public_answers_have_no_machine_markdown() {
    let mut hidden = taxes();
    hidden.ai_visibility = AiVisibility::Hidden;
    assert_eq!(machine_markdown(&hidden, "T", "https://example.com/t/", "Body"), None);
    let mut internal = taxes();
    internal.visibility = AnswerVisibility::Internal;
    assert_eq!(machine_markdown(&internal, "T", "https://example.com/t/", "Body"), None);
}

#[test]
fn answer_title_prefers_a_non_blank_title() {
    let answer = taxes();
    assert_eq!(answer_title(Some("Taxes"), Some(&answer)), "Taxes");
    assert_eq!(answer_title(Some("   "), Some(&answer)), "why was i charged tax");
    assert_eq!(answer_title(None, Some(&answer)), "why was i charged tax");
    assert_eq!(answer_title(Some("  "), None), "  ");
    assert_eq!(answer_title(None, None), "");
    let mut no_questions = taxes();
    no_questions.canonical_questions = Vec::new();
    assert_eq!(answer_title(None, Some(&no_questions)), "");
}

#[test]
fn page_path_uses_the_path_setting_or_the_slugified_stem() {
    assert_eq!(page_path(Some("/legacy/refunds/"), None, "refunds", "/", SlugifyStrategy::On), "/legacy/refunds/");
    assert_eq!(page_path(Some("faq"), Some("ignored"), "refunds", "/billing/", SlugifyStrategy::On), "/faq/");
    assert_eq!(page_path(None, None, "Refund Policy", "/billing/", SlugifyStrategy::On), "/billing/refund-policy/");
    assert_eq!(page_path(None, Some("My Slug"), "refunds", "/", SlugifyStrategy::Off), "/My Slug/");
}

#[test]
fn pages_without_the_section_sort_key_are_flagged() {
    assert!(lacks_sort_key(Some("date"), false, true));
    assert!(!lacks_sort_key(Some("date"), true, false));
    assert!(lacks_sort_key(Some("weight"), true, false));
    assert!(!lacks_sort_key(Some("title"), false, false));
    assert!(!lacks_sort_key(None, false, false));
}

#[test]
fn splits_toml_and_yaml_front_matter() {
    let (kind, front, body) =
        split_front_matter("+++\ntitle = \"A\"\n+++\nBody text").expect("toml front matter");
    assert_eq!(kind, FrontMatterKind::Toml);
    assert_eq!(front, "\ntitle = \"A\"\n");
    assert_eq!(body, "Body text");
    let (kind, _, _) = split_front_matter("---\ntitle: A\n---\n").expect("yaml front matter");
    assert_eq!(kind, FrontMatterKind::Yaml);
    assert!(split_front_matter("no front matter").is_none());
}

fn page_with_markdown(slug: &str, title: &str, answer: AnswerFrontMatter) -> Page {
    let permalink = format!("https://answers.example.com/{slug}/");
    let markdown = machine_markdown(&answer, title, &permalink, "Private body text.");
    Page {
        source_path: format!("content/{slug}.md"),
        permalink,
        path: format!("/{slug}/"),
        lang: "en".to_string(),
        components: vec![slug.to_string()],
        ancestors: Vec::new(),
        answer_title: title.to_string(),
        description: None,
        date: None,
        updated: None,
        summary: None,
        answer: Some(answer),
        structured_data_sidecar: None,
        canonical_machine_markdown: markdown,
    }
}

#[test]
fn emitted_machine_markdown_passes_the_audit_leak_checks() {
    let answer = |id: &str| {
        let mut a = taxes();
        a.id = id.to_string();
        a.canonical_questions = vec![format!("what is {id}")];
        a.related = Vec::new();
        a.aliases = vec![format!("{id} alias")];
        a
    };
    let mut summary_only = answer("summary-only");
    summary_only.ai_visibility = AiVisibility::SummaryOnly;
    let mut hidden = answer("hidden");
    hidden.ai_visibility = AiVisibility::Hidden;
    let mut internal = answer("internal");
    internal.visibility = AnswerVisibility::Internal;
    let library = Library {
        pages: vec![
            page_with_markdown("summary-only", "Summary only", summary_only),
            page_with_markdown("hidden", "Hidden", hidden),
            page_with_markdown("internal", "Internal", internal),
        ],
        sections: Vec::new(),
        orphan_pages: Vec::new(),
    };
    assert!(library.is_well_formed());
    let answers = AnswerCorpus::from_library(&library).expect("valid corpus");
    let report = audit_library(&library, &answers, CalendarDate { year: 2026, month: 3, day: 18 });
    let codes: Vec<(&str, &str)> = report
        .findings
        .iter()
        .map(|f| (f.answer_id.as_deref().unwrap_or(""), f.code.as_str()))
        .collect();
    assert!(!codes.iter().any(|(_, c)| *c == "summary_only_leak" || *c == "hidden_content_leak"));
    assert!(codes.contains(&("internal", "missing_machine_output")));
    assert!(!codes.contains(&("summary-only", "missing_machine_output")));
    assert!(!codes.contains(&("hidden", "missing_machine_output")));
}

fn json_mentions(j: &Json, needle: &str) -> bool {
    match j {
        Json::Str(s) => s == needle,
        Json::Array(items) => items.iter().any(|i| json_mentions(i, needle)),
        Json::Object(entries) => entries.iter().any(|(_, v)| json_mentions(v, needle)),
        _ => false,
    }
}

#[test]
fn filters_non_public_answers_from_machine_outputs() {
    let answer = |id: &str, visibility: AnswerVisibility, ai: AiVisibility, related: &[&str]| {
        let mut a = taxes();
        a.id = id.to_string();
        a.canonical_questions = vec![format!("what is {id}")];
        a.aliases = Vec::new();
        a.related = strings(related);
        a.visibility = visibility;
        a.ai_visibility = ai;
        a.llms_priority = LlmsPriority::Core;
        a
    };
    let library = Library {
        pages: vec![
            page_with_markdown(
                "public",
                "Billing overview",
                answer(
                    "billing-overview",
                    AnswerVisibility::Public,
                    AiVisibility::Public,
                    &["internal-only", "private-playbook"],
                ),
            ),
            page_with_markdown(
                "internal",
                "Internal only",
                answer("internal-only", AnswerVisibility::Internal, AiVisibility::Public, &[]),
            ),
            page_with_markdown(
                "private",
                "Private playbook",
                answer("private-playbook", AnswerVisibility::Private, AiVisibility::Hidden, &[]),
            ),
        ],
        sections: Vec::new(),
        orphan_pages: Vec::new(),
    };
    assert!(library.pages[0].canonical_machine_markdown.is_some());
    assert!(library.pages[1].canonical_machine_markdown.is_none());
    assert!(library.pages[2].canonical_machine_markdown.is_none());

    assert!(library.is_well_formed());
    let answers = AnswerCorpus::from_library(&library).expect("valid corpus");
    let index = answers.to_json();
    assert!(json_mentions(&index, "billing-overview"));
    assert!(!json_mentions(&index, "internal-only"));
    assert!(!json_mentions(&index, "private-playbook"));

    let settings = SiteSettings {
        title: Some("Answers".to_string()),
        description: None,
        base_url: "https://answers.example.com".to_string(),
        feed_filenames: Vec::new(),
        slugify_paths: SlugifyStrategy::On,
    };
    let packs = Packs { auto_entity_packs: true, auto_audience_packs: false, curated: Vec::new() };
    let out = build_outputs(&settings, &packs, &Vec::new(), &None, &answers).expect("outputs");
    assert!(!out.llms_txt.contains("Internal only"));
    assert!(!out.llms_txt.contains("Private playbook"));
    let billing = out.packs.iter().find(|p| p.path == "billing").expect("billing pack");
    assert!(!billing.llms_txt.contains("Internal only"));
    assert!(!billing.llms_txt.contains("Private playbook"));
    assert!(!json_mentions(&billing.answers_json, "internal-only"));
    assert!(!json_mentions(&billing.answers_json, "private-playbook"));
    assert!(!out.packs.iter().any(|p| p.path == "internal"));

    let report = audit_library(&library, &answers, CalendarDate { year: 2026, month: 3, day: 18 });
    assert!(report.has_errors());
    assert!(report.findings.iter().any(|f| f.code == "visibility_leak"));
    assert!(report.findings.iter().any(|f| f.code == "related_visibility_leak"));
}
