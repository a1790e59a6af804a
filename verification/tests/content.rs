use ansorum::answer::{
    AiVisibility, AnswerAudience, AnswerFrontMatter, AnswerIntent, AnswerVisibility, LlmsPriority,
    TokenBudget,
};
use ansorum::answers::{
    audience_key, estimate_tokens, intent_key, markdown_url_from_page, token_budget_limit,
    AnswerRecord,
};
use ansorum::audit::{audit_library, AuditSeverity, CalendarDate};
use ansorum::audit_output::{
    apply_audit_fail_on, audit_format_name, audit_outcome, audit_report_diagnostics,
    print_human_report,
};
use ansorum::cli::{AuditFormat, FailOn};
use ansorum::config::{CuratedPack, Packs};
use ansorum::corpus::AnswerCorpus;
use ansorum::diagnostics::DiagnosticSeverity;
use ansorum::eval::{
    evaluate_case, machine_markdown_for, rank_answers, scores_fit_check, EvalCase,
};
use ansorum::json::Json;
use ansorum::library::{Library, Page, Section};
use ansorum::llms::{
    build_outputs, title_case, CuratedPackFile, LoadedPack, SiteSettings, SlugifyStrategy,
};
use ansorum::messages::{
    collect_ignored_page_diagnostics, collect_orphan_page_diagnostics,
    collect_site_content_summary, diagnostic_lines, notify_site_size, print_check_success,
    print_command_failure, warn_about_ignored_pages, LogLevel,
};
use ansorum::report::ReportOutcome;
use ansorum::site_graph::{
    site_structured_data_for_page, site_structured_data_for_section, SchemaSettings,
};
use ansorum::structured::structured_data_for_page;

fn answer(id: &str, entity: &str, questions: &[&str], related: &[&str]) -> AnswerFrontMatter {
    AnswerFrontMatter {
        id: id.to_string(),
        summary: format!("Summary of {id}."),
        canonical_questions: questions.iter().map(|q| q.to_string()).collect(),
        intent: AnswerIntent::Policy,
        entity: entity.to_string(),
        audience: AnswerAudience::Customer,
        related: related.iter().map(|r| r.to_string()).collect(),
        external_refs: Vec::new(),
        schema_type: None,
        review_by: Some("2027-01-01".to_string()),
        priority: None,
        visibility: AnswerVisibility::Public,
        ai_visibility: AiVisibility::Public,
        llms_priority: LlmsPriority::Core,
        token_budget: TokenBudget::Medium,
        aliases: Vec::new(),
        ai_extra: None,
        last_reviewed_by: None,
        owner: Some("Billing".to_string()),
        confidence_notes: None,
    }
}

fn page(slug: &str, title: &str, answer: Option<AnswerFrontMatter>) -> Page {
    Page {
        source_path: format!("content/{slug}.md"),
        permalink: format!("https://answers.example.com/{slug}/"),
        path: format!("/{slug}/"),
        lang: "en".to_string(),
        components: vec![slug.to_string()],
        ancestors: vec!["content/_index.md".to_string()],
        answer_title: title.to_string(),
        description: None,
        date: None,
        updated: None,
        summary: None,
        answer,
        structured_data_sidecar: None,
        canonical_machine_markdown: Some(format!("# {title}\n\nDetails about {slug}.\n")),
    }
}

fn home() -> Section {
    Section {
        source_path: "content/_index.md".to_string(),
        path: "/".to_string(),
        permalink: "https://answers.example.com/".to_string(),
        lang: "en".to_string(),
        title: Some("Home".to_string()),
        description: None,
        ancestors: Vec::new(),
        ignored_pages: Vec::new(),
    }
}

fn library(pages: Vec<Page>) -> Library {
    Library { pages, sections: vec![home()], orphan_pages: Vec::new() }
}

fn reference_library() -> Library {
    let mut internal = answer("internal-escalation", "support", &["how do agents escalate"], &[]);
    internal.visibility = AnswerVisibility::Internal;
    let mut cancel =
        answer("cancel-subscription", "billing", &["how do i cancel my subscription"], &["refunds-policy"]);
    cancel.ai_visibility = AiVisibility::SummaryOnly;
    cancel.llms_priority = LlmsPriority::Optional;
    library(vec![
        page(
            "refunds",
            "Refund policy",
            Some(answer(
                "refunds-policy",
                "billing",
                &["how do refunds work", "can i get a refund"],
                &["cancel-subscription", "internal-escalation"],
            )),
        ),
        page("cancel", "Cancel a subscription", Some(cancel)),
        page("internal", "Internal escalation", Some(internal)),
        page("about", "About", None),
    ])
}

fn site() -> SiteSettings {
    SiteSettings {
        title: Some("Acme Billing Answers".to_string()),
        description: Some("Billing answers.".to_string()),
        base_url: "https://answers.example.com".to_string(),
        feed_filenames: Vec::new(),
        slugify_paths: SlugifyStrategy::On,
    }
}

fn corpus(lib: &Library) -> AnswerCorpus {
    assert!(lib.is_well_formed());
    AnswerCorpus::from_library(lib).expect("valid corpus")
}

fn keys(j: &Json) -> Vec<String> {
    match j {
        Json::Object(es) => es.iter().map(|(k, _)| k.clone()).collect(),
        _ => Vec::new(),
    }
}

fn field<'a>(j: &'a Json, key: &str) -> Option<&'a Json> {
    match j {
        Json::Object(es) => es.iter().find(|(k, _)| k == key).map(|(_, v)| v),
        _ => None,
    }
}

fn text(j: Option<&Json>) -> Option<String> {
    match j {
        Some(Json::Str(s)) => Some(s.clone()),
        _ => None,
    }
}

#[test]
fn errors_on_duplicate_answer_ids() {
    let lib = library(vec![
        page("one", "One", Some(answer("duplicate-answer", "billing", &["first question"], &[]))),
        page("two", "Two", Some(answer("duplicate-answer", "billing", &["second question"], &[]))),
    ]);
    let err = AnswerCorpus::from_library(&lib).err().expect("duplicate ids fail");
    assert!(err.contains("Duplicate answer id `duplicate-answer`"));
}

#[test]
fn errors_on_duplicate_canonical_questions() {
    let lib = library(vec![
        page("one", "One", Some(answer("one", "billing", &["how do refunds work"], &[]))),
        page("two", "Two", Some(answer("two", "billing", &["How do  Refunds work"], &[]))),
    ]);
    let err = AnswerCorpus::from_library(&lib).err().expect("duplicate questions fail");
    assert!(err.contains("Duplicate canonical question `how do refunds work`"));
}

#[test]
fn errors_on_unknown_related_answer_ids() {
    let lib = library(vec![page(
        "one",
        "One",
        Some(answer("one", "billing", &["q"], &["missing-answer"])),
    )]);
    let err = AnswerCorpus::from_library(&lib).err().expect("unknown related fails");
    assert!(err.contains("`related` references unknown answer id `missing-answer`"));
    assert!(err.starts_with("Answer validation failed:\n- "));
}

#[test]
fn extracts_normalized_answer_records() {
    let lib = reference_library();
    let answers = corpus(&lib);
    assert_eq!(answers.len(), 3);
    let refunds = answers.get("refunds-policy").expect("refunds");
    assert_eq!(refunds.title, "Refund policy");
    assert_eq!(refunds.canonical_url, "https://answers.example.com/refunds/");
    assert_eq!(refunds.markdown_url, "https://answers.example.com/refunds.md");
    let ids: Vec<&str> = answers.iter().iter().map(|r| r.id.as_str()).collect();
    assert_eq!(ids, vec!["cancel-subscription", "internal-escalation", "refunds-policy"]);
    let billing: Vec<&str> = answers.same_entity("billing").iter().map(|r| r.id.as_str()).collect();
    assert_eq!(billing, vec!["cancel-subscription", "refunds-policy"]);
    let related: Vec<&str> =
        answers.related_to("refunds-policy").iter().map(|r| r.id.as_str()).collect();
    assert_eq!(related, vec!["cancel-subscription", "internal-escalation"]);
    assert!(AnswerRecord::from_page(&lib.pages[3]).is_none());
    assert_eq!(markdown_url_from_page(&lib.pages[0]), "https://answers.example.com/refunds.md");
}

#[test]
fn machine_index_lists_only_visible_answers() {
    let lib = reference_library();
    let answers = corpus(&lib);
    let index = answers.to_json();
    assert_eq!(keys(&index), vec!["version", "answers"]);
    let list = match field(&index, "answers") {
        Some(Json::Array(a)) => a.clone(),
        _ => panic!("answers array"),
    };
    let ids: Vec<String> = list.iter().map(|e| text(field(e, "id")).unwrap()).collect();
    assert_eq!(ids, vec!["cancel-subscription", "refunds-policy"]);
    match field(&list[1], "related") {
        Some(Json::Array(r)) => {
            assert_eq!(r.len(), 1);
            assert_eq!(text(r.first()), Some("cancel-subscription".to_string()));
        }
        _ => panic!("related array"),
    }
    assert_eq!(text(field(&list[0], "ai_visibility")), Some("summary_only".to_string()));
    assert_eq!(text(field(&list[1], "review_by")), Some("2027-01-01".to_string()));
    assert!(field(&list[1], "last_modified").is_none());
}

#[test]
fn llms_exports_list_visible_answers() {
    let lib = reference_library();
    let answers = corpus(&lib);
    let packs = Packs { auto_entity_packs: true, auto_audience_packs: true, curated: Vec::new() };
    let out = build_outputs(&site(), &packs, &Vec::new(), &None, &answers).expect("outputs");
    assert!(out.llms_txt.starts_with("# Acme Billing Answers\n\n> Billing answers.\n\n"));
    assert!(out.llms_txt.contains(
        "## Core Answers\n\n- [Refund policy](https://answers.example.com/refunds.md): Summary of refunds-policy.\n"
    ));
    assert!(out.llms_txt.contains(
        "## Optional\n\n- [Cancel a subscription](https://answers.example.com/cancel.md): Summary of cancel-subscription.\n"
    ));
    assert!(out.llms_txt.contains(
        "## Scoped Packs\n\n- [billing answers](https://answers.example.com/billing/llms.txt/): Scoped pack `billing`\n"
    ));
    assert!(out.llms_txt.contains(
        "- [Customer answers](https://answers.example.com/customer/llms.txt/): Scoped pack `customer`\n"
    ));
    assert!(!out.llms_txt.contains("Internal escalation"));

    assert!(out.llms_full_txt.starts_with("# Acme Billing Answers Full Export\n\n> Billing answers.\n\n"));
    assert!(out.llms_full_txt.contains(
        "## Core Answers\n\n### [Refund policy](https://answers.example.com/refunds.md)\n\n# Refund policy\n\nDetails about refunds.\n"
    ));
    assert!(out.llms_full_txt.contains(
        "## Optional\n\n### [Cancel a subscription](https://answers.example.com/cancel.md)\n\n"
    ));
    assert!(!out.llms_full_txt.contains("Internal escalation"));

    let customer = out.packs.iter().find(|p| p.path == "customer").expect("customer pack");
    assert!(customer.llms_txt.contains("> Scoped AI-visible answers for the `customer` audience.\n\n"));
    assert!(customer.llms_txt.contains("## Optional\n\n"));
}

#[test]
fn curated_pack_errors_are_reported() {
    let lib = reference_library();
    let answers = corpus(&lib);
    let packs = Packs {
        auto_entity_packs: false,
        auto_audience_packs: false,
        curated: vec![CuratedPack { name: "billing".to_string(), source: "packs/billing.toml".to_string() }],
    };
    let err = build_outputs(&site(), &packs, &Vec::new(), &Some("cannot read".to_string()), &answers)
        .err()
        .expect("load error surfaces");
    assert_eq!(err, "cannot read");
    assert_eq!(title_case("reference-layer_packs"), "Reference Layer Packs");
}

#[test]
fn audits_freshness_visibility_and_related_links() {
    let mut stale = answer("stale", "billing", &["stale question"], &[]);
    stale.review_by = Some("2020-01-01".to_string());
    stale.priority = Some("high".to_string());
    let mut leak = answer("leaky", "billing", &["leaky question"], &["hidden-one"]);
    leak.review_by = None;
    leak.priority = Some("high".to_string());
    let mut hidden = answer("hidden-one", "billing", &["hidden question"], &["stale"]);
    hidden.visibility = AnswerVisibility::Private;
    let lib = library(vec![
        page("stale", "Stale", Some(stale)),
        page("leaky", "Leaky", Some(leak)),
        page("hidden", "Hidden", Some(hidden)),
    ]);
    let answers = corpus(&lib);
    let today = CalendarDate { year: 2026, month: 3, day: 18 };
    assert!(today.is_well_formed());
    let report = audit_library(&lib, &answers, today);
    let codes: Vec<&str> = report.findings.iter().map(|f| f.code.as_str()).collect();
    assert!(codes.contains(&"missing_related_links"));
    assert!(codes.contains(&"stale_review_by"));
    assert!(codes.contains(&"related_visibility_leak"));
    assert!(codes.contains(&"missing_review_by"));
    let errors = report.findings.iter().filter(|f| f.severity == AuditSeverity::Error).count();
    let warnings = report.findings.iter().filter(|f| f.severity == AuditSeverity::Warn).count();
    assert_eq!(report.summary.errors, errors);
    assert_eq!(report.summary.warnings, warnings);
    let ranks: Vec<u8> = report
        .findings
        .iter()
        .map(|f| match f.severity {
            AuditSeverity::Error => 0,
            AuditSeverity::Warn => 1,
            AuditSeverity::Info => 2,
        })
        .collect();
    let mut sorted = ranks.clone();
    sorted.sort();
    assert_eq!(ranks, sorted);

    let mut diagnostics = audit_report_diagnostics(&report);
    assert_eq!(diagnostics.len(), report.findings.len());
    assert!(diagnostics.iter().all(|d| d.phase.as_deref() == Some("validate")));
    let review = diagnostics.iter().find(|d| d.code == "missing_review_by").unwrap();
    assert_eq!(
        review.suggestion.as_deref(),
        Some("Set `review_by = YYYY-MM-DD` for freshness tracking")
    );
    let exceeded = apply_audit_fail_on(&mut diagnostics, FailOn::Warn);
    assert!(exceeded);
    assert_eq!(diagnostics.last().unwrap().code, "warn_threshold_exceeded");
    assert_eq!(diagnostics.last().unwrap().severity, DiagnosticSeverity::Error);
    assert_eq!(audit_outcome(&report, false), ReportOutcome::Failed);
    assert_eq!(audit_format_name(AuditFormat::JsonStream), "json_stream");
    let lines = print_human_report(&report);
    assert!(lines[0].starts_with("Audit summary: "));
    assert_eq!(lines.len(), report.findings.len() + 1);
}

#[test]
fn clean_audit_reports_no_findings() {
    let mut one = answer("one", "billing", &["first"], &["two"]);
    one.confidence_notes = Some("checked".to_string());
    let mut two = answer("two", "billing", &["second"], &["one"]);
    two.confidence_notes = Some("checked".to_string());
    let lib = library(vec![page("one", "One", Some(one)), page("two", "Two", Some(two))]);
    let answers = corpus(&lib);
    let report = audit_library(&lib, &answers, CalendarDate { year: 2026, month: 3, day: 18 });
    assert_eq!(report.summary.errors, 0);
    let lines = print_human_report(&report);
    if report.findings.is_empty() {
        assert_eq!(lines[1], "No findings.");
    }
    let mut diagnostics = audit_report_diagnostics(&report);
    if report.summary.warnings == 0 {
        assert!(!apply_audit_fail_on(&mut diagnostics, FailOn::Warn));
    }
    assert!(!apply_audit_fail_on(&mut diagnostics, FailOn::Error));
}

#[test]
fn ranks_expected_billing_answers_first() {
    let lib = reference_library();
    let answers = corpus(&lib);
    assert!(scores_fit_check("can i get a refund", &answers));
    let ranked = rank_answers("can i get a refund", &answers);
    assert_eq!(ranked[0].id, "refunds-policy");
    assert!(ranked.windows(2).all(|w| w[0].score >= w[1].score));
    let case = EvalCase {
        question: "can i get a refund".to_string(),
        expected_ids: vec!["refunds-policy".to_string()],
        forbidden_ids: vec!["internal-escalation".to_string()],
        required_terms: vec!["details".to_string()],
        rubric_focus: None,
    };
    let (retrieval, selection) = evaluate_case(&case, &ranked, &lib);
    assert!(retrieval.passed);
    assert!(selection.passed);
    assert_eq!(selection.selected_id.as_deref(), Some("refunds-policy"));
    assert_eq!(
        machine_markdown_for(&lib, "refunds-policy").as_deref(),
        Some("# Refund policy\n\nDetails about refunds.\n")
    );
}

#[test]
fn answer_keys_and_budgets() {
    assert_eq!(intent_key(&AnswerIntent::Troubleshooting), "troubleshooting");
    assert_eq!(audience_key(&AnswerAudience::Developer), "developer");
    assert_eq!(token_budget_limit(&TokenBudget::Small), 256);
    assert_eq!(estimate_tokens("abcdefgh"), 2);
}

#[test]
fn structured_data_presets_follow_the_answer() {
    let mut faq = answer("refunds-policy", "billing", &["how do refunds work"], &[]);
    faq.schema_type = Some("FAQPage".to_string());
    let p = page("refunds", "Refund policy", Some(faq));
    assert!(p.has_valid_sidecar());
    let out = structured_data_for_page(&p).expect("valid").expect("preset");
    assert_eq!(text(field(&out.json, "@type")), Some("FAQPage".to_string()));
    assert_eq!(text(field(&out.json, "@context")), Some("https://schema.org".to_string()));
    assert!(structured_data_for_page(&page("about", "About", None)).unwrap().is_none());
}

#[test]
fn site_graph_describes_pages_and_sections() {
    let lib = reference_library();
    let schema = SchemaSettings {
        build_search_index: true,
        organization_name: None,
        organization_url: Some("/about/".to_string()),
        organization_logo: None,
        logo: Some("https://cdn.example.com/logo.png".to_string()),
        og_image: None,
        organization_same_as: vec!["https://social.example.com/acme".to_string()],
    };
    let doc = site_structured_data_for_page(&lib.pages[0], &site(), &schema, &lib);
    assert_eq!(keys(&doc), vec!["@context", "@graph"]);
    let graph = match field(&doc, "@graph") {
        Some(Json::Array(g)) => g.clone(),
        _ => panic!("graph"),
    };
    assert_eq!(graph.len(), 4);
    assert_eq!(text(field(&graph[0], "@id")), Some("https://answers.example.com/#website".to_string()));
    assert!(field(&graph[0], "potentialAction").is_some());
    assert_eq!(text(field(&graph[1], "name")), Some("Acme Billing Answers".to_string()));
    assert_eq!(text(field(&graph[1], "url")), Some("https://answers.example.com/about/".to_string()));
    assert_eq!(
        text(field(&graph[2], "@id")),
        Some("https://answers.example.com/refunds/#webpage".to_string())
    );
    assert_eq!(text(field(&graph[2], "description")), Some("Summary of refunds-policy.".to_string()));
    let items = match field(&graph[3], "itemListElement") {
        Some(Json::Array(i)) => i.clone(),
        _ => panic!("breadcrumb"),
    };
    assert_eq!(items.len(), 3);
    match field(&items[2], "position") {
        Some(Json::Number(n)) => assert_eq!(n, "3"),
        _ => panic!("position"),
    }
    let home_doc = site_structured_data_for_section(&lib.sections[0], &site(), &schema, &lib);
    match field(&home_doc, "@graph") {
        Some(Json::Array(g)) => assert_eq!(g.len(), 3),
        _ => panic!("graph"),
    }
}

#[test]
fn site_messages_describe_the_content() {
    let mut lib = reference_library();
    lib.sections.push(Section {
        source_path: "content/blog/_index.md".to_string(),
        path: "/blog/".to_string(),
        permalink: "https://answers.example.com/blog/".to_string(),
        lang: "en".to_string(),
        title: None,
        description: None,
        ancestors: vec!["content/_index.md".to_string()],
        ignored_pages: vec!["content/blog/draft.md".to_string()],
    });
    lib.orphan_pages = vec!["/about/".to_string()];
    let answers = corpus(&lib);
    let summary = collect_site_content_summary(&lib, &answers);
    assert_eq!(summary.pages, 4);
    assert_eq!(summary.sections, 1);
    assert_eq!(summary.orphan_pages, 1);
    assert_eq!(summary.answer_records, 3);
    let ignored = collect_ignored_page_diagnostics(&lib);
    assert_eq!(ignored.len(), 1);
    assert_eq!(ignored[0].code, "ignored_page");
    assert_eq!(ignored[0].path.as_deref(), Some("content/blog/draft.md"));
    let orphans = collect_orphan_page_diagnostics(&lib);
    assert_eq!(orphans[0].code, "orphan_page");
    assert_eq!(orphans[0].severity, DiagnosticSeverity::Warn);
    let lines = notify_site_size(&lib, &answers);
    assert_eq!(lines[0].text, "-> Creating 4 pages (1 orphan) and 1 sections");
    assert_eq!(lines[1].text, "-> Normalized 3 answer record(s)");
    let warn = warn_about_ignored_pages(&lib);
    assert_eq!(warn.len(), 2);
    assert_eq!(warn[1].text, "- content/blog/draft.md");
    assert_eq!(warn[0].level, LogLevel::Warn);
    let check = print_check_success(&summary, &orphans);
    assert_eq!(check[0].text, "-> Site content: 4 pages (1 orphan), 1 sections");
    assert_eq!(
        check[2].text,
        "warn [orphan_page] path=/about/ phase=validate: Page is not linked from any section"
    );
    assert_eq!(
        check[3].text,
        "suggestion: Link the page from a section or mark it intentionally unreachable"
    );
}

#[test]
fn failures_print_their_causes() {
    let failure = ansorum::diagnostics::CommandFailure::new(
        ansorum::diagnostics::Diagnostic::error("boom", "it broke")
            .with_path("/x")
            .with_line(3)
            .with_column(7)
            .with_caused_by(vec!["root cause".to_string()]),
    );
    let lines = print_command_failure("Failed to build the site", &failure);
    let texts: Vec<&str> = lines.iter().map(|l| l.text.as_str()).collect();
    assert_eq!(
        texts,
        vec!["Failed to build the site", "error [boom] path=/x:3:7: it broke", "Reason: root cause"]
    );
    assert!(lines.iter().all(|l| l.level == LogLevel::Error));
    let single = diagnostic_lines(&failure.diagnostics[0]);
    assert_eq!(single.len(), 1);
    assert!(print_command_failure("", &failure)[0].text.starts_with("error [boom]"));
}

fn curated(name: &str, path: &str, answers: &[&str], entities: &[&str]) -> LoadedPack {
    LoadedPack {
        name: name.to_string(),
        path: path.to_string(),
        definition: CuratedPackFile {
            title: None,
            description: None,
            answers: answers.iter().map(|a| a.to_string()).collect(),
            entities: entities.iter().map(|e| e.to_string()).collect(),
            audiences: Vec::new(),
            intents: Vec::new(),
        },
    }
}

#[test]
fn errors_on_conflicting_pack_output_names() {
    let lib = reference_library();
    let answers = corpus(&lib);
    let source = "/home/agent/ansorum/examples/reference-project/collections/packs/billing.toml";
    let packs = Packs {
        auto_entity_packs: false,
        auto_audience_packs: true,
        curated: vec![CuratedPack { name: "customer".to_string(), source: source.to_string() }],
    };
    let loaded = vec![curated("customer", source, &[], &["billing"])];
    let err = build_outputs(&site(), &packs, &loaded, &None, &answers).err().expect("collision");
    assert_eq!(
        err,
        "Duplicate ansorum pack output path `customer` from curated pack `customer` from /home/agent/ansorum/examples/reference-project/collections/packs/billing.toml conflicts with auto audience pack for `customer`"
    );
}

#[test]
fn ignores_empty_curated_pack_collisions() {
    let lib = reference_library();
    let answers = corpus(&lib);
    let packs = Packs {
        auto_entity_packs: false,
        auto_audience_packs: true,
        curated: vec![CuratedPack {
            name: "customer".to_string(),
            source: "hidden-customer.toml".to_string(),
        }],
    };
    let loaded = vec![curated("customer", "hidden-customer.toml", &["internal-escalation"], &[])];
    let out = build_outputs(&site(), &packs, &loaded, &None, &answers).expect("outputs");
    let customer = out.packs.iter().find(|p| p.path == "customer").expect("customer pack");
    assert!(customer.llms_txt.contains("Scoped AI-visible answers for the `customer` audience."));
}

#[test]
fn audits_governance_metadata() {
    let mut unowned = answer("unowned", "billing", &["unowned question"], &[]);
    unowned.owner = Some("   ".to_string());
    unowned.confidence_notes = None;
    let mut governed = answer("governed", "billing", &["governed question"], &[]);
    governed.confidence_notes = Some("Checked against the billing portal".to_string());
    let lib = library(vec![page("unowned", "Unowned", Some(unowned)), page("governed", "Governed", Some(governed))]);
    let answers = corpus(&lib);
    let report = audit_library(&lib, &answers, CalendarDate { year: 2026, month: 3, day: 18 });
    let found: Vec<(&str, &str, AuditSeverity)> = report
        .findings
        .iter()
        .filter(|f| f.code == "missing_owner" || f.code == "missing_confidence_notes")
        .map(|f| (f.answer_id.as_deref().unwrap_or(""), f.code.as_str(), f.severity))
        .collect();
    assert!(found.contains(&("unowned", "missing_owner", AuditSeverity::Warn)));
    assert!(found.contains(&("unowned", "missing_confidence_notes", AuditSeverity::Warn)));
    assert!(!found.iter().any(|(id, _, _)| *id == "governed"));
}

#[test]
fn machine_indexes_fall_back_to_canonical_urls_when_markdown_routes_are_disabled() {
    let mut lib = reference_library();
    for page in lib.pages.iter_mut() {
        page.canonical_machine_markdown = None;
    }
    let answers = corpus(&lib);
    let index = answers.to_json();
    let list = match field(&index, "answers") {
        Some(Json::Array(a)) => a.clone(),
        _ => panic!("answers array"),
    };
    assert_eq!(text(field(&list[0], "markdown_url")), Some("https://answers.example.com/cancel/".to_string()));
    assert_eq!(text(field(&list[1], "markdown_url")), Some("https://answers.example.com/refunds/".to_string()));
    let packs = Packs { auto_entity_packs: false, auto_audience_packs: false, curated: Vec::new() };
    let out = build_outputs(&site(), &packs, &Vec::new(), &None, &answers).expect("outputs");
    assert!(out.llms_txt.contains(
        "- [Refund policy](https://answers.example.com/refunds/): Summary of refunds-policy."
    ));
    assert!(out.llms_full_txt.contains("### [Refund policy](https://answers.example.com/refunds/)"));
    assert!(!out.llms_txt.contains("https://answers.example.com/refunds.md"));
}
