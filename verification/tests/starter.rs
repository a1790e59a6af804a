use ansorum::cli::InitStarter;
use ansorum::starter::{
    is_listing_quasi_empty, non_empty_directory_message, project_title, starter_config,
    starter_entries, starter_pack_name, starter_pack_source, starter_project_description,
    starter_prompt_version, strip_unc, title_case_slug, StarterEntry,
};

fn paths(entries: &[StarterEntry]) -> Vec<String> {
    entries
        .iter()
        .map(|e| match e {
            StarterEntry::Directory(p) => format!("{p}/"),
            StarterEntry::File(p, _) => p.clone(),
        })
        .collect()
}

fn content<'a>(entries: &'a [StarterEntry], path: &str) -> &'a str {
    entries
        .iter()
        .find_map(|e| match e {
            StarterEntry::File(p, c) if p == path => Some(c.as_str()),
            _ => None,
        })
        .expect("file planned")
}

#[test]
fn project_title_uses_directory_name() {
    assert_eq!(project_title(Some("customer-answers"), None), "Customer Answers");
    assert_eq!(title_case_slug("internal_support"), "Internal Support");
}

#[test]
fn project_title_falls_back() {
    assert_eq!(project_title(Some("."), Some("my-site".to_string())), "My Site");
    assert_eq!(project_title(None, None), "Ansorum Answers");
    assert_eq!(title_case_slug("--__--"), "Ansorum Answers");
    assert_eq!(title_case_slug("API v2.docs"), "Api V2 Docs");
}

#[test]
fn unc_prefix_is_stripped() {
    assert_eq!(strip_unc("\\\\?\\C:\\Users\\site"), "C:\\Users\\site");
    assert_eq!(strip_unc("/tmp/new_project1"), "/tmp/new_project1");
}

#[test]
fn starter_settings_depend_on_the_starter() {
    assert_eq!(starter_pack_name(InitStarter::AnswerFirst), "billing");
    assert_eq!(
        starter_pack_source(InitStarter::AiReferenceLayer),
        "collections/packs/reference-layer.toml"
    );
    assert_eq!(starter_prompt_version(InitStarter::AiReferenceLayer), "ai-reference-layer-v1");
    assert_eq!(
        starter_project_description(InitStarter::AnswerFirst),
        "Starter Ansorum project for an answer-first knowledge corpus."
    );
}

#[test]
fn populate_existing_directory() {
    let config = starter_config("https://example.com", "Test Existing Dir", InitStarter::AnswerFirst);
    let entries = starter_entries("Test Existing Dir", &config, InitStarter::AnswerFirst);
    let planned = paths(&entries);
    for p in [
        "config.toml",
        "README.md",
        "collections/packs/billing.toml",
        "templates/base.html",
        "templates/macros.html",
        "templates/index.html",
        "templates/page.html",
        "content/refunds.md",
        "content/_index.md",
        "content/cancel.md",
        "content/internal-playbook.md",
        "content/refunds.schema.json",
        "eval/fixtures.yaml",
        "static/",
        "static/site.css",
        "content/",
    ] {
        assert!(planned.iter().any(|x| x == p), "missing {p}");
    }
    assert!(content(&entries, "config.toml").contains("[ansorum.redirects]"));
    assert!(content(&entries, "config.toml").contains("generate_sitemap = true"));
    assert!(content(&entries, "templates/base.html").contains("answers.json"));
    assert!(content(&entries, "templates/macros.html").contains("machine_markdown_url"));
    assert!(content(&entries, "static/site.css").contains("--paper"));
    assert!(content(&entries, "eval/fixtures.yaml").contains("expected_ids"));
}

#[test]
fn populate_ai_reference_layer_directory() {
    let config = starter_config("https://example.com", "AI Reference Layer", InitStarter::AiReferenceLayer);
    let entries = starter_entries("AI Reference Layer", &config, InitStarter::AiReferenceLayer);
    let planned = paths(&entries);
    for p in [
        "collections/packs/reference-layer.toml",
        "content/definitions/ai-brand-alignment.md",
        "content/playbooks/improve-ai-citations.md",
        "content/methodology/reference-layer-methodology.md",
        "content/metrics/citation-coverage.md",
        "content/comparisons/ai-reference-layer-vs-docs-portal.md",
        "content/case-studies/billing-reference-case-study.md",
    ] {
        assert!(planned.iter().any(|x| x == p), "missing {p}");
    }
    assert!(content(&entries, "README.md").contains("ai-reference-layer"));
    assert!(content(&entries, "content/metrics/_index.md").contains("Metrics"));
}

#[test]
fn starter_config_fills_placeholders() {
    let config = starter_config("https://docs.test", "Docs", InitStarter::AnswerFirst);
    assert!(config.starts_with("base_url = \"https://docs.test\"\ntitle = \"Docs\"\n"));
    assert!(config.contains("name = \"billing\""));
    assert!(config.contains("prompt_version = \"starter-v1\""));
    assert!(!config.contains('%'));
    let entries = starter_entries("Docs", &config, InitStarter::AnswerFirst);
    assert!(content(&entries, "README.md").starts_with("# Docs\n"));
    assert_eq!(content(&entries, "config.toml"), config);
}

#[test]
fn quasi_empty_listings_hold_only_hidden_entries() {
    assert!(is_listing_quasi_empty(&[]));
    assert!(is_listing_quasi_empty(&[Some(".git".to_string())]));
    assert!(!is_listing_quasi_empty(&[Some(".git".to_string()), Some("content".to_string())]));
    assert!(!is_listing_quasi_empty(&[None]));
}

#[test]
fn non_empty_directories_are_named() {
    assert_eq!(
        non_empty_directory_message("."),
        "The current directory is not an empty folder (hidden files are ignored)."
    );
    assert_eq!(
        non_empty_directory_message("site"),
        "`site` is not an empty folder (hidden files are ignored)."
    );
}
