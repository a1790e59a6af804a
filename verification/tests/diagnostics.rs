use ansorum::diagnostics::{CommandFailure, Diagnostic, DiagnosticSeverity, DiagnosticSummary};

#[test]
fn parses_front_matter_enum_failures_into_structured_diagnostics() {
    let message = "Error when parsing front matter of section `/tmp/site/content/refunds.md`";
    let failure = CommandFailure::from_message_with_causes(
        "site_load_failed",
        message,
        "load",
        vec![String::from(
            "TOML parse error at line 18, column 17\n   |\n18 | ai_visibility = \"bad-value\"\n   |                 ^^^^^^^^^^^\nunknown variant `bad-value`, expected one of `public`, `hidden`, `summary_only`\n",
        )],
    );

    assert_eq!(failure.diagnostics[0].code, "frontmatter_invalid_enum");
    assert_eq!(failure.diagnostics[0].path.as_deref(), Some("/tmp/site/content/refunds.md"));
    assert_eq!(failure.diagnostics[0].line, Some(18));
    assert_eq!(failure.diagnostics[0].column, Some(17));
}

#[test]
fn parses_duplicate_answer_id_into_structured_diagnostics() {
    let failure = CommandFailure::from_message_with_causes(
        "site_load_failed",
        "Answer validation failed:\n- Duplicate answer id `duplicate-answer` found in /tmp/site/content/one.md, /tmp/site/content/two.md",
        "load",
        Vec::new(),
    );

    assert_eq!(failure.diagnostics.len(), 1);
    assert_eq!(failure.diagnostics[0].code, "answer_duplicate_id");
    assert_eq!(failure.diagnostics[0].path.as_deref(), Some("/tmp/site/content/one.md"));
    assert_eq!(
        failure.diagnostics[0].related_paths.as_ref().expect("related paths"),
        &vec!["/tmp/site/content/two.md".to_string()]
    );
}

#[test]
fn parses_missing_related_answer_into_structured_diagnostics() {
    let failure = CommandFailure::from_message_with_causes(
        "site_load_failed",
        "Answer validation failed:\n- /tmp/site/content/refunds.md: `related` references unknown answer id `missing-answer`",
        "load",
        Vec::new(),
    );

    assert_eq!(failure.diagnostics[0].code, "answer_related_unknown_id");
    assert_eq!(
        failure.diagnostics[0].message,
        "`related` references unknown answer id `missing-answer`"
    );
    assert_eq!(failure.diagnostics[0].path.as_deref(), Some("/tmp/site/content/refunds.md"));
}

#[test]
fn parses_missing_required_frontmatter_field_into_structured_diagnostics() {
    let failure = CommandFailure::from_message_with_causes(
        "site_load_failed",
        "Error when parsing front matter of section `/tmp/site/content/refunds.md`",
        "load",
        vec!["An answer page requires `ai_visibility`".to_string()],
    );

    assert_eq!(failure.diagnostics[0].code, "frontmatter_missing_required_field");
    assert_eq!(failure.diagnostics[0].message, "Answer front matter requires `ai_visibility`");
}

#[test]
fn parses_template_parse_failures_into_structured_diagnostics() {
    let failure = CommandFailure::from_message_with_causes(
        "serve_rebuild_failed",
        "\n* Failed to parse \"/tmp/site/templates/page.html\"\n --> 2:1\n  |\n2 | \n  | ^---\n  |\n  = expected `or`, `and`, `not`, `<=`, `>=`, `<`, `>`, `==`, `!=`, `+`, `-`, `*`, `/`, `%`, a filter, or a variable end (`}}`)",
        "rebuild",
        Vec::new(),
    );

    assert_eq!(failure.diagnostics[0].code, "template_parse_failed");
    assert_eq!(failure.diagnostics[0].path.as_deref(), Some("/tmp/site/templates/page.html"));
    assert_eq!(failure.diagnostics[0].line, Some(2));
    assert_eq!(failure.diagnostics[0].column, Some(1));
}

#[test]
fn parses_wrapped_template_parse_failures_from_causes() {
    let failure = CommandFailure::from_message_with_causes(
        "site_load_failed",
        "Error parsing templates from the /templates directory",
        "load",
        vec![String::from(
            "\n* Failed to parse \"/tmp/site/templates/page.html\"\n --> 7:13\n  |\n7 | {% if page.title %\n  |             ^---\n  |\n  = expected a variable end (`}}`)",
        )],
    );

    assert_eq!(failure.diagnostics[0].code, "template_parse_failed");
    assert_eq!(failure.diagnostics[0].path.as_deref(), Some("/tmp/site/templates/page.html"));
    assert_eq!(failure.diagnostics[0].line, Some(7));
    assert_eq!(failure.diagnostics[0].column, Some(13));
    assert_eq!(failure.diagnostics[0].phase.as_deref(), Some("load"));
}

#[test]
fn parses_invalid_sidecar_json_into_structured_diagnostics() {
    let failure = CommandFailure::from_message_with_causes(
        "site_load_failed",
        "Failed to parse structured-data sidecar `/tmp/site/content/refunds.schema.json`: EOF while parsing an object at line 9 column 0",
        "load",
        Vec::new(),
    );

    assert_eq!(failure.diagnostics[0].code, "schema_sidecar_invalid_json");
    assert_eq!(
        failure.diagnostics[0].path.as_deref(),
        Some("/tmp/site/content/refunds.schema.json")
    );
    assert_eq!(failure.diagnostics[0].line, Some(9));
    assert_eq!(failure.diagnostics[0].column, Some(0));
}

#[test]
fn falls_back_to_default_diagnostic_when_message_is_unknown() {
    let failure = CommandFailure::from_message_with_causes(
        "site_load_failed",
        "something unexpected happened",
        "load",
        vec!["root cause".to_string()],
    );

    assert_eq!(failure.diagnostics[0].code, "site_load_failed");
    assert_eq!(failure.diagnostics[0].phase.as_deref(), Some("load"));
    assert_eq!(
        failure.diagnostics[0].caused_by.as_ref().expect("caused_by"),
        &vec!["root cause".to_string()]
    );
}

#[test]
fn summary_counts_each_severity() {
    let diagnostics = vec![
        Diagnostic::error("a", "x"),
        Diagnostic::warn("b", "y"),
        Diagnostic::warn("c", "z"),
        Diagnostic::info("d", "w"),
    ];
    let summary = DiagnosticSummary::from_diagnostics(&diagnostics);
    assert_eq!((summary.errors, summary.warnings, summary.infos), (1, 2, 1));
    assert_eq!(DiagnosticSeverity::Warn.label(), "warn");
}

#[test]
fn builders_set_their_fields_and_skip_empty_lists() {
    let d = Diagnostic::error("code", "message")
        .with_path("content/a.md")
        .with_line(3)
        .with_column(4)
        .with_answer_id("refunds")
        .with_phase("load")
        .with_suggestion("fix it")
        .with_fix_example("id = \"x\"")
        .with_docs_url("https://ansorum.com/documentation/")
        .with_related_paths(Vec::new())
        .with_caused_by(vec!["cause".to_string()]);
    assert_eq!(d.path.as_deref(), Some("content/a.md"));
    assert_eq!((d.line, d.column), (Some(3), Some(4)));
    assert_eq!(d.answer_id.as_deref(), Some("refunds"));
    assert_eq!(d.fix_example.as_deref(), Some("id = \"x\""));
    assert_eq!(d.docs_url.as_deref(), Some("https://ansorum.com/documentation/"));
    assert!(d.related_paths.is_none());
    assert_eq!(d.caused_by, Some(vec!["cause".to_string()]));
}

#[test]
fn recognises_index_conflicts_and_plain_bullets() {
    let failure = CommandFailure::from_message_with_causes(
        "site_load_failed",
        "We can't have a page called `index.md` in the same folder as an index section in \"/tmp/site/content/posts\"",
        "load",
        Vec::new(),
    );
    assert_eq!(failure.diagnostics[0].code, "content_index_conflict");
    assert_eq!(failure.diagnostics[0].path.as_deref(), Some("/tmp/site/content/posts"));

    let failure = CommandFailure::from_message_with_causes(
        "site_load_failed",
        "Answer validation failed:\n- /a.md: `related` cannot reference the answer itself (`a`)\n- something else",
        "load",
        Vec::new(),
    );
    assert_eq!(failure.diagnostics.len(), 2);
    assert_eq!(failure.diagnostics[0].code, "answer_related_self_reference");
    assert_eq!(failure.diagnostics[0].message, "`related` cannot reference the answer itself (`a`)");
    assert_eq!(failure.diagnostics[1].code, "answer_validation_failed");
    assert_eq!(failure.diagnostics[1].message, "something else");
}

#[test]
fn recognises_missing_path_in_front_matter_failures() {
    let failure = CommandFailure::from_message_with_causes(
        "site_load_failed",
        "Error when parsing front matter of section `/tmp/x.md`",
        "load",
        vec!["TOML parse error at line 3, column 1\nexpected `=`".to_string()],
    );
    assert_eq!(failure.diagnostics[0].code, "frontmatter_parse_failed");
    assert_eq!(failure.diagnostics[0].message, "Front matter could not be parsed");
    assert_eq!(failure.diagnostics[0].line, Some(3));
    assert_eq!(
        failure.diagnostics[0].suggestion.as_deref(),
        Some("Fix the TOML syntax near the reported line and column")
    );

    let failure = CommandFailure::from_message_with_causes(
        "site_load_failed",
        "Error when parsing front matter of section `/tmp/site/content/refunds.md`",
        "load",
        vec![String::from(
            "TOML parse error at line 18, column 17\nunknown variant `bad-value`, expected one of `public`, `hidden`\n",
        )],
    );
    assert_eq!(failure.diagnostics[0].message, "Invalid front matter value `bad-value`");
    assert_eq!(failure.diagnostics[0].suggestion.as_deref(), Some("Use one of: public, hidden"));
}
