use ansorum::json::Json;
use ansorum::observability::{
    delivery_route, machine_delivery_event, EventHookConfig, DEFAULT_HOOK_TIMEOUT_MS,
};

fn s(v: &str) -> Json {
    Json::Str(v.to_string())
}

fn object(entries: Vec<(&str, Json)>) -> Json {
    let mut entries: Vec<(String, Json)> =
        entries.into_iter().map(|(k, v)| (k.to_string(), v)).collect();
    entries.sort_by(|a, b| a.0.cmp(&b.0));
    Json::Object(entries)
}

fn same(a: &Json, b: &Json) -> bool {
    format!("{:?}", a) == format!("{:?}", b)
}

#[test]
fn classifies_negotiated_markdown_fetches() {
    let event =
        machine_delivery_event("GET", "/refunds/", "/refunds/page.md", "memory", "negotiated")
            .expect("expected markdown event");

    assert_eq!(event.name, "ansorum.markdown.fetch");
    let expected = object(vec![
        ("method", s("GET")),
        ("request_path", s("/refunds/")),
        ("served_path", s("/refunds/page.md")),
        ("content_source", s("memory")),
        ("delivery_mode", s("negotiated")),
        ("status", Json::Number("200".to_string())),
    ]);
    assert!(same(&event.payload, &expected));
}

#[test]
fn classifies_root_and_pack_llms_fetches() {
    let root = machine_delivery_event("GET", "/llms.txt", "/llms.txt", "disk", "direct")
        .expect("expected llms root event");
    assert_eq!(root.name, "ansorum.llms.fetch");
    let expected_root = object(vec![
        ("method", s("GET")),
        ("request_path", s("/llms.txt")),
        ("served_path", s("/llms.txt")),
        ("content_source", s("disk")),
        ("variant", s("root")),
        ("pack_path", Json::Null),
        ("status", Json::Number("200".to_string())),
    ]);
    assert!(same(&root.payload, &expected_root));

    let pack =
        machine_delivery_event("GET", "/billing/llms.txt", "/billing/llms.txt", "memory", "direct")
            .expect("expected llms pack event");
    let expected_pack = object(vec![
        ("method", s("GET")),
        ("request_path", s("/billing/llms.txt")),
        ("served_path", s("/billing/llms.txt")),
        ("content_source", s("memory")),
        ("variant", s("pack")),
        ("pack_path", s("/billing/")),
        ("status", Json::Number("200".to_string())),
    ]);
    assert!(same(&pack.payload, &expected_pack));
}

#[test]
fn other_paths_raise_no_event() {
    assert!(machine_delivery_event("GET", "/", "/index.html", "disk", "direct").is_none());
    assert!(machine_delivery_event("GET", "/x", "/llms.txt.bak", "disk", "direct").is_none());
    let full = machine_delivery_event("GET", "/llms-full.txt", "//llms-full.txt", "disk", "direct")
        .expect("full export event");
    match full.payload {
        Json::Object(entries) => {
            let variant = entries.iter().find(|(k, _)| k == "variant").unwrap();
            assert!(same(&variant.1, &s("full")));
            let served = entries.iter().find(|(k, _)| k == "served_path").unwrap();
            assert!(same(&served.1, &s("/llms-full.txt")));
        }
        _ => panic!("payload is an object"),
    }
    assert!(machine_delivery_event("GET", "/p", "page.md", "disk", "direct").is_some());
}

#[test]
fn hook_configuration_reads_its_settings() {
    assert!(EventHookConfig::from_env_values(None, Some("10".to_string())).is_none());
    assert!(EventHookConfig::from_env_values(Some("   ".to_string()), None).is_none());
    let c = EventHookConfig::from_env_values(Some(" https://hook.test/e ".to_string()), None)
        .expect("configured");
    assert_eq!(c.url, "https://hook.test/e");
    assert_eq!(c.timeout_ms, DEFAULT_HOOK_TIMEOUT_MS);
    let c = EventHookConfig::from_env_values(
        Some("https://hook.test/e".to_string()),
        Some("750".to_string()),
    )
    .unwrap();
    assert_eq!(c.timeout_ms, 750);
    let c = EventHookConfig::from_env_values(
        Some("https://hook.test/e".to_string()),
        Some("0".to_string()),
    )
    .unwrap();
    assert_eq!(c.timeout_ms, 2000);
    let c = EventHookConfig::from_env_values(
        Some("https://hook.test/e".to_string()),
        Some("soon".to_string()),
    )
    .unwrap();
    assert_eq!(c.timeout_ms, 2000);
}

#[test]
fn negotiates_markdown_only_for_directory_paths_when_enabled() {
    assert_eq!(
        delivery_route("/refunds/", true, true),
        ("/refunds/page.md".to_string(), "negotiated")
    );
    assert_eq!(delivery_route("/refunds/", false, true), ("/refunds/".to_string(), "direct"));
    assert_eq!(delivery_route("/refunds/", true, false), ("/refunds/".to_string(), "direct"));
    assert_eq!(delivery_route("/llms.txt", true, true), ("/llms.txt".to_string(), "direct"));
}
