use ansorum::config::{Ansorum, CuratedPack, Delivery, Eval, Packs, Redirects};
use ansorum::preflight::{
    config_not_found, config_path_invalid, failure_prefix, output_dir_exists,
    output_dir_unreadable, root_dir_invalid,
};

fn hosts(v: &[&str]) -> Redirects {
    Redirects { external_host_allowlist: v.iter().map(|h| h.to_string()).collect() }
}

fn pack(name: &str, source: &str) -> CuratedPack {
    CuratedPack { name: name.to_string(), source: source.to_string() }
}

#[test]
fn default_configuration_is_valid() {
    assert!(Ansorum::default().validate().is_ok());
    let d = Delivery::default();
    assert!(d.markdown_routes && d.markdown_negotiation);
    let p = Packs::default();
    assert!(p.auto_entity_packs && p.auto_audience_packs && p.curated.is_empty());
}

#[test]
fn redirect_allowlist_entries_are_checked() {
    assert!(hosts(&["docs.example.com", "Example.org"]).validate().is_ok());
    assert_eq!(
        hosts(&["  "]).validate(),
        Err("ansorum.redirects.external_host_allowlist cannot contain empty hosts".to_string())
    );
    assert_eq!(
        hosts(&["https://docs.example.com"]).validate(),
        Err("Invalid ansorum.redirects.external_host_allowlist entry `https://docs.example.com`: expected a bare host name".to_string())
    );
    assert_eq!(
        hosts(&["docs.example.com", " DOCS.example.com "]).validate(),
        Err("Duplicate ansorum.redirects.external_host_allowlist entry `DOCS.example.com` is not allowed".to_string())
    );
    assert_eq!(
        hosts(&["bad host"]).validate(),
        Err("Invalid ansorum.redirects.external_host_allowlist entry `bad host`: expected a valid host name".to_string())
    );
}

#[test]
fn curated_packs_are_checked() {
    assert!(pack("billing", "collections/packs/billing.toml").validate().is_ok());
    assert_eq!(
        pack(" ", "a.toml").validate(),
        Err("ansorum.packs.curated.name cannot be empty".to_string())
    );
    assert_eq!(
        pack("Billing", "a.toml").validate(),
        Err("Invalid ansorum.packs.curated name `Billing`: use lowercase ASCII letters, digits, `-`, or `_`".to_string())
    );
    assert_eq!(
        pack("b", "/etc/a.toml").validate(),
        Err("Invalid ansorum.packs.curated source `/etc/a.toml`: absolute paths are not allowed".to_string())
    );
    assert_eq!(
        pack("b", "packs/../a.toml").validate(),
        Err("Invalid ansorum.packs.curated source `packs/../a.toml`: parent directory traversal is not allowed".to_string())
    );
    assert_eq!(
        pack("b", "packs/a.yaml").validate(),
        Err("Invalid ansorum.packs.curated source `packs/a.yaml`: expected a `.toml` file".to_string())
    );
    let packs = Packs {
        auto_entity_packs: false,
        auto_audience_packs: false,
        curated: vec![pack("a", "a.toml"), pack("a", "b.toml")],
    };
    assert_eq!(packs.validate(), Err("Duplicate ansorum.packs.curated name `a` is not allowed".to_string()));
    let packs = Packs {
        auto_entity_packs: false,
        auto_audience_packs: false,
        curated: vec![pack("a", "a.toml"), pack("b", "a.toml")],
    };
    assert_eq!(
        packs.validate(),
        Err("Duplicate ansorum.packs.curated source `a.toml` is not allowed".to_string())
    );
}

#[test]
fn eval_and_delivery_settings_are_checked() {
    let mut eval = Eval::default();
    assert!(eval.validate().is_ok());
    eval.model = Some("gpt-4".to_string());
    assert_eq!(
        eval.validate(),
        Err("Invalid ansorum.eval.model `gpt-4`: Ansorum eval currently supports GPT-5.4 family models only".to_string())
    );
    let mut eval = Eval::default();
    eval.api_base = Some("not a url".to_string());
    assert_eq!(
        eval.validate(),
        Err("Invalid ansorum.eval.api_base `not a url`: expected an absolute URL".to_string())
    );
    eval.api_base = Some("ftp://files.example.com".to_string());
    assert_eq!(
        eval.validate(),
        Err("Invalid ansorum.eval.api_base `ftp://files.example.com`: only http and https URLs are supported".to_string())
    );
    let mut eval = Eval::default();
    eval.prompt_version = " ".to_string();
    assert_eq!(eval.validate(), Err("ansorum.eval.prompt_version cannot be empty".to_string()));
    let mut delivery = Delivery::default();
    delivery.markdown_routes = false;
    assert_eq!(
        delivery.validate(),
        Err("Invalid ansorum.delivery configuration: markdown_negotiation requires markdown_routes to be enabled".to_string())
    );
}

#[test]
fn preflight_failures_are_structured() {
    let f = config_not_found(None, "/work/site");
    let d = &f.diagnostics[0];
    assert_eq!(d.code, "config_not_found");
    assert_eq!(d.path.as_deref(), Some("/work/site"));
    assert_eq!(
        d.message,
        "config.toml not found in current directory or ancestors (current_dir=/work/site)"
    );
    assert_eq!(d.phase.as_deref(), Some("preflight"));
    let f = config_not_found(Some("site.toml"), "/w");
    assert_eq!(f.diagnostics[0].path.as_deref(), Some("site.toml"));
    let f = config_path_invalid("/abs/config.toml", "No such file", true);
    assert_eq!(
        f.diagnostics[0].suggestion.as_deref(),
        Some("Check that --config points to an existing config.toml file")
    );
    let f = root_dir_invalid("/nope", "gone");
    assert_eq!(f.diagnostics[0].message, "Could not resolve root dir `/nope`: gone");
    let f = output_dir_exists("public");
    assert_eq!(f.diagnostics[0].code, "output_dir_exists");
    assert_eq!(f.diagnostics[0].message, "Directory 'public' already exists.");
    let d = output_dir_unreadable("out", "denied", true);
    assert_eq!(d.message, "Could not read output directory 'out': denied");
    assert_eq!(failure_prefix("check"), "Failed to check the site");
    assert_eq!(failure_prefix("serve"), "Command failed");
}
