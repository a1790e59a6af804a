//! Observability events: which machine-delivery requests are worth an event,
//! what the event says, and how the event hook is configured.

use vstd::prelude::*;

use crate::json::{entries_v, json_object, jv, object_from, Json, JsonV};
use crate::structured::js;
use crate::text::{
    chars_of, ends_with, ends_with_exec, eq, extend, extend_str, parse_u64, parse_u64_exec,
    string_of, strip_suffix, strip_suffix_exec, trim, trim_exec, trim_start_matches,
    trim_start_matches_exec,
};

verus! {

/// Version of the event envelope schema.
pub const EVENT_SCHEMA_VERSION: u8 = 1;

/// Timeout of an event hook delivery when none is configured.
pub const DEFAULT_HOOK_TIMEOUT_MS: u64 = 2000;

/// Whether an event hook is delivered before the caller goes on.
#[derive(Clone, Copy, Debug, PartialEq, Eq, Structural)]
pub enum DispatchMode {
    Sync,
    Async,
}

/// A named event with its JSON payload.
#[derive(Debug)]
pub struct EventRecord {
    pub name: &'static str,
    pub payload: Json,
}

/// Where event hooks are posted, and how long a delivery may take.
#[derive(Debug)]
pub struct EventHookConfig {
    pub url: String,
    pub timeout_ms: u64,
}

/// The hook configuration given the raw `ANSORUM_EVENT_HOOK_URL` and
/// `ANSORUM_EVENT_HOOK_TIMEOUT_MS` settings: none without a non-blank URL; a
/// timeout that is not a positive integer falls back to the default.
pub open spec fn spec_hook_config(url: Option<Seq<char>>, timeout: Option<Seq<char>>) -> Option<
    (Seq<char>, u64),
> {
    match url {
        None => None,
        Some(u) => if trim(u).len() == 0 {
            None
        } else {
            Some(
                (
                    trim(u),
                    match timeout {
                        Some(t) => match parse_u64(t) {
                            Some(v) => if v > 0 {
                                v as u64
                            } else {
                                DEFAULT_HOOK_TIMEOUT_MS
                            },
                            None => DEFAULT_HOOK_TIMEOUT_MS,
                        },
                        None => DEFAULT_HOOK_TIMEOUT_MS,
                    },
                ),
            )
        },
    }
}

impl EventHookConfig {
    /// The hook configuration from the values of the two settings.
    pub fn from_env_values(url: Option<String>, timeout_ms: Option<String>) -> (r: Option<Self>)
        ensures
            match r {
                Some(c) => spec_hook_config(
                    match url {
                        Some(u) => Some(u@),
                        None => None,
                    },
                    match timeout_ms {
                        Some(t) => Some(t@),
                        None => None,
                    },
                ) == Some((c.url@, c.timeout_ms)),
                None => spec_hook_config(
                    match url {
                        Some(u) => Some(u@),
                        None => None,
                    },
                    match timeout_ms {
                        Some(t) => Some(t@),
                        None => None,
                    },
                ) is None,
            },
    {
        let u = match url {
            Some(u) => u,
            None => {
                return None;
            },
        };
        let trimmed = trim_exec(&chars_of(u.as_str()));
        if trimmed.len() == 0 {
            return None;
        }
        let timeout = match timeout_ms {
            Some(t) => match parse_u64_exec(&chars_of(t.as_str())) {
                Some(v) => if v > 0 {
                    v
                } else {
                    DEFAULT_HOOK_TIMEOUT_MS
                },
                None => DEFAULT_HOOK_TIMEOUT_MS,
            },
            None => DEFAULT_HOOK_TIMEOUT_MS,
        };
        Some(EventHookConfig { url: string_of(&trimmed), timeout_ms: timeout })
    }
}

/// The served path without its leading slashes.
pub open spec fn normalized_path(served_path: Seq<char>) -> Seq<char> {
    trim_start_matches(served_path, "/"@)
}

/// A served path that is an answer's machine Markdown.
pub open spec fn is_markdown_path(n: Seq<char>) -> bool {
    n == "page.md"@ || ends_with(n, "/page.md"@)
}

/// The `llms.txt` variant a served path is, with the pack's path for a pack.
pub open spec fn llms_variant(n: Seq<char>) -> Option<(Seq<char>, Option<Seq<char>>)> {
    if n == "llms.txt"@ {
        Some(("root"@, None))
    } else if n == "llms-full.txt"@ {
        Some(("full"@, None))
    } else {
        match strip_suffix(n, "/llms.txt"@) {
            Some(pack) => if pack.len() > 0 {
                Some(("pack"@, Some("/"@ + pack + "/"@)))
            } else {
                None
            },
            None => None,
        }
    }
}

pub open spec fn num_v(t: Seq<char>) -> JsonV {
    JsonV::Number(t)
}

/// The payload of a machine Markdown fetch.
pub open spec fn markdown_payload(
    method: Seq<char>,
    request_path: Seq<char>,
    n: Seq<char>,
    content_source: Seq<char>,
    delivery_mode: Seq<char>,
) -> JsonV {
    JsonV::Object(
        object_from(
            seq![
                ("method"@, js(method)),
                ("request_path"@, js(request_path)),
                ("served_path"@, js("/"@ + n)),
                ("content_source"@, js(content_source)),
                ("delivery_mode"@, js(delivery_mode)),
                ("status"@, num_v("200"@)),
            ],
        ),
    )
}

/// The payload of an `llms.txt` fetch.
pub open spec fn llms_payload(
    method: Seq<char>,
    request_path: Seq<char>,
    n: Seq<char>,
    content_source: Seq<char>,
    variant: Seq<char>,
    pack_path: Option<Seq<char>>,
) -> JsonV {
    JsonV::Object(
        object_from(
            seq![
                ("method"@, js(method)),
                ("request_path"@, js(request_path)),
                ("served_path"@, js("/"@ + n)),
                ("content_source"@, js(content_source)),
                ("variant"@, js(variant)),
                (
                    "pack_path"@,
                    match pack_path {
                        Some(p) => js(p),
                        None => JsonV::Null,
                    },
                ),
                ("status"@, num_v("200"@)),
            ],
        ),
    )
}

/// The event a delivery of `served_path` raises, as (name, payload).
pub open spec fn spec_delivery_event(
    method: Seq<char>,
    request_path: Seq<char>,
    served_path: Seq<char>,
    content_source: Seq<char>,
    delivery_mode: Seq<char>,
) -> Option<(Seq<char>, JsonV)> {
    let n = normalized_path(served_path);
    if is_markdown_path(n) {
        Some(
            (
                "ansorum.markdown.fetch"@,
                markdown_payload(method, request_path, n, content_source, delivery_mode),
            ),
        )
    } else {
        match llms_variant(n) {
            Some((variant, pack_path)) => Some(
                (
                    "ansorum.llms.fetch"@,
                    llms_payload(method, request_path, n, content_source, variant, pack_path),
                ),
            ),
            None => None,
        }
    }
}

fn entry(key: &str, value: Json) -> (r: (String, Json))
    ensures
        r.0@ == key@,
        r.1 == value,
{
    (key.to_string(), value)
}

fn str_json(t: &[char]) -> (r: Json)
    ensures
        jv(r) == js(t@),
{
    Json::Str(string_of(t))
}

fn slash_prefixed(n: &[char]) -> (r: Vec<char>)
    ensures
        r@ == "/"@ + n@,
{
    let mut v: Vec<char> = Vec::new();
    extend_str(&mut v, "/");
    extend(&mut v, n);
    v
}

/// The observability event of a machine-delivery request: a fetch of an
/// answer's `page.md`, or of the root, full or a pack `llms.txt`; no event for
/// any other path.
pub fn machine_delivery_event(
    method: &str,
    request_path: &str,
    served_path: &str,
    content_source: &'static str,
    delivery_mode: &'static str,
) -> (r: Option<EventRecord>)
    ensures
        match r {
            Some(e) => spec_delivery_event(
                method@,
                request_path@,
                served_path@,
                content_source@,
                delivery_mode@,
            ) == Some((e.name@, jv(e.payload))),
            None => spec_delivery_event(
                method@,
                request_path@,
                served_path@,
                content_source@,
                delivery_mode@,
            ) is None,
        },
{
    let slash = chars_of("/");
    proof {
        reveal_strlit("/");
    }
    let n = trim_start_matches_exec(&chars_of(served_path), &slash);
    let served = slash_prefixed(&n);
    let md = eq(&n, &chars_of("page.md")) || ends_with_exec(&n, &chars_of("/page.md"));
    if md {
        let mut es: Vec<(String, Json)> = Vec::new();
        es.push(entry("method", Json::Str(method.to_string())));
        es.push(entry("request_path", Json::Str(request_path.to_string())));
        es.push(entry("served_path", str_json(&served)));
        es.push(entry("content_source", Json::Str(content_source.to_string())));
        es.push(entry("delivery_mode", Json::Str(delivery_mode.to_string())));
        es.push(entry("status", Json::Number("200".to_string())));
        let ghost expected = seq![
            ("method"@, js(method@)),
            ("request_path"@, js(request_path@)),
            ("served_path"@, js("/"@ + n@)),
            ("content_source"@, js(content_source@)),
            ("delivery_mode"@, js(delivery_mode@)),
            ("status"@, num_v("200"@)),
        ];
        assert(entries_v(es@) =~= expected);
        let payload = json_object(es);
        return Some(EventRecord { name: "ansorum.markdown.fetch", payload });
    }
    let variant: Option<(&'static str, Option<Vec<char>>)> = if eq(&n, &chars_of("llms.txt")) {
        Some(("root", None))
    } else if eq(&n, &chars_of("llms-full.txt")) {
        Some(("full", None))
    } else {
        match strip_suffix_exec(&n, &chars_of("/llms.txt")) {
            Some(pack) => if pack.len() > 0 {
                let mut p = slash_prefixed(&pack);
                extend_str(&mut p, "/");
                Some(("pack", Some(p)))
            } else {
                None
            },
            None => None,
        }
    };
    match variant {
        Some((name, pack_path)) => {
            let ghost pv: Option<Seq<char>> = match &pack_path {
                Some(p) => Some(p@),
                None => None,
            };
            assert(llms_variant(n@) == Some((name@, pv)));
            let pack_json = match pack_path {
                Some(p) => str_json(&p),
                None => Json::Null,
            };
            let mut es: Vec<(String, Json)> = Vec::new();
            es.push(entry("method", Json::Str(method.to_string())));
            es.push(entry("request_path", Json::Str(request_path.to_string())));
            es.push(entry("served_path", str_json(&served)));
            es.push(entry("content_source", Json::Str(content_source.to_string())));
            es.push(entry("variant", Json::Str(name.to_string())));
            es.push(entry("pack_path", pack_json));
            es.push(entry("status", Json::Number("200".to_string())));
            let ghost expected = seq![
                ("method"@, js(method@)),
                ("request_path"@, js(request_path@)),
                ("served_path"@, js("/"@ + n@)),
                ("content_source"@, js(content_source@)),
                ("variant"@, js(name@)),
                (
                    "pack_path"@,
                    match pv {
                        Some(p) => js(p),
                        None => JsonV::Null,
                    },
                ),
                ("status"@, num_v("200"@)),
            ];
            assert(entries_v(es@) =~= expected);
            let payload = json_object(es);
            Some(EventRecord { name: "ansorum.llms.fetch", payload })
        },
        None => None,
    }
}

/// Where a request for a site path is served from: a directory path (ending in
/// `/`) asked for with `Accept: text/markdown` gets the page's machine
/// Markdown at `<path>page.md` when the site negotiates Markdown (mode
/// `negotiated`); any other request gets the path itself (mode `direct`).
pub open spec fn spec_delivery_route(
    request_path: Seq<char>,
    accepts_markdown: bool,
    negotiation_enabled: bool,
) -> (Seq<char>, Seq<char>) {
    if negotiation_enabled && accepts_markdown && ends_with(request_path, "/"@) {
        (request_path + "page.md"@, "negotiated"@)
    } else {
        (request_path, "direct"@)
    }
}

/// Where a request is served from, and in which delivery mode.
pub fn delivery_route(request_path: &str, accepts_markdown: bool, negotiation_enabled: bool) -> (r: (
    String,
    &'static str,
))
    ensures
        (r.0@, r.1@) == spec_delivery_route(request_path@, accepts_markdown, negotiation_enabled),
{
    let p = chars_of(request_path);
    let slash = chars_of("/");
    if negotiation_enabled && accepts_markdown && ends_with_exec(&p, &slash) {
        let mut t = p;
        extend_str(&mut t, "page.md");
        (string_of(&t), "negotiated")
    } else {
        (request_path.to_string(), "direct")
    }
}

} // verus!
