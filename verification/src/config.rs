//! The `[ansorum]` configuration: redirects, packs, eval and delivery
//! settings, with their defaults and validation.

use vstd::prelude::*;

use crate::diagnostics::strs;
use crate::order::values;
use crate::text::{
    ascii_lower, chars_of, contains, contains_exec, ends_with, ends_with_exec, extend_str, split,
    split_exec, starts_with, starts_with_exec, str_eq, string_of, to_ascii_lower, trim, trim_exec,
    views,
};

verus! {

// ---------------------------------------------------------------------------
// Outside parsers
// ---------------------------------------------------------------------------

/// Whether `url::Host::parse` accepts a text.
pub uninterp spec fn parses_as_host(text: Seq<char>) -> bool;

/// `url::Host::parse(text).is_ok()`; the result is named by `parses_as_host`.
#[verifier::external_body]
fn host_parses(text: &str) -> (r: bool)
    ensures
        r == parses_as_host(text@),
{
    url::Host::parse(text).is_ok()
}

/// The scheme of the URL that `url::Url::parse` reads from a text, if it
/// reads one.
pub uninterp spec fn parsed_url_scheme(text: Seq<char>) -> Option<Seq<char>>;

/// `url::Url::parse(text)` and, on success, its `scheme()`; the result is
/// named by `parsed_url_scheme`.
#[verifier::external_body]
pub(crate) fn url_scheme(text: &str) -> (r: Option<String>)
    ensures
        match r {
            Some(s) => parsed_url_scheme(text@) == Some(s@),
            None => parsed_url_scheme(text@) is None,
        },
{
    match url::Url::parse(text) {
        Ok(url) => Some(url.scheme().to_string()),
        Err(_) => None,
    }
}

// ---------------------------------------------------------------------------
// Types
// ---------------------------------------------------------------------------

/// Redirect settings.
#[derive(Debug)]
pub struct Redirects {
    pub external_host_allowlist: Vec<String>,
}

/// A curated pack: its output name and the TOML file that defines it.
#[derive(Debug)]
pub struct CuratedPack {
    pub name: String,
    pub source: String,
}

/// Pack settings.
#[derive(Debug)]
pub struct Packs {
    pub auto_entity_packs: bool,
    pub auto_audience_packs: bool,
    pub curated: Vec<CuratedPack>,
}

#[derive(Clone, Copy, Debug, PartialEq, Eq, Structural)]
pub enum EvalBackend {
    OpenAiResponses,
}

/// Eval settings.
#[derive(Debug)]
pub struct Eval {
    pub enabled: bool,
    pub backend: EvalBackend,
    pub model: Option<String>,
    pub api_base: Option<String>,
    pub prompt_version: String,
}

#[derive(Clone, Copy, Debug, PartialEq, Eq, Structural)]
pub enum AiVisibilityDefault {
    Public,
    SummaryOnly,
    Hidden,
}

/// Delivery settings.
#[derive(Debug)]
pub struct Delivery {
    pub markdown_routes: bool,
    pub markdown_negotiation: bool,
    pub default_ai_visibility: AiVisibilityDefault,
}

/// The `[ansorum]` configuration table.
#[derive(Debug)]
pub struct Ansorum {
    pub redirects: Redirects,
    pub packs: Packs,
    pub eval: Eval,
    pub delivery: Delivery,
}

impl Default for Redirects {
    fn default() -> (r: Redirects)
        ensures
            r.external_host_allowlist@.len() == 0,
    {
        Redirects { external_host_allowlist: Vec::new() }
    }
}

impl Default for Packs {
    fn default() -> (r: Packs)
        ensures
            r.auto_entity_packs,
            r.auto_audience_packs,
            r.curated@.len() == 0,
    {
        Packs { auto_entity_packs: true, auto_audience_packs: true, curated: Vec::new() }
    }
}

impl Default for Eval {
    fn default() -> (r: Eval)
        ensures
            !r.enabled,
            r.backend == EvalBackend::OpenAiResponses,
            r.model is None,
            r.api_base is None,
            r.prompt_version@ == "v1"@,
    {
        Eval {
            enabled: false,
            backend: EvalBackend::OpenAiResponses,
            model: None,
            api_base: None,
            prompt_version: "v1".to_owned(),
        }
    }
}

impl Default for Delivery {
    fn default() -> (r: Delivery)
        ensures
            r.markdown_routes,
            r.markdown_negotiation,
            r.default_ai_visibility == AiVisibilityDefault::Public,
    {
        Delivery {
            markdown_routes: true,
            markdown_negotiation: true,
            default_ai_visibility: AiVisibilityDefault::Public,
        }
    }
}

impl Default for Ansorum {
    fn default() -> (r: Ansorum)
        ensures
            r.redirects.external_host_allowlist@.len() == 0,
            r.packs.auto_entity_packs && r.packs.auto_audience_packs,
            r.packs.curated@.len() == 0,
            !r.eval.enabled && r.eval.model is None && r.eval.api_base is None,
            r.eval.prompt_version@ == "v1"@,
            r.delivery.markdown_routes && r.delivery.markdown_negotiation,
            r.delivery.default_ai_visibility == AiVisibilityDefault::Public,
    {
        Ansorum {
            redirects: Redirects::default(),
            packs: Packs::default(),
            eval: Eval::default(),
            delivery: Delivery::default(),
        }
    }
}

// ---------------------------------------------------------------------------
// Redirects
// ---------------------------------------------------------------------------

pub open spec fn ascii_lowercase(s: Seq<char>) -> Seq<char> {
    s.map_values(|c: char| ascii_lower(c))
}

fn ascii_lowercase_exec(s: &[char]) -> (r: Vec<char>)
    ensures
        r@ == ascii_lowercase(s@),
{
    let mut r: Vec<char> = Vec::new();
    let mut i: usize = 0;
    while i < s.len()
        invariant
            i <= s@.len(),
            r@ == ascii_lowercase(s@.take(i as int)),
        decreases s.len() - i,
    {
        r.push(to_ascii_lower(s[i]));
        i += 1;
        assert(r@ =~= ascii_lowercase(s@.take(i as int)));
    }
    assert(s@.take(i as int) =~= s@);
    r
}

/// The allowlist key of an entry: trimmed and ASCII-lowercased.
pub open spec fn host_key(h: Seq<char>) -> Seq<char> {
    ascii_lowercase(trim(h))
}

/// The error, if any, for allowlist entry `h` after the keys `earlier`.
pub open spec fn host_entry_error(h: Seq<char>, earlier: Seq<Seq<char>>) -> Option<Seq<char>> {
    let t = trim(h);
    if t.len() == 0 {
        Some("ansorum.redirects.external_host_allowlist cannot contain empty hosts"@)
    } else if contains(t, "://"@) || contains(t, "/"@) || contains(t, "?"@) || contains(t, "#"@) {
        Some(
            "Invalid ansorum.redirects.external_host_allowlist entry `"@ + t
                + "`: expected a bare host name"@,
        )
    } else if !parses_as_host(host_key(h)) {
        Some(
            "Invalid ansorum.redirects.external_host_allowlist entry `"@ + t
                + "`: expected a valid host name"@,
        )
    } else if earlier.contains(host_key(h)) {
        Some("Duplicate ansorum.redirects.external_host_allowlist entry `"@ + t + "` is not allowed"@)
    } else {
        None
    }
}

/// The first error of the allowlist entries from `i` on, given that the ones
/// before `i` passed.
pub open spec fn allowlist_error(hosts: Seq<Seq<char>>, i: nat) -> Option<Seq<char>>
    decreases hosts.len() - i,
{
    if i >= hosts.len() {
        None
    } else {
        match host_entry_error(hosts[i as int], hosts.take(i as int).map_values(|h: Seq<char>| host_key(h))) {
            Some(e) => Some(e),
            None => allowlist_error(hosts, i + 1),
        }
    }
}

pub open spec fn unit_or(e: Option<Seq<char>>) -> Result<(), Seq<char>> {
    match e {
        Some(m) => Err(m),
        None => Ok(()),
    }
}

pub open spec fn res_view(r: Result<(), String>) -> Result<(), Seq<char>> {
    match r {
        Ok(()) => Ok(()),
        Err(m) => Err(m@),
    }
}

/// `a + b + c`.
pub fn concat3_str(a: &str, b: &str, c: &str) -> (r: String)
    ensures
        r@ == a@ + b@ + c@,
{
    let mut v: Vec<char> = Vec::new();
    extend_str(&mut v, a);
    extend_str(&mut v, b);
    extend_str(&mut v, c);
    string_of(&v)
}

impl Redirects {
    pub fn validate(&self) -> (r: Result<(), String>)
        ensures
            res_view(r) == unit_or(allowlist_error(strs(self.external_host_allowlist@), 0)),
    {
        let hosts = &self.external_host_allowlist;
        let ghost hs = strs(hosts@);
        let mut seen: Vec<Vec<char>> = Vec::new();
        let mut i: usize = 0;
        while i < hosts.len()
            invariant
                i <= hosts@.len(),
                hosts == &self.external_host_allowlist,
                hs == strs(hosts@),
                views(seen@) == hs.take(i as int).map_values(|h: Seq<char>| host_key(h)),
                allowlist_error(hs, 0) == allowlist_error(hs, i as nat),
            decreases hosts.len() - i,
        {
            let raw = chars_of(hosts[i].as_str());
            let t = trim_exec(&raw);
            let ts = string_of(&t);
            assert(hs[i as int] == hosts@[i as int]@);
            assert(hs.len() == hosts@.len());
            let ghost earlier = hs.take(i as int).map_values(|h: Seq<char>| host_key(h));
            assert(allowlist_error(hs, i as nat) == match host_entry_error(hs[i as int], earlier) {
                Some(e) => Some(e),
                None => allowlist_error(hs, (i + 1) as nat),
            });
            if t.len() == 0 {
                return Err("ansorum.redirects.external_host_allowlist cannot contain empty hosts".to_owned());
            }
            let p1 = chars_of("://");
            let p2 = chars_of("/");
            let p3 = chars_of("?");
            let p4 = chars_of("#");
            if contains_exec(&t, &p1) || contains_exec(&t, &p2) || contains_exec(&t, &p3)
                || contains_exec(&t, &p4) {
                let m = concat3_str("Invalid ansorum.redirects.external_host_allowlist entry `", ts.as_str(), "`: expected a bare host name");
                return Err(m);
            }
            let key = ascii_lowercase_exec(&t);
            let key_s = string_of(&key);
            if !host_parses(key_s.as_str()) {
                let m = concat3_str("Invalid ansorum.redirects.external_host_allowlist entry `", ts.as_str(), "`: expected a valid host name");
                return Err(m);
            }
            let mut dup = false;
            let mut j: usize = 0;
            while j < seen.len()
                invariant
                    j <= seen@.len(),
                    dup == exists|t: int| 0 <= t < j && #[trigger] seen@[t]@ == key@,
                decreases seen.len() - j,
            {
                if crate::text::eq(&seen[j], &key) {
                    dup = true;
                }
                j += 1;
            }
            proof {
                let earlier = hs.take(i as int).map_values(|h: Seq<char>| host_key(h));
                if dup {
                    let t0 = choose|t0: int| 0 <= t0 < j && #[trigger] seen@[t0]@ == key@;
                    assert(views(seen@)[t0] == key@);
                    assert(earlier.contains(key@));
                } else {
                    if earlier.contains(key@) {
                        let t0 = choose|t0: int| 0 <= t0 < earlier.len() && earlier[t0] == key@;
                        assert(views(seen@)[t0] == key@);
                        assert(seen@[t0]@ == key@);
                    }
                }
            }
            if dup {
                let m = concat3_str("Duplicate ansorum.redirects.external_host_allowlist entry `", ts.as_str(), "` is not allowed");
                return Err(m);
            }
            let ghost before = views(seen@);
            seen.push(key);
            proof {
                assert(views(seen@) =~= before.push(host_key(hs[i as int])));
                assert(hs.take(i + 1).map_values(|h: Seq<char>| host_key(h)) =~= hs.take(
                    i as int,
                ).map_values(|h: Seq<char>| host_key(h)).push(host_key(hs[i as int])));
            }
            i += 1;
        }
        Ok(())
    }
}

// ---------------------------------------------------------------------------
// Packs
// ---------------------------------------------------------------------------

pub open spec fn is_pack_name_char(c: char) -> bool {
    ('a' <= c && c <= 'z') || ('0' <= c && c <= '9') || c == '-' || c == '_'
}

/// A relative path names its parent when one of its `/`-separated components
/// is `..`.
pub open spec fn has_parent_component(s: Seq<char>) -> bool {
    split(s, "/"@).contains(".."@)
}

/// The first problem with a curated pack entry, if any.
pub open spec fn curated_pack_error(name: Seq<char>, source: Seq<char>) -> Option<Seq<char>> {
    let src = trim(source);
    if trim(name).len() == 0 {
        Some("ansorum.packs.curated.name cannot be empty"@)
    } else if !(forall|i: int| 0 <= i < name.len() ==> is_pack_name_char(#[trigger] name[i])) {
        Some(
            "Invalid ansorum.packs.curated name `"@ + name
                + "`: use lowercase ASCII letters, digits, `-`, or `_`"@,
        )
    } else if src.len() == 0 {
        Some("ansorum.packs.curated.source cannot be empty"@)
    } else if starts_with(src, "/"@) {
        Some("Invalid ansorum.packs.curated source `"@ + src + "`: absolute paths are not allowed"@)
    } else if has_parent_component(src) {
        Some(
            "Invalid ansorum.packs.curated source `"@ + src
                + "`: parent directory traversal is not allowed"@,
        )
    } else if !ends_with(src, ".toml"@) {
        Some("Invalid ansorum.packs.curated source `"@ + src + "`: expected a `.toml` file"@)
    } else {
        None
    }
}

impl CuratedPack {
    /// Checks the entry. Paths follow Unix rules: absolute when they start
    /// with `/`.
    pub fn validate(&self) -> (r: Result<(), String>)
        ensures
            res_view(r) == unit_or(curated_pack_error(self.name@, self.source@)),
    {
        let name = chars_of(self.name.as_str());
        let tn = trim_exec(&name);
        if tn.len() == 0 {
            return Err("ansorum.packs.curated.name cannot be empty".to_owned());
        }
        let mut i: usize = 0;
        while i < name.len()
            invariant
                i <= name@.len(),
                name@ == self.name@,
                trim(self.name@).len() > 0,
                forall|k: int| 0 <= k < i ==> is_pack_name_char(#[trigger] name@[k]),
            decreases name.len() - i,
        {
            let c = name[i];
            if !(('a' <= c && c <= 'z') || ('0' <= c && c <= '9') || c == '-' || c == '_') {
                assert(!is_pack_name_char(name@[i as int]));
                assert(!is_pack_name_char(self.name@[i as int]));
                let m = concat3_str("Invalid ansorum.packs.curated name `", self.name.as_str(), "`: use lowercase ASCII letters, digits, `-`, or `_`");
                return Err(m);
            }
            i += 1;
        }
        let raw = chars_of(self.source.as_str());
        let src = trim_exec(&raw);
        let src_s = string_of(&src);
        if src.len() == 0 {
            return Err("ansorum.packs.curated.source cannot be empty".to_owned());
        }
        let mut slash: Vec<char> = Vec::new();
        slash.push('/');
        assert(slash@ == "/"@) by {
            reveal_strlit("/");
            assert(slash@ =~= "/"@);
        }
        if starts_with_exec(&src, &slash) {
            let m = concat3_str("Invalid ansorum.packs.curated source `", src_s.as_str(), "`: absolute paths are not allowed");
            return Err(m);
        }
        let parts = split_exec(&src, &slash);
        let dots = chars_of("..");
        let mut parent = false;
        let mut k: usize = 0;
        while k < parts.len()
            invariant
                k <= parts@.len(),
                parent == exists|t: int| 0 <= t < k && #[trigger] parts@[t]@ == dots@,
            decreases parts.len() - k,
        {
            if crate::text::eq(&parts[k], &dots) {
                parent = true;
            }
            k += 1;
        }
        proof {
            let sp = views(parts@);
            if parent {
                let t = choose|t: int| 0 <= t < k && #[trigger] parts@[t]@ == dots@;
                assert(sp[t] == dots@);
            } else if sp.contains(dots@) {
                let t = choose|t: int| 0 <= t < sp.len() && sp[t] == dots@;
                assert(parts@[t]@ == dots@);
            }
        }
        if parent {
            let m = concat3_str("Invalid ansorum.packs.curated source `", src_s.as_str(), "`: parent directory traversal is not allowed");
            return Err(m);
        }
        let ext = chars_of(".toml");
        if !ends_with_exec(&src, &ext) {
            let m = concat3_str("Invalid ansorum.packs.curated source `", src_s.as_str(), "`: expected a `.toml` file");
            return Err(m);
        }
        Ok(())
    }
}

/// The name and source of each curated pack.
pub open spec fn pack_entries(ps: Seq<CuratedPack>) -> Seq<(Seq<char>, Seq<char>)> {
    ps.map_values(|p: CuratedPack| (p.name@, p.source@))
}

/// The first error of the curated packs from `i` on, given that the ones
/// before `i` passed.
pub open spec fn packs_error(ps: Seq<(Seq<char>, Seq<char>)>, i: nat) -> Option<Seq<char>>
    decreases ps.len() - i,
{
    if i >= ps.len() {
        None
    } else {
        let (name, source) = ps[i as int];
        let earlier = ps.take(i as int);
        match curated_pack_error(name, source) {
            Some(e) => Some(e),
            None => if earlier.map_values(|e: (Seq<char>, Seq<char>)| e.0).contains(name) {
                Some("Duplicate ansorum.packs.curated name `"@ + name + "` is not allowed"@)
            } else if earlier.map_values(|e: (Seq<char>, Seq<char>)| e.1).contains(source) {
                Some("Duplicate ansorum.packs.curated source `"@ + source + "` is not allowed"@)
            } else {
                packs_error(ps, i + 1)
            },
        }
    }
}

impl Packs {
    pub fn validate(&self) -> (r: Result<(), String>)
        ensures
            res_view(r) == unit_or(packs_error(pack_entries(self.curated@), 0)),
    {
        let ps = &self.curated;
        let ghost es = pack_entries(ps@);
        let mut i: usize = 0;
        while i < ps.len()
            invariant
                i <= ps@.len(),
                ps == &self.curated,
                es == pack_entries(ps@),
                packs_error(es, 0) == packs_error(es, i as nat),
            decreases ps.len() - i,
        {
            let pack = &ps[i];
            assert(es[i as int] == (pack.name@, pack.source@));
            match pack.validate() {
                Err(e) => return Err(e),
                Ok(()) => {},
            }
            let ghost earlier = es.take(i as int);
            let mut dup_name = false;
            let mut dup_source = false;
            let mut j: usize = 0;
            while j < i
                invariant
                    j <= i < ps@.len(),
                    es == pack_entries(ps@),
                    earlier == es.take(i as int),
                    dup_name == exists|t: int| 0 <= t < j && #[trigger] es[t].0 == ps@[i as int].name@,
                    dup_source == exists|t: int|
                        0 <= t < j && #[trigger] es[t].1 == ps@[i as int].source@,
                decreases i - j,
            {
                assert(es[j as int] == (ps@[j as int].name@, ps@[j as int].source@));
                if ps[j].name == ps[i].name {
                    dup_name = true;
                    assert(es[j as int].0 == ps@[i as int].name@);
                } else {
                    assert(es[j as int].0 != ps@[i as int].name@);
                }
                if ps[j].source == ps[i].source {
                    dup_source = true;
                    assert(es[j as int].1 == ps@[i as int].source@);
                } else {
                    assert(es[j as int].1 != ps@[i as int].source@);
                }
                j += 1;
            }
            proof {
                let names = earlier.map_values(|e: (Seq<char>, Seq<char>)| e.0);
                let sources = earlier.map_values(|e: (Seq<char>, Seq<char>)| e.1);
                if dup_name {
                    let t = choose|t: int| 0 <= t < j && #[trigger] es[t].0 == ps@[i as int].name@;
                    assert(names[t] == es[t].0);
                    assert(names.contains(pack.name@));
                } else if names.contains(pack.name@) {
                    let t = choose|t: int| 0 <= t < names.len() && names[t] == pack.name@;
                    assert(names[t] == es[t].0);
                }
                if dup_source {
                    let t = choose|t: int| 0 <= t < j && #[trigger] es[t].1 == ps@[i as int].source@;
                    assert(sources[t] == es[t].1);
                    assert(sources.contains(pack.source@));
                } else if sources.contains(pack.source@) {
                    let t = choose|t: int| 0 <= t < sources.len() && sources[t] == pack.source@;
                    assert(sources[t] == es[t].1);
                }
            }
            if dup_name {
                return Err(
                    concat3_str(
                        "Duplicate ansorum.packs.curated name `",
                        pack.name.as_str(),
                        "` is not allowed",
                    ),
                );
            }
            if dup_source {
                return Err(
                    concat3_str(
                        "Duplicate ansorum.packs.curated source `",
                        pack.source.as_str(),
                        "` is not allowed",
                    ),
                );
            }
            i += 1;
        }
        Ok(())
    }
}

/// The first problem with the eval settings, if any.
pub open spec fn eval_error(
    model: Option<Seq<char>>,
    api_base: Option<Seq<char>>,
    prompt_version: Seq<char>,
) -> Option<Seq<char>> {
    if model is Some && !starts_with(model->0, "gpt-5.4"@) {
        Some(
            "Invalid ansorum.eval.model `"@ + model->0
                + "`: Ansorum eval currently supports GPT-5.4 family models only"@,
        )
    } else if api_base is Some && parsed_url_scheme(api_base->0) is None {
        Some("Invalid ansorum.eval.api_base `"@ + api_base->0 + "`: expected an absolute URL"@)
    } else if api_base is Some && parsed_url_scheme(api_base->0) != Some("http"@)
        && parsed_url_scheme(api_base->0) != Some("https"@) {
        Some(
            "Invalid ansorum.eval.api_base `"@ + api_base->0
                + "`: only http and https URLs are supported"@,
        )
    } else if trim(prompt_version).len() == 0 {
        Some("ansorum.eval.prompt_version cannot be empty"@)
    } else {
        None
    }
}

impl Eval {
    pub fn validate(&self) -> (r: Result<(), String>)
        ensures
            res_view(r) == unit_or(
                eval_error(
                    crate::diagnostics::ostr(self.model),
                    crate::diagnostics::ostr(self.api_base),
                    self.prompt_version@,
                ),
            ),
    {
        match &self.model {
            Some(model) => {
                let mc = chars_of(model.as_str());
                let prefix = chars_of("gpt-5.4");
                if !starts_with_exec(&mc, &prefix) {
                    return Err(
                        concat3_str(
                            "Invalid ansorum.eval.model `",
                            model.as_str(),
                            "`: Ansorum eval currently supports GPT-5.4 family models only",
                        ),
                    );
                }
            },
            None => {},
        }
        match &self.api_base {
            Some(api_base) => match url_scheme(api_base.as_str()) {
                None => {
                    return Err(
                        concat3_str(
                            "Invalid ansorum.eval.api_base `",
                            api_base.as_str(),
                            "`: expected an absolute URL",
                        ),
                    );
                },
                Some(scheme) => {
                    if !str_eq(scheme.as_str(), "http") && !str_eq(scheme.as_str(), "https") {
                        return Err(
                            concat3_str(
                                "Invalid ansorum.eval.api_base `",
                                api_base.as_str(),
                                "`: only http and https URLs are supported",
                            ),
                        );
                    }
                },
            },
            None => {},
        }
        let pv = chars_of(self.prompt_version.as_str());
        let t = trim_exec(&pv);
        if t.len() == 0 {
            return Err("ansorum.eval.prompt_version cannot be empty".to_owned());
        }
        Ok(())
    }
}

impl Delivery {
    pub fn validate(&self) -> (r: Result<(), String>)
        ensures
            res_view(r) == if self.markdown_negotiation && !self.markdown_routes {
                Err::<(), Seq<char>>(
                    "Invalid ansorum.delivery configuration: markdown_negotiation requires markdown_routes to be enabled"@,
                )
            } else {
                Ok(())
            },
    {
        if self.markdown_negotiation && !self.markdown_routes {
            return Err(
                "Invalid ansorum.delivery configuration: markdown_negotiation requires markdown_routes to be enabled".to_owned(),
            );
        }
        Ok(())
    }
}

/// The first problem with the `[ansorum]` settings, if any: redirects, then
/// packs, eval and delivery.
pub open spec fn ansorum_error(a: Ansorum) -> Option<Seq<char>> {
    match allowlist_error(strs(a.redirects.external_host_allowlist@), 0) {
        Some(e) => Some(e),
        None => match packs_error(pack_entries(a.packs.curated@), 0) {
            Some(e) => Some(e),
            None => match eval_error(
                crate::diagnostics::ostr(a.eval.model),
                crate::diagnostics::ostr(a.eval.api_base),
                a.eval.prompt_version@,
            ) {
                Some(e) => Some(e),
                None => if a.delivery.markdown_negotiation && !a.delivery.markdown_routes {
                    Some(
                        "Invalid ansorum.delivery configuration: markdown_negotiation requires markdown_routes to be enabled"@,
                    )
                } else {
                    None
                },
            },
        },
    }
}

impl Ansorum {
    pub fn validate(&self) -> (r: Result<(), String>)
        ensures
            res_view(r) == unit_or(ansorum_error(*self)),
    {
        self.redirects.validate()?;
        self.packs.validate()?;
        self.eval.validate()?;
        self.delivery.validate()?;
        Ok(())
    }
}

} // verus!
