//! Site-wide JSON-LD of every page and section: the WebSite, the publishing
//! Organization, the WebPage itself and its breadcrumb trail.

use vstd::prelude::*;

use crate::diagnostics::{ostr, strs};
use crate::json::{
    entries_v, json_object, jv, lemma_jv_object, object_from, push_entry as put, Json, JsonV,
};
use crate::library::{Library, Page, Section};
use crate::llms::{permalink, SiteSettings};
use crate::structured::{js, lemma_jv_array};
use crate::text::{
    chars_of, decimal, decimal_u128, extend, extend_str, starts_with, starts_with_exec, str_eq,
    string_of, trim, trim_exec,
};

verus! {

/// The site settings the JSON-LD graph reads beyond the basic ones: whether
/// the site has a search index, and the `[extra]` schema values (each a
/// string found at its key; `organization_same_as` the strings of its array).
#[derive(Debug)]
pub struct SchemaSettings {
    pub build_search_index: bool,
    /// `extra.schema.organization_name`
    pub organization_name: Option<String>,
    /// `extra.schema.organization_url`
    pub organization_url: Option<String>,
    /// `extra.schema.organization_logo`
    pub organization_logo: Option<String>,
    /// `extra.logo`
    pub logo: Option<String>,
    /// `extra.og_image`
    pub og_image: Option<String>,
    /// `extra.schema.organization_same_as`
    pub organization_same_as: Vec<String>,
}

/// The host of the URL that `url::Url::parse` reads from a text, if it reads
/// one with a host.
pub uninterp spec fn parsed_url_host(text: Seq<char>) -> Option<Seq<char>>;

/// `url::Url::parse(text)` and, on success, its `host_str()`; the result is
/// named by `parsed_url_host`.
#[verifier::external_body]
fn url_host(text: &str) -> (r: Option<String>)
    ensures
        match r {
            Some(h) => parsed_url_host(text@) == Some(h@),
            None => parsed_url_host(text@) is None,
        },
{
    match url::Url::parse(text) {
        Ok(url) => url.host_str().map(|h| h.to_string()),
        Err(_) => None,
    }
}

// ---------------------------------------------------------------------------
// Model
// ---------------------------------------------------------------------------

pub open spec fn blank(s: Seq<char>) -> bool {
    trim(s).len() == 0
}

/// The value, unless it is missing or blank.
pub open spec fn filled(o: Option<Seq<char>>) -> Option<Seq<char>> {
    match o {
        Some(t) => if blank(t) {
            None
        } else {
            Some(t)
        },
        None => None,
    }
}

pub open spec fn or_else(a: Option<Seq<char>>, b: Option<Seq<char>>) -> Option<Seq<char>> {
    if a is Some {
        a
    } else {
        b
    }
}

pub open spec fn obj(es: Seq<(Seq<char>, JsonV)>) -> JsonV {
    JsonV::Object(object_from(es))
}

pub open spec fn opt_js(o: Option<Seq<char>>) -> Option<JsonV> {
    match o {
        Some(t) => Some(js(t)),
        None => None,
    }
}

pub open spec fn opt_entry(k: Seq<char>, v: Option<JsonV>) -> Seq<(Seq<char>, JsonV)> {
    match v {
        Some(x) => seq![(k, x)],
        None => seq![],
    }
}

/// `{"@id": id}`.
pub open spec fn id_ref(id: Seq<char>) -> JsonV {
    obj(seq![("@id"@, js(id))])
}

pub open spec fn home_url(site: &SiteSettings) -> Seq<char> {
    permalink(site.base_url@, strs(site.feed_filenames@), "/"@)
}

pub open spec fn site_name(site: &SiteSettings) -> Seq<char> {
    match filled(ostr(site.title)) {
        Some(t) => t,
        None => "Site"@,
    }
}

pub open spec fn is_external(v: Seq<char>) -> bool {
    starts_with(v, "http:"@) || starts_with(v, "https:"@)
}

/// An external link as it is; anything else made a permalink of the site.
pub open spec fn normalized_url(site: &SiteSettings, v: Seq<char>) -> Seq<char> {
    if is_external(v) {
        v
    } else {
        permalink(site.base_url@, strs(site.feed_filenames@), v)
    }
}

pub open spec fn organization_name(site: &SiteSettings, ex: &SchemaSettings) -> Seq<char> {
    match ostr(ex.organization_name) {
        Some(n) => n,
        None => match ostr(site.title) {
            Some(t) => t,
            None => match parsed_url_host(home_url(site)) {
                Some(h) => h,
                None => "Organization"@,
            },
        },
    }
}

pub open spec fn organization_url(site: &SiteSettings, ex: &SchemaSettings) -> Seq<char> {
    match ostr(ex.organization_url) {
        Some(u) => normalized_url(site, u),
        None => home_url(site),
    }
}

pub open spec fn organization_logo(site: &SiteSettings, ex: &SchemaSettings) -> Option<Seq<char>> {
    match or_else(or_else(ostr(ex.organization_logo), ostr(ex.logo)), ostr(ex.og_image)) {
        Some(v) => Some(normalized_url(site, v)),
        None => None,
    }
}

pub open spec fn search_action(home: Seq<char>) -> JsonV {
    obj(
        seq![
            ("@type"@, js("SearchAction"@)),
            (
                "target"@,
                obj(
                    seq![
                        ("@type"@, js("EntryPoint"@)),
                        ("urlTemplate"@, js(home + "?q={search_term_string}"@)),
                    ],
                ),
            ),
            ("query-input"@, js("required name=search_term_string"@)),
        ],
    )
}

/// The `WebSite` node.
pub open spec fn website_node(site: &SiteSettings, ex: &SchemaSettings, lang: Seq<char>) -> JsonV {
    let home = home_url(site);
    obj(
        seq![
            ("@type"@, js("WebSite"@)),
            ("@id"@, js(home + "#website"@)),
            ("url"@, js(home)),
            ("name"@, js(site_name(site))),
        ] + opt_entry("description"@, opt_js(filled(ostr(site.description)))) + seq![
            ("inLanguage"@, js(lang)),
            ("publisher"@, id_ref(home + "#organization"@)),
        ] + if ex.build_search_index {
            seq![("potentialAction"@, search_action(home))]
        } else {
            seq![]
        },
    )
}

pub open spec fn logo_node(url: Seq<char>) -> JsonV {
    obj(seq![("@type"@, js("ImageObject"@)), ("url"@, js(url))])
}

/// The `Organization` node.
pub open spec fn organization_node(site: &SiteSettings, ex: &SchemaSettings) -> JsonV {
    let home = home_url(site);
    obj(
        seq![
            ("@type"@, js("Organization"@)),
            ("@id"@, js(home + "#organization"@)),
            ("name"@, js(organization_name(site, ex))),
            ("url"@, js(organization_url(site, ex))),
        ] + opt_entry(
            "logo"@,
            match organization_logo(site, ex) {
                Some(l) => Some(logo_node(l)),
                None => None,
            },
        ) + if ex.organization_same_as@.len() > 0 {
            seq![
                (
                    "sameAs"@,
                    JsonV::Array(strs(ex.organization_same_as@).map_values(|s: Seq<char>| js(s))),
                ),
            ]
        } else {
            seq![]
        },
    )
}

/// The `WebPage` node of a page or section.
pub open spec fn webpage_node(
    url: Seq<char>,
    title: Seq<char>,
    description: Option<Seq<char>>,
    lang: Seq<char>,
    date_published: Option<Seq<char>>,
    date_modified: Option<Seq<char>>,
    breadcrumb_id: Option<Seq<char>>,
    home: Seq<char>,
) -> JsonV {
    obj(
        seq![
            ("@type"@, js("WebPage"@)),
            ("@id"@, js(url + "#webpage"@)),
            ("url"@, js(url)),
            ("isPartOf"@, id_ref(home + "#website"@)),
            ("publisher"@, id_ref(home + "#organization"@)),
            ("inLanguage"@, js(lang)),
        ] + (if blank(title) {
            Seq::<(Seq<char>, JsonV)>::empty()
        } else {
            seq![("name"@, js(title))]
        }) + opt_entry("description"@, opt_js(filled(description))) + opt_entry(
            "datePublished"@,
            opt_js(filled(date_published)),
        ) + opt_entry("dateModified"@, opt_js(filled(date_modified))) + opt_entry(
            "breadcrumb"@,
            match breadcrumb_id {
                Some(id) => Some(id_ref(id)),
                None => None,
            },
        ),
    )
}

/// One `ListItem` of a breadcrumb trail.
pub open spec fn breadcrumb_item(position: nat, name: Seq<char>, item: Seq<char>) -> JsonV {
    obj(
        seq![
            ("@type"@, js("ListItem"@)),
            ("position"@, JsonV::Number(decimal(position))),
            ("name"@, js(name)),
            ("item"@, js(item)),
        ],
    )
}

/// The index of the first section with the given source path.
pub open spec fn find_section(secs: Seq<Section>, key: Seq<char>) -> Option<int>
    decreases secs.len(),
{
    if secs.len() == 0 {
        None
    } else if secs[0].source_path@ == key {
        Some(0)
    } else {
        match find_section(secs.skip(1), key) {
            Some(i) => Some(i + 1),
            None => None,
        }
    }
}

pub open spec fn section_title(s: Section, site: &SiteSettings) -> Seq<char> {
    match filled(ostr(s.title)) {
        Some(t) => t,
        None => match filled(ostr(site.title)) {
            Some(t) => t,
            None => "Home"@,
        },
    }
}

pub open spec fn section_description(s: Section, site: &SiteSettings) -> Option<Seq<char>> {
    or_else(filled(ostr(s.description)), filled(ostr(site.description)))
}

pub open spec fn page_title(p: &Page, site: &SiteSettings) -> Seq<char> {
    if !blank(p.answer_title@) {
        p.answer_title@
    } else {
        match ostr(site.title) {
            Some(t) => t,
            None => "Page"@,
        }
    }
}

pub open spec fn answer_summary(p: &Page) -> Option<Seq<char>> {
    match p.answer {
        Some(a) => Some(a.summary@),
        None => None,
    }
}

pub open spec fn page_description(p: &Page, site: &SiteSettings) -> Option<Seq<char>> {
    or_else(
        or_else(or_else(filled(ostr(p.description)), filled(ostr(p.summary))), answer_summary(p)),
        filled(ostr(site.description)),
    )
}

/// The breadcrumb items of the ancestors that are sections of the library
/// (the home section left out when `skip_root`), numbered from `position`.
pub open spec fn ancestor_items(
    secs: Seq<Section>,
    site: &SiteSettings,
    anc: Seq<Seq<char>>,
    position: nat,
    skip_root: bool,
) -> Seq<JsonV>
    decreases anc.len(),
{
    if anc.len() == 0 {
        seq![]
    } else {
        match find_section(secs, anc[0]) {
            Some(i) => if skip_root && secs[i].path@ == "/"@ {
                ancestor_items(secs, site, anc.skip(1), position, skip_root)
            } else {
                seq![breadcrumb_item(position, section_title(secs[i], site), secs[i].permalink@)]
                    + ancestor_items(secs, site, anc.skip(1), position + 1, skip_root)
            },
            None => ancestor_items(secs, site, anc.skip(1), position, skip_root),
        }
    }
}

pub open spec fn breadcrumb_list(permalink: Seq<char>, items: Seq<JsonV>) -> JsonV {
    obj(
        seq![
            ("@type"@, js("BreadcrumbList"@)),
            ("@id"@, js(permalink + "#breadcrumb"@)),
            ("itemListElement"@, JsonV::Array(items)),
        ],
    )
}

/// The breadcrumb trail of a page: home, its ancestor sections, the page;
/// none for a page without a title.
pub open spec fn page_breadcrumb(p: &Page, site: &SiteSettings, lib: &Library) -> Option<JsonV> {
    let title = page_title(p, site);
    if blank(title) {
        None
    } else {
        let mid = ancestor_items(lib.sections@, site, strs(p.ancestors@), 2, false);
        Some(
            breadcrumb_list(
                p.permalink@,
                seq![breadcrumb_item(1, site_name(site), home_url(site))] + mid + seq![
                    breadcrumb_item(2 + mid.len(), title, p.permalink@),
                ],
            ),
        )
    }
}

/// The breadcrumb trail of a section: home, its ancestor sections but the
/// home section, the section; none for the home section.
pub open spec fn section_breadcrumb(s: &Section, site: &SiteSettings, lib: &Library) -> Option<
    JsonV,
> {
    if s.path@ == "/"@ {
        None
    } else {
        let mid = ancestor_items(lib.sections@, site, strs(s.ancestors@), 2, true);
        Some(
            breadcrumb_list(
                s.permalink@,
                seq![breadcrumb_item(1, site_name(site), home_url(site))] + mid + seq![
                    breadcrumb_item(2 + mid.len(), section_title(*s, site), s.permalink@),
                ],
            ),
        )
    }
}

pub open spec fn crumb_id(permalink: Seq<char>, b: Option<JsonV>) -> Option<Seq<char>> {
    if b is Some {
        Some(permalink + "#breadcrumb"@)
    } else {
        None
    }
}

pub open spec fn opt_node(b: Option<JsonV>) -> Seq<JsonV> {
    match b {
        Some(x) => seq![x],
        None => seq![],
    }
}

/// The JSON-LD document of a graph.
pub open spec fn graph_document(graph: Seq<JsonV>) -> JsonV {
    obj(seq![("@context"@, js("https://schema.org"@)), ("@graph"@, JsonV::Array(graph))])
}

/// The site JSON-LD of a page.
pub open spec fn page_document(
    p: &Page,
    site: &SiteSettings,
    ex: &SchemaSettings,
    lib: &Library,
) -> JsonV {
    let b = page_breadcrumb(p, site, lib);
    graph_document(
        seq![
            website_node(site, ex, p.lang@),
            organization_node(site, ex),
            webpage_node(
                p.permalink@,
                page_title(p, site),
                page_description(p, site),
                p.lang@,
                ostr(p.date),
                or_else(ostr(p.updated), ostr(p.date)),
                crumb_id(p.permalink@, b),
                home_url(site),
            ),
        ] + opt_node(b),
    )
}

/// The site JSON-LD of a section.
pub open spec fn section_document(
    s: &Section,
    site: &SiteSettings,
    ex: &SchemaSettings,
    lib: &Library,
) -> JsonV {
    let b = section_breadcrumb(s, site, lib);
    graph_document(
        seq![
            website_node(site, ex, s.lang@),
            organization_node(site, ex),
            webpage_node(
                s.permalink@,
                section_title(*s, site),
                section_description(*s, site),
                s.lang@,
                None,
                None,
                crumb_id(s.permalink@, b),
                home_url(site),
            ),
        ] + opt_node(b),
    )
}


// ---------------------------------------------------------------------------
// Construction
// ---------------------------------------------------------------------------

pub open spec fn opt_jv(o: Option<Json>) -> Option<JsonV> {
    match o {
        Some(j) => Some(jv(j)),
        None => None,
    }
}

fn is_blank(s: &str) -> (r: bool)
    ensures
        r == blank(s@),
{
    trim_exec(&chars_of(s)).len() == 0
}

fn copy_opt(o: &Option<String>) -> (r: Option<String>)
    ensures
        ostr(r) == ostr(*o),
{
    match o {
        Some(t) => Some(t.clone()),
        None => None,
    }
}

fn filled_exec(o: &Option<String>) -> (r: Option<String>)
    ensures
        ostr(r) == filled(ostr(*o)),
{
    match o {
        Some(t) => if is_blank(t.as_str()) {
            None
        } else {
            Some(t.clone())
        },
        None => None,
    }
}

fn or_else_exec(a: Option<String>, b: Option<String>) -> (r: Option<String>)
    ensures
        ostr(r) == or_else(ostr(a), ostr(b)),
{
    match a {
        Some(x) => Some(x),
        None => b,
    }
}

fn text_json(t: &[char]) -> (r: Json)
    ensures
        jv(r) == js(t@),
{
    Json::Str(string_of(t))
}

fn str_json(t: &str) -> (r: Json)
    ensures
        jv(r) == js(t@),
{
    Json::Str(t.to_string())
}

fn opt_json(o: Option<String>) -> (r: Option<Json>)
    ensures
        opt_jv(r) == opt_js(ostr(o)),
{
    match o {
        Some(t) => Some(Json::Str(t)),
        None => None,
    }
}

fn concat(a: &str, b: &str) -> (r: Vec<char>)
    ensures
        r@ == a@ + b@,
{
    let mut v: Vec<char> = Vec::new();
    extend_str(&mut v, a);
    extend_str(&mut v, b);
    v
}

fn put_opt(es: &mut Vec<(String, Json)>, key: &str, value: Option<Json>)
    ensures
        entries_v(final(es)@) == entries_v(old(es)@) + opt_entry(key@, opt_jv(value)),
{
    let ghost before = entries_v(es@);
    match value {
        Some(v) => {
            put(es, key, v);
            assert(entries_v(es@) =~= before + opt_entry(key@, opt_jv(Some(v))));
        },
        None => {
            assert(entries_v(es@) =~= before + opt_entry(key@, opt_jv(value)));
        },
    }
}

fn id_ref_exec(id: &[char]) -> (r: Json)
    ensures
        jv(r) == id_ref(id@),
{
    let mut es: Vec<(String, Json)> = Vec::new();
    put(&mut es, "@id", text_json(id));
    assert(entries_v(es@) =~= seq![("@id"@, js(id@))]);
    json_object(es)
}

fn strings_json(v: &Vec<String>) -> (r: Json)
    ensures
        jv(r) == JsonV::Array(strs(v@).map_values(|s: Seq<char>| js(s))),
{
    let mut items: Vec<Json> = Vec::new();
    let mut i: usize = 0;
    while i < v.len()
        invariant
            i <= v@.len(),
            items@.map_values(|j: Json| jv(j)) == strs(v@.take(i as int)).map_values(
                |s: Seq<char>| js(s),
            ),
        decreases v.len() - i,
    {
        let ghost before = items@.map_values(|j: Json| jv(j));
        items.push(Json::Str(v[i].clone()));
        proof {
            assert(strs(v@.take(i + 1)) =~= strs(v@.take(i as int)).push(v@[i as int]@));
            assert(items@.map_values(|j: Json| jv(j)) =~= before.push(js(v@[i as int]@)));
        }
        i += 1;
    }
    assert(v@.take(i as int) =~= v@);
    proof {
        lemma_jv_array(items);
    }
    Json::Array(items)
}

fn home_url_exec(site: &SiteSettings) -> (r: String)
    ensures
        r@ == home_url(site),
{
    site.make_permalink("/")
}

fn site_name_exec(site: &SiteSettings) -> (r: String)
    ensures
        r@ == site_name(site),
{
    match filled_exec(&site.title) {
        Some(t) => t,
        None => "Site".to_string(),
    }
}

fn normalized_url_exec(site: &SiteSettings, v: &str) -> (r: String)
    ensures
        r@ == normalized_url(site, v@),
{
    let c = chars_of(v);
    if starts_with_exec(&c, &chars_of("http:")) || starts_with_exec(&c, &chars_of("https:")) {
        v.to_string()
    } else {
        site.make_permalink(v)
    }
}

fn organization_name_exec(site: &SiteSettings, ex: &SchemaSettings, home: &str) -> (r: String)
    requires
        home@ == home_url(site),
    ensures
        r@ == organization_name(site, ex),
{
    match &ex.organization_name {
        Some(n) => n.clone(),
        None => match &site.title {
            Some(t) => t.clone(),
            None => match url_host(home) {
                Some(h) => h,
                None => "Organization".to_string(),
            },
        },
    }
}

fn organization_url_exec(site: &SiteSettings, ex: &SchemaSettings, home: &str) -> (r: String)
    requires
        home@ == home_url(site),
    ensures
        r@ == organization_url(site, ex),
{
    match &ex.organization_url {
        Some(u) => normalized_url_exec(site, u.as_str()),
        None => home.to_string(),
    }
}

fn organization_logo_exec(site: &SiteSettings, ex: &SchemaSettings) -> (r: Option<String>)
    ensures
        ostr(r) == organization_logo(site, ex),
{
    let v = or_else_exec(
        or_else_exec(copy_opt(&ex.organization_logo), copy_opt(&ex.logo)),
        copy_opt(&ex.og_image),
    );
    match v {
        Some(x) => Some(normalized_url_exec(site, x.as_str())),
        None => None,
    }
}

fn search_action_exec(home: &str) -> (r: Json)
    ensures
        jv(r) == search_action(home@),
{
    let mut target: Vec<(String, Json)> = Vec::new();
    put(&mut target, "@type", str_json("EntryPoint"));
    put(&mut target, "urlTemplate", text_json(&concat(home, "?q={search_term_string}")));
    assert(entries_v(target@) =~= seq![
        ("@type"@, js("EntryPoint"@)),
        ("urlTemplate"@, js(home@ + "?q={search_term_string}"@)),
    ]);
    let t = json_object(target);
    let mut es: Vec<(String, Json)> = Vec::new();
    put(&mut es, "@type", str_json("SearchAction"));
    put(&mut es, "target", t);
    put(&mut es, "query-input", str_json("required name=search_term_string"));
    assert(entries_v(es@) =~= seq![
        ("@type"@, js("SearchAction"@)),
        (
            "target"@,
            obj(
                seq![
                    ("@type"@, js("EntryPoint"@)),
                    ("urlTemplate"@, js(home@ + "?q={search_term_string}"@)),
                ],
            ),
        ),
        ("query-input"@, js("required name=search_term_string"@)),
    ]);
    json_object(es)
}

fn website_exec(site: &SiteSettings, ex: &SchemaSettings, lang: &str, home: &str) -> (r: Json)
    requires
        home@ == home_url(site),
    ensures
        jv(r) == website_node(site, ex, lang@),
{
    let mut es: Vec<(String, Json)> = Vec::new();
    put(&mut es, "@type", str_json("WebSite"));
    put(&mut es, "@id", text_json(&concat(home, "#website")));
    put(&mut es, "url", str_json(home));
    put(&mut es, "name", Json::Str(site_name_exec(site)));
    let ghost a = entries_v(es@);
    put_opt(&mut es, "description", opt_json(filled_exec(&site.description)));
    let ghost b = entries_v(es@);
    put(&mut es, "inLanguage", str_json(lang));
    put(&mut es, "publisher", id_ref_exec(&concat(home, "#organization")));
    let ghost c = entries_v(es@);
    assert(c =~= b + seq![
        ("inLanguage"@, js(lang@)),
        ("publisher"@, id_ref(home@ + "#organization"@)),
    ]);
    if ex.build_search_index {
        put(&mut es, "potentialAction", search_action_exec(home));
    }
    assert(entries_v(es@) =~= seq![
        ("@type"@, js("WebSite"@)),
        ("@id"@, js(home@ + "#website"@)),
        ("url"@, js(home@)),
        ("name"@, js(site_name(site))),
    ] + opt_entry("description"@, opt_js(filled(ostr(site.description)))) + seq![
        ("inLanguage"@, js(lang@)),
        ("publisher"@, id_ref(home@ + "#organization"@)),
    ] + if ex.build_search_index {
        seq![("potentialAction"@, search_action(home@))]
    } else {
        seq![]
    });
    json_object(es)
}

fn organization_exec(site: &SiteSettings, ex: &SchemaSettings, home: &str) -> (r: Json)
    requires
        home@ == home_url(site),
    ensures
        jv(r) == organization_node(site, ex),
{
    let mut es: Vec<(String, Json)> = Vec::new();
    put(&mut es, "@type", str_json("Organization"));
    put(&mut es, "@id", text_json(&concat(home, "#organization")));
    put(&mut es, "name", Json::Str(organization_name_exec(site, ex, home)));
    put(&mut es, "url", Json::Str(organization_url_exec(site, ex, home)));
    let ghost a = entries_v(es@);
    let logo = match organization_logo_exec(site, ex) {
        Some(l) => {
            let mut le: Vec<(String, Json)> = Vec::new();
            put(&mut le, "@type", str_json("ImageObject"));
            put(&mut le, "url", Json::Str(l));
            assert(entries_v(le@) =~= seq![("@type"@, js("ImageObject"@)), ("url"@, js(l@))]);
            Some(json_object(le))
        },
        None => None,
    };
    assert(opt_jv(logo) == match organization_logo(site, ex) {
        Some(l) => Some(logo_node(l)),
        None => None::<JsonV>,
    });
    put_opt(&mut es, "logo", logo);
    let ghost b = entries_v(es@);
    if ex.organization_same_as.len() > 0 {
        put(&mut es, "sameAs", strings_json(&ex.organization_same_as));
    }
    assert(entries_v(es@) =~= seq![
        ("@type"@, js("Organization"@)),
        ("@id"@, js(home@ + "#organization"@)),
        ("name"@, js(organization_name(site, ex))),
        ("url"@, js(organization_url(site, ex))),
    ] + opt_entry(
        "logo"@,
        match organization_logo(site, ex) {
            Some(l) => Some(logo_node(l)),
            None => None,
        },
    ) + if ex.organization_same_as@.len() > 0 {
        seq![
            (
                "sameAs"@,
                JsonV::Array(strs(ex.organization_same_as@).map_values(|s: Seq<char>| js(s))),
            ),
        ]
    } else {
        seq![]
    });
    json_object(es)
}

fn webpage_exec(
    url: &str,
    title: &str,
    description: Option<String>,
    lang: &str,
    date_published: Option<String>,
    date_modified: Option<String>,
    breadcrumb_id: Option<Vec<char>>,
    home: &str,
) -> (r: Json)
    ensures
        jv(r) == webpage_node(
            url@,
            title@,
            ostr(description),
            lang@,
            ostr(date_published),
            ostr(date_modified),
            match breadcrumb_id {
                Some(b) => Some(b@),
                None => None,
            },
            home@,
        ),
{
    let mut es: Vec<(String, Json)> = Vec::new();
    put(&mut es, "@type", str_json("WebPage"));
    put(&mut es, "@id", text_json(&concat(url, "#webpage")));
    put(&mut es, "url", str_json(url));
    put(&mut es, "isPartOf", id_ref_exec(&concat(home, "#website")));
    put(&mut es, "publisher", id_ref_exec(&concat(home, "#organization")));
    put(&mut es, "inLanguage", str_json(lang));
    let ghost a = entries_v(es@);
    if !is_blank(title) {
        put(&mut es, "name", str_json(title));
    }
    let ghost b = entries_v(es@);
    assert(b =~= a + (if blank(title@) {
        Seq::<(Seq<char>, JsonV)>::empty()
    } else {
        seq![("name"@, js(title@))]
    }));
    put_opt(&mut es, "description", opt_json(filled_exec(&description)));
    put_opt(&mut es, "datePublished", opt_json(filled_exec(&date_published)));
    put_opt(&mut es, "dateModified", opt_json(filled_exec(&date_modified)));
    let ghost bid: Option<Seq<char>> = match &breadcrumb_id {
        Some(b) => Some(b@),
        None => None,
    };
    let crumb = match breadcrumb_id {
        Some(b) => Some(id_ref_exec(&b)),
        None => None,
    };
    assert(opt_jv(crumb) == match bid {
        Some(id) => Some(id_ref(id)),
        None => None::<JsonV>,
    });
    put_opt(&mut es, "breadcrumb", crumb);
    assert(entries_v(es@) =~= seq![
        ("@type"@, js("WebPage"@)),
        ("@id"@, js(url@ + "#webpage"@)),
        ("url"@, js(url@)),
        ("isPartOf"@, id_ref(home@ + "#website"@)),
        ("publisher"@, id_ref(home@ + "#organization"@)),
        ("inLanguage"@, js(lang@)),
    ] + (if blank(title@) {
        Seq::<(Seq<char>, JsonV)>::empty()
    } else {
        seq![("name"@, js(title@))]
    }) + opt_entry("description"@, opt_js(filled(ostr(description)))) + opt_entry(
        "datePublished"@,
        opt_js(filled(ostr(date_published))),
    ) + opt_entry("dateModified"@, opt_js(filled(ostr(date_modified)))) + opt_entry(
        "breadcrumb"@,
        match bid {
            Some(id) => Some(id_ref(id)),
            None => None,
        },
    ));
    json_object(es)
}

fn breadcrumb_item_exec(position: u128, name: &str, item: &str) -> (r: Json)
    ensures
        jv(r) == breadcrumb_item(position as nat, name@, item@),
{
    let mut es: Vec<(String, Json)> = Vec::new();
    put(&mut es, "@type", str_json("ListItem"));
    put(&mut es, "position", Json::Number(string_of(&decimal_u128(position))));
    put(&mut es, "name", str_json(name));
    put(&mut es, "item", str_json(item));
    assert(entries_v(es@) =~= seq![
        ("@type"@, js("ListItem"@)),
        ("position"@, JsonV::Number(decimal(position as nat))),
        ("name"@, js(name@)),
        ("item"@, js(item@)),
    ]);
    json_object(es)
}

fn find_section_exec(secs: &Vec<Section>, key: &str) -> (r: Option<usize>)
    ensures
        match r {
            Some(i) => find_section(secs@, key@) == Some(i as int) && i < secs@.len(),
            None => find_section(secs@, key@) is None,
        },
{
    let mut j: usize = 0;
    assert(secs@.skip(0) =~= secs@);
    while j < secs.len()
        invariant
            j <= secs@.len(),
            find_section(secs@, key@) == match find_section(secs@.skip(j as int), key@) {
                Some(i) => Some(i + j),
                None => None,
            },
        decreases secs.len() - j,
    {
        assert(secs@.skip(j as int)[0] == secs@[j as int]);
        if str_eq(secs[j].source_path.as_str(), key) {
            return Some(j);
        }
        assert(secs@.skip(j as int).skip(1) =~= secs@.skip(j + 1));
        j += 1;
    }
    assert(secs@.skip(j as int) =~= Seq::<Section>::empty());
    None
}

fn section_title_exec(s: &Section, site: &SiteSettings) -> (r: String)
    ensures
        r@ == section_title(*s, site),
{
    match filled_exec(&s.title) {
        Some(t) => t,
        None => match filled_exec(&site.title) {
            Some(t) => t,
            None => "Home".to_string(),
        },
    }
}

pub open spec fn jvs(v: Seq<Json>) -> Seq<JsonV> {
    v.map_values(|j: Json| jv(j))
}

/// The breadcrumb trail: the home item, the ancestor items, the last item.
fn trail_exec(
    lib: &Library,
    site: &SiteSettings,
    anc: &Vec<String>,
    skip_root: bool,
    home: &str,
    last_name: &str,
    last_item: &str,
) -> (r: Vec<Json>)
    requires
        home@ == home_url(site),
    ensures
        jvs(r@) == seq![breadcrumb_item(1, site_name(site), home_url(site))] + ancestor_items(
            lib.sections@,
            site,
            strs(anc@),
            2,
            skip_root,
        ) + seq![
            breadcrumb_item(
                2 + ancestor_items(lib.sections@, site, strs(anc@), 2, skip_root).len(),
                last_name@,
                last_item@,
            ),
        ],
{
    let ghost secs = lib.sections@;
    let ghost all = strs(anc@);
    let ghost mid = ancestor_items(secs, site, all, 2, skip_root);
    let mut items: Vec<Json> = Vec::new();
    let name = site_name_exec(site);
    items.push(breadcrumb_item_exec(1, name.as_str(), home));
    let ghost first = seq![breadcrumb_item(1, site_name(site), home_url(site))];
    assert(jvs(items@) =~= first);
    let mut position: u128 = 2;
    let mut i: usize = 0;
    assert(all.skip(0) =~= all);
    while i < anc.len()
        invariant
            i <= anc@.len(),
            all == strs(anc@),
            secs == lib.sections@,
            mid == ancestor_items(secs, site, all, 2, skip_root),
            position == jvs(items@).len() + 1,
            position <= i + 2,
            jvs(items@).len() >= 1,
            jvs(items@).subrange(0, 1) == first,
            jvs(items@).skip(1) + ancestor_items(
                secs,
                site,
                all.skip(i as int),
                position as nat,
                skip_root,
            ) == mid,
        decreases anc.len() - i,
    {
        let ghost rest = all.skip(i as int);
        assert(rest[0] == anc@[i as int]@);
        assert(rest.skip(1) =~= all.skip(i + 1));
        let ghost before = jvs(items@);
        match find_section_exec(&lib.sections, anc[i].as_str()) {
            Some(k) => {
                let s = &lib.sections[k];
                if skip_root && str_eq(s.path.as_str(), "/") {
                } else {
                    let t = section_title_exec(s, site);
                    items.push(breadcrumb_item_exec(position, t.as_str(), s.permalink.as_str()));
                    assert(jvs(items@) =~= before.push(
                        breadcrumb_item(position as nat, section_title(secs[k as int], site), secs[k as int].permalink@),
                    ));
                    assert(jvs(items@).subrange(0, 1) =~= before.subrange(0, 1));
                    assert(jvs(items@).skip(1) =~= before.skip(1).push(
                        breadcrumb_item(position as nat, section_title(secs[k as int], site), secs[k as int].permalink@),
                    ));
                    position = position + 1;
                }
            },
            None => {},
        }
        i += 1;
    }
    assert(all.skip(i as int) =~= Seq::<Seq<char>>::empty());
    assert(jvs(items@).skip(1) =~= mid);
    let ghost before = jvs(items@);
    items.push(breadcrumb_item_exec(position, last_name, last_item));
    assert(before =~= first + mid) by {
        assert(before =~= before.subrange(0, 1) + before.skip(1));
    }
    assert(jvs(items@) =~= before.push(
        breadcrumb_item(2 + mid.len(), last_name@, last_item@),
    ));
    items
}

fn breadcrumb_list_exec(permalink: &str, items: Vec<Json>) -> (r: Json)
    ensures
        jv(r) == breadcrumb_list(permalink@, jvs(items@)),
{
    let ghost iv = jvs(items@);
    proof {
        lemma_jv_array(items);
    }
    let mut es: Vec<(String, Json)> = Vec::new();
    put(&mut es, "@type", str_json("BreadcrumbList"));
    put(&mut es, "@id", text_json(&concat(permalink, "#breadcrumb")));
    put(&mut es, "itemListElement", Json::Array(items));
    assert(entries_v(es@) =~= seq![
        ("@type"@, js("BreadcrumbList"@)),
        ("@id"@, js(permalink@ + "#breadcrumb"@)),
        ("itemListElement"@, JsonV::Array(iv)),
    ]);
    json_object(es)
}

fn page_title_exec(p: &Page, site: &SiteSettings) -> (r: String)
    ensures
        r@ == page_title(p, site),
{
    if !is_blank(p.answer_title.as_str()) {
        p.answer_title.clone()
    } else {
        match &site.title {
            Some(t) => t.clone(),
            None => "Page".to_string(),
        }
    }
}

fn page_description_exec(p: &Page, site: &SiteSettings) -> (r: Option<String>)
    ensures
        ostr(r) == page_description(p, site),
{
    let summary = match &p.answer {
        Some(a) => Some(a.summary.clone()),
        None => None,
    };
    or_else_exec(
        or_else_exec(
            or_else_exec(filled_exec(&p.description), filled_exec(&p.summary)),
            summary,
        ),
        filled_exec(&site.description),
    )
}

fn page_breadcrumb_exec(p: &Page, site: &SiteSettings, lib: &Library, home: &str) -> (r: Option<
    Json,
>)
    requires
        home@ == home_url(site),
    ensures
        opt_jv(r) == page_breadcrumb(p, site, lib),
{
    let title = page_title_exec(p, site);
    if is_blank(title.as_str()) {
        return None;
    }
    let items = trail_exec(
        lib,
        site,
        &p.ancestors,
        false,
        home,
        title.as_str(),
        p.permalink.as_str(),
    );
    Some(breadcrumb_list_exec(p.permalink.as_str(), items))
}

fn section_breadcrumb_exec(s: &Section, site: &SiteSettings, lib: &Library, home: &str) -> (r:
    Option<Json>)
    requires
        home@ == home_url(site),
    ensures
        opt_jv(r) == section_breadcrumb(s, site, lib),
{
    if str_eq(s.path.as_str(), "/") {
        return None;
    }
    let title = section_title_exec(s, site);
    let items = trail_exec(
        lib,
        site,
        &s.ancestors,
        true,
        home,
        title.as_str(),
        s.permalink.as_str(),
    );
    Some(breadcrumb_list_exec(s.permalink.as_str(), items))
}

fn document_exec(graph: Vec<Json>) -> (r: Json)
    ensures
        jv(r) == graph_document(jvs(graph@)),
{
    let ghost gv = jvs(graph@);
    proof {
        lemma_jv_array(graph);
    }
    let mut es: Vec<(String, Json)> = Vec::new();
    put(&mut es, "@context", str_json("https://schema.org"));
    put(&mut es, "@graph", Json::Array(graph));
    assert(entries_v(es@) =~= seq![
        ("@context"@, js("https://schema.org"@)),
        ("@graph"@, JsonV::Array(gv)),
    ]);
    json_object(es)
}

fn crumb_id_exec(permalink: &str, b: &Option<Json>) -> (r: Option<Vec<char>>)
    ensures
        match r {
            Some(v) => crumb_id(permalink@, opt_jv(*b)) == Some(v@),
            None => crumb_id(permalink@, opt_jv(*b)) is None,
        },
{
    match b {
        Some(_) => Some(concat(permalink, "#breadcrumb")),
        None => None,
    }
}

/// The site-wide JSON-LD document of a page.
pub fn site_structured_data_for_page(
    page: &Page,
    site: &SiteSettings,
    schema: &SchemaSettings,
    library: &Library,
) -> (r: Json)
    ensures
        jv(r) == page_document(page, site, schema, library),
{
    let home = home_url_exec(site);
    let b = page_breadcrumb_exec(page, site, library, home.as_str());
    let id = crumb_id_exec(page.permalink.as_str(), &b);
    let ghost idv: Option<Seq<char>> = match &id {
        Some(v) => Some(v@),
        None => None,
    };
    let modified = or_else_exec(copy_opt(&page.updated), copy_opt(&page.date));
    let mut graph: Vec<Json> = Vec::new();
    graph.push(website_exec(site, schema, page.lang.as_str(), home.as_str()));
    graph.push(organization_exec(site, schema, home.as_str()));
    let title = page_title_exec(page, site);
    graph.push(
        webpage_exec(
            page.permalink.as_str(),
            title.as_str(),
            page_description_exec(page, site),
            page.lang.as_str(),
            copy_opt(&page.date),
            modified,
            id,
            home.as_str(),
        ),
    );
    let ghost three = jvs(graph@);
    assert(three =~= seq![
        website_node(site, schema, page.lang@),
        organization_node(site, schema),
        webpage_node(
            page.permalink@,
            page_title(page, site),
            page_description(page, site),
            page.lang@,
            ostr(page.date),
            or_else(ostr(page.updated), ostr(page.date)),
            crumb_id(page.permalink@, page_breadcrumb(page, site, library)),
            home_url(site),
        ),
    ]);
    match b {
        Some(x) => graph.push(x),
        None => {},
    }
    assert(jvs(graph@) =~= three + opt_node(page_breadcrumb(page, site, library)));
    document_exec(graph)
}

/// The site-wide JSON-LD document of a section.
pub fn site_structured_data_for_section(
    section: &Section,
    site: &SiteSettings,
    schema: &SchemaSettings,
    library: &Library,
) -> (r: Json)
    ensures
        jv(r) == section_document(section, site, schema, library),
{
    let home = home_url_exec(site);
    let b = section_breadcrumb_exec(section, site, library, home.as_str());
    let id = crumb_id_exec(section.permalink.as_str(), &b);
    let mut graph: Vec<Json> = Vec::new();
    graph.push(website_exec(site, schema, section.lang.as_str(), home.as_str()));
    graph.push(organization_exec(site, schema, home.as_str()));
    let title = section_title_exec(section, site);
    let description = or_else_exec(filled_exec(&section.description), filled_exec(&site.description));
    graph.push(
        webpage_exec(
            section.permalink.as_str(),
            title.as_str(),
            description,
            section.lang.as_str(),
            None,
            None,
            id,
            home.as_str(),
        ),
    );
    let ghost three = jvs(graph@);
    assert(three =~= seq![
        website_node(site, schema, section.lang@),
        organization_node(site, schema),
        webpage_node(
            section.permalink@,
            section_title(*section, site),
            section_description(*section, site),
            section.lang@,
            None,
            None,
            crumb_id(section.permalink@, section_breadcrumb(section, site, library)),
            home_url(site),
        ),
    ]);
    match b {
        Some(x) => graph.push(x),
        None => {},
    }
    assert(jvs(graph@) =~= three + opt_node(section_breadcrumb(section, site, library)));
    document_exec(graph)
}

} // verus!
