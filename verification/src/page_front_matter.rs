//! The front matter of a content page once read: its checks, its dates and
//! the typed answer metadata it carries.

use vstd::prelude::*;

use crate::answer::{
    AiVisibility, AnswerAudience, AnswerFrontMatter, AnswerIntent, AnswerVisibility, LlmsPriority,
    TokenBudget,
};
use crate::diagnostics::{clone_strings, ostr, strs};
use crate::front_matter::{
    answer_of, answer_view, merged_raw, spec_has_data, RawAnswerFrontMatter, RawAnswerV,
};
use crate::json::{entries_v, jv, lemma_jv_object, obj_index, Json, JsonV};
use crate::text::{chars_of, extend_str, string_of, trim, trim_exec};

verus! {

/// Page front matter as read, before its checks. `extra` is the page's
/// `[extra]` table without its `answer` entry, which arrives separately.
#[derive(Debug)]
pub struct PageFrontMatterRaw {
    pub title: Option<String>,
    pub description: Option<String>,
    pub updated: Option<String>,
    pub date: Option<String>,
    pub draft: bool,
    pub render: bool,
    pub slug: Option<String>,
    pub path: Option<String>,
    /// Terms per taxonomy.
    pub taxonomies: Vec<(String, Vec<String>)>,
    pub weight: Option<usize>,
    pub authors: Vec<String>,
    pub aliases: Vec<String>,
    pub template: Option<String>,
    pub in_search_index: bool,
    pub extra: Json,
    pub id: Option<String>,
    pub summary: Option<String>,
    pub canonical_questions: Vec<String>,
    pub intent: Option<AnswerIntent>,
    pub entity: Option<String>,
    pub audience: Option<AnswerAudience>,
    pub related: Vec<String>,
    pub external_refs: Vec<String>,
    pub schema_type: Option<String>,
    pub review_by: Option<String>,
    pub priority: Option<String>,
    pub visibility: Option<AnswerVisibility>,
    pub ai_visibility: Option<AiVisibility>,
    pub llms_priority: Option<LlmsPriority>,
    pub token_budget: Option<TokenBudget>,
    pub ai_extra: Option<String>,
    pub last_reviewed_by: Option<String>,
    pub owner: Option<String>,
    pub confidence_notes: Option<String>,
}

impl Default for PageFrontMatterRaw {
    fn default() -> (r: Self)
        ensures
            r.title is None && r.description is None && r.updated is None && r.date is None,
            !r.draft && r.render && r.in_search_index,
            r.slug is None && r.path is None && r.weight is None && r.template is None,
            r.taxonomies@.len() == 0 && r.authors@.len() == 0 && r.aliases@.len() == 0,
            jv(r.extra) == JsonV::Object(seq![]),
            !spec_has_data(r.answer_fields()),
    {
        let es: Vec<(String, Json)> = Vec::new();
        proof {
            lemma_jv_object(es);
            assert(entries_v(es@) =~= seq![]);
        }
        let r = PageFrontMatterRaw {
            title: None,
            description: None,
            updated: None,
            date: None,
            draft: false,
            render: true,
            slug: None,
            path: None,
            taxonomies: Vec::new(),
            weight: None,
            authors: Vec::new(),
            aliases: Vec::new(),
            template: None,
            in_search_index: true,
            extra: Json::Object(es),
            id: None,
            summary: None,
            canonical_questions: Vec::new(),
            intent: None,
            entity: None,
            audience: None,
            related: Vec::new(),
            external_refs: Vec::new(),
            schema_type: None,
            review_by: None,
            priority: None,
            visibility: None,
            ai_visibility: None,
            llms_priority: None,
            token_budget: None,
            ai_extra: None,
            last_reviewed_by: None,
            owner: None,
            confidence_notes: None,
        };
        r
    }
}

fn copy_opt(o: &Option<String>) -> (r: Option<String>)
    ensures
        ostr(r) == ostr(*o),
{
    match o {
        Some(s) => Some(s.clone()),
        None => None,
    }
}

impl PageFrontMatterRaw {
    /// The answer fields of the front matter (its `aliases` included).
    pub open spec fn answer_fields(&self) -> RawAnswerV {
        RawAnswerV {
            id: ostr(self.id),
            summary: ostr(self.summary),
            canonical_questions: strs(self.canonical_questions@),
            intent: self.intent,
            entity: ostr(self.entity),
            audience: self.audience,
            related: strs(self.related@),
            external_refs: strs(self.external_refs@),
            schema_type: ostr(self.schema_type),
            review_by: ostr(self.review_by),
            priority: ostr(self.priority),
            visibility: self.visibility,
            ai_visibility: self.ai_visibility,
            llms_priority: self.llms_priority,
            token_budget: self.token_budget,
            aliases: strs(self.aliases@),
            ai_extra: ostr(self.ai_extra),
            last_reviewed_by: ostr(self.last_reviewed_by),
            owner: ostr(self.owner),
            confidence_notes: ostr(self.confidence_notes),
        }
    }

    /// The answer fields of the front matter, as raw answer front matter.
    pub fn answer(&self) -> (r: RawAnswerFrontMatter)
        ensures
            r@ == self.answer_fields(),
    {
        RawAnswerFrontMatter {
            id: copy_opt(&self.id),
            summary: copy_opt(&self.summary),
            canonical_questions: clone_strings(&self.canonical_questions),
            intent: self.intent,
            entity: copy_opt(&self.entity),
            audience: self.audience,
            related: clone_strings(&self.related),
            external_refs: clone_strings(&self.external_refs),
            schema_type: copy_opt(&self.schema_type),
            review_by: copy_opt(&self.review_by),
            priority: copy_opt(&self.priority),
            visibility: self.visibility,
            ai_visibility: self.ai_visibility,
            llms_priority: self.llms_priority,
            token_budget: self.token_budget,
            aliases: clone_strings(&self.aliases),
            ai_extra: copy_opt(&self.ai_extra),
            last_reviewed_by: copy_opt(&self.last_reviewed_by),
            owner: copy_opt(&self.owner),
            confidence_notes: copy_opt(&self.confidence_notes),
        }
    }
}

/// The (year, month, day) of an RFC 3339 datetime, as
/// `time::OffsetDateTime::parse` with `Rfc3339` reads it.
pub uninterp spec fn parsed_rfc3339(text: Seq<char>) -> Option<(i32, u8, u8)>;

/// `time::OffsetDateTime::parse(text, &Rfc3339)`, its date taken apart; the
/// result is named by `parsed_rfc3339`.
#[verifier::external_body]
fn parse_rfc3339(text: &str) -> (r: Option<(i32, u8, u8)>)
    ensures
        r == parsed_rfc3339(text@),
{
    let rfc = time::format_description::well_known::Rfc3339;
    time::OffsetDateTime::parse(text, &rfc).ok().map(|dt| (dt.year(), u8::from(dt.month()), dt.day()))
}

/// The (year, month, day) of a `[year]-[month]-[day]` date, as
/// `time::Date::parse` reads it.
pub uninterp spec fn parsed_ymd(text: Seq<char>) -> Option<(i32, u8, u8)>;

/// `time::Date::parse(text, "[year]-[month]-[day]")`, taken apart; the result
/// is named by `parsed_ymd`.
#[verifier::external_body]
fn parse_ymd(text: &str) -> (r: Option<(i32, u8, u8)>)
    ensures
        r == parsed_ymd(text@),
{
    let day = time::format_description::parse("[year]-[month]-[day]").ok()?;
    time::Date::parse(text, &day).ok().map(|d| (d.year(), u8::from(d.month()), d.day()))
}

/// The (year, month, day) a front-matter date reads as: an RFC 3339
/// datetime; else the same with `Z` appended (a datetime without offset,
/// read as UTC); else a `YYYY-MM-DD` date (midnight UTC).
pub open spec fn parsed_datetime(text: Seq<char>) -> Option<(i32, u8, u8)> {
    match parsed_rfc3339(text) {
        Some(t) => Some(t),
        None => match parsed_rfc3339(text.push('Z')) {
            Some(t) => Some(t),
            None => parsed_ymd(text),
        },
    }
}

/// Reads a front-matter date in the order `parsed_datetime` gives.
fn parse_datetime(text: &str) -> (r: Option<(i32, u8, u8)>)
    ensures
        r == parsed_datetime(text@),
{
    match parse_rfc3339(text) {
        Some(t) => Some(t),
        None => {
            let mut with_z = chars_of(text);
            with_z.push('Z');
            let z = string_of(&with_z);
            match parse_rfc3339(z.as_str()) {
                Some(t) => Some(t),
                None => parse_ymd(text),
            }
        },
    }
}

/// The front matter of a page, checked.
#[derive(Debug)]
pub struct PageFrontMatter {
    pub title: Option<String>,
    pub description: Option<String>,
    pub updated: Option<String>,
    /// The (year, month, day) of `updated`, when it reads as a date.
    pub updated_datetime_tuple: Option<(i32, u8, u8)>,
    pub date: Option<String>,
    /// The (year, month, day) of `date`, when it reads as a date.
    pub datetime_tuple: Option<(i32, u8, u8)>,
    pub draft: bool,
    pub render: bool,
    pub slug: Option<String>,
    pub path: Option<String>,
    pub taxonomies: Vec<(String, Vec<String>)>,
    pub weight: Option<usize>,
    pub authors: Vec<String>,
    pub aliases: Vec<String>,
    pub template: Option<String>,
    pub in_search_index: bool,
    pub extra: Json,
    pub answer: Option<AnswerFrontMatter>,
}

pub open spec fn opt_date(o: Option<Seq<char>>) -> Option<(i32, u8, u8)> {
    match o {
        Some(d) => parsed_datetime(d),
        None => None,
    }
}

/// Some taxonomy has a blank term.
pub open spec fn has_blank_term(t: Seq<(String, Vec<String>)>) -> bool {
    exists|i: int, j: int|
        0 <= i < t.len() && 0 <= j < t[i].1@.len() && #[trigger] trim(t[i].1@[j]@).len() == 0
}

/// Why front matter is refused, checked in this order: its answer metadata,
/// an empty `slug`, an empty `path`, a blank taxonomy term, a `date` that does
/// not read as a date; `None` when it is accepted.
pub open spec fn page_error(raw: &PageFrontMatterRaw, extra_answer: RawAnswerV) -> Option<Seq<char>> {
    match answer_of(merged_raw(raw.answer_fields(), extra_answer), ostr(raw.title)) {
        Err(e) => Some(e),
        Ok(_) => if ostr(raw.slug) == Some(Seq::<char>::empty()) {
            Some("`slug` can't be empty if present"@)
        } else if ostr(raw.path) == Some(Seq::<char>::empty()) {
            Some("`path` can't be empty if present"@)
        } else if has_blank_term(raw.taxonomies@) {
            Some("A taxonomy term cannot be an empty string"@)
        } else {
            match ostr(raw.date) {
                Some(d) => if parsed_datetime(d) is None {
                    Some("`date` could not be parsed: "@ + d + "."@)
                } else {
                    None
                },
                None => None,
            }
        },
    }
}

fn empty_string(o: &Option<String>) -> (r: bool)
    ensures
        r == (ostr(*o) == Some(Seq::<char>::empty())),
{
    match o {
        Some(s) => {
            let c = chars_of(s.as_str());
            if c.len() == 0 {
                assert(s@ =~= Seq::<char>::empty());
                true
            } else {
                false
            }
        },
        None => false,
    }
}

fn blank_term(t: &Vec<(String, Vec<String>)>) -> (r: bool)
    ensures
        r == has_blank_term(t@),
{
    let mut i: usize = 0;
    while i < t.len()
        invariant
            i <= t@.len(),
            forall|a: int, b: int|
                0 <= a < i && 0 <= b < t@[a].1@.len() ==> #[trigger] trim(t@[a].1@[b]@).len() != 0,
        decreases t.len() - i,
    {
        let terms = &t[i].1;
        let mut j: usize = 0;
        while j < terms.len()
            invariant
                i < t@.len(),
                j <= terms@.len(),
                terms == t@[i as int].1,
                forall|a: int, b: int|
                    0 <= a < i && 0 <= b < t@[a].1@.len() ==> #[trigger] trim(t@[a].1@[b]@).len()
                        != 0,
                forall|b: int| 0 <= b < j ==> #[trigger] trim(t@[i as int].1@[b]@).len() != 0,
            decreases terms.len() - j,
        {
            if trim_exec(&chars_of(terms[j].as_str())).len() == 0 {
                return true;
            }
            j += 1;
        }
        i += 1;
    }
    false
}

impl PageFrontMatter {
    /// Checks front matter and attaches its typed answer metadata, merged
    /// from the page's answer fields and the `[extra.answer]` table.
    pub fn parse(raw: PageFrontMatterRaw, extra_answer: RawAnswerFrontMatter) -> (r: Result<
        PageFrontMatter,
        String,
    >)
        ensures
            match r {
                Err(e) => page_error(&raw, extra_answer@) == Some(e@),
                Ok(f) => {
                    &&& page_error(&raw, extra_answer@) is None
                    &&& answer_view(Ok(f.answer)) == answer_of(
                        merged_raw(raw.answer_fields(), extra_answer@),
                        ostr(raw.title),
                    )
                    &&& f.title == raw.title && f.description == raw.description
                    &&& f.updated == raw.updated && f.date == raw.date
                    &&& f.datetime_tuple == opt_date(ostr(raw.date))
                    &&& f.updated_datetime_tuple == opt_date(ostr(raw.updated))
                    &&& f.draft == raw.draft && f.render == raw.render
                    &&& f.slug == raw.slug && f.path == raw.path
                    &&& f.taxonomies == raw.taxonomies && f.weight == raw.weight
                    &&& f.authors == raw.authors && f.aliases == raw.aliases
                    &&& f.template == raw.template && f.in_search_index == raw.in_search_index
                    &&& f.extra == raw.extra
                },
            },
    {
        let answer = raw.answer().merge(extra_answer);
        let answer = match answer.into_answer(&raw.title) {
            Ok(a) => a,
            Err(e) => {
                return Err(e);
            },
        };
        if empty_string(&raw.slug) {
            return Err("`slug` can't be empty if present".to_string());
        }
        if empty_string(&raw.path) {
            return Err("`path` can't be empty if present".to_string());
        }
        let mut f = PageFrontMatter {
            title: raw.title,
            description: raw.description,
            updated: raw.updated,
            updated_datetime_tuple: None,
            date: raw.date,
            datetime_tuple: None,
            draft: raw.draft,
            render: raw.render,
            slug: raw.slug,
            path: raw.path,
            taxonomies: raw.taxonomies,
            weight: raw.weight,
            authors: raw.authors,
            aliases: raw.aliases,
            template: raw.template,
            in_search_index: raw.in_search_index,
            extra: raw.extra,
            answer,
        };
        f.date_to_datetime();
        if blank_term(&f.taxonomies) {
            return Err("A taxonomy term cannot be an empty string".to_string());
        }
        match &f.date {
            Some(d) => if f.datetime_tuple.is_none() {
                let mut m: Vec<char> = Vec::new();
                extend_str(&mut m, "`date` could not be parsed: ");
                extend_str(&mut m, d.as_str());
                extend_str(&mut m, ".");
                return Err(string_of(&m));
            },
            None => {},
        }
        Ok(f)
    }

    /// Reads `date` and `updated` as dates.
    pub fn date_to_datetime(&mut self)
        ensures
            final(self).datetime_tuple == opt_date(ostr(old(self).date)),
            final(self).updated_datetime_tuple == opt_date(ostr(old(self).updated)),
            final(self).title == old(self).title,
            final(self).description == old(self).description,
            final(self).updated == old(self).updated,
            final(self).date == old(self).date,
            final(self).draft == old(self).draft,
            final(self).render == old(self).render,
            final(self).slug == old(self).slug,
            final(self).path == old(self).path,
            final(self).taxonomies == old(self).taxonomies,
            final(self).weight == old(self).weight,
            final(self).authors == old(self).authors,
            final(self).aliases == old(self).aliases,
            final(self).template == old(self).template,
            final(self).in_search_index == old(self).in_search_index,
            final(self).extra == old(self).extra,
            final(self).answer == old(self).answer,
    {
        self.datetime_tuple = match &self.date {
            Some(d) => parse_datetime(d.as_str()),
            None => None,
        };
        self.updated_datetime_tuple = match &self.updated {
            Some(d) => parse_datetime(d.as_str()),
            None => None,
        };
    }

    /// The page's weight; only for a page that has one.
    pub fn weight(&self) -> (r: usize)
        requires
            self.weight is Some,
        ensures
            r == self.weight->0,
    {
        match self.weight {
            Some(w) => w,
            None => 0,
        }
    }
}

impl Default for PageFrontMatter {
    fn default() -> (r: Self)
        ensures
            r.title is None && r.description is None && r.updated is None && r.date is None,
            r.datetime_tuple is None && r.updated_datetime_tuple is None,
            !r.draft && r.render && r.in_search_index,
            r.slug is None && r.path is None && r.weight is None && r.template is None,
            r.taxonomies@.len() == 0 && r.authors@.len() == 0 && r.aliases@.len() == 0,
            jv(r.extra) == JsonV::Object(seq![]),
            r.answer is None,
    {
        let es: Vec<(String, Json)> = Vec::new();
        proof {
            lemma_jv_object(es);
            assert(entries_v(es@) =~= seq![]);
        }
        PageFrontMatter {
            title: None,
            description: None,
            updated: None,
            updated_datetime_tuple: None,
            date: None,
            datetime_tuple: None,
            draft: false,
            render: true,
            slug: None,
            path: None,
            taxonomies: Vec::new(),
            weight: None,
            authors: Vec::new(),
            aliases: Vec::new(),
            template: None,
            in_search_index: true,
            extra: Json::Object(es),
            answer: None,
        }
    }
}


/// The `[extra]` table without its `answer` entry, and that entry's value:
/// the table unchanged and nothing when it has none (or is not a table).
pub open spec fn spec_split_extra(extra: JsonV) -> (JsonV, Option<JsonV>) {
    match extra {
        JsonV::Object(es) => match obj_index(es, "answer"@) {
            Some(i) => (JsonV::Object(es.remove(i)), Some(es[i].1)),
            None => (extra, None),
        },
        _ => (extra, None),
    }
}

/// Takes the legacy `answer` entry out of a page's `[extra]` table.
pub fn split_extra_answer(extra: Json) -> (r: (Json, Option<Json>))
    ensures
        (jv(r.0), match r.1 {
            Some(a) => Some(jv(a)),
            None => None,
        }) == spec_split_extra(jv(extra)),
{
    match extra {
        Json::Object(es) => {
            let ghost ev = entries_v(es@);
            proof {
                lemma_jv_object(es);
                crate::json::lemma_obj_index(ev, "answer"@);
            }
            let key = "answer".to_string();
            match crate::json::find_key(&es, &key) {
                Some(i) => {
                    let mut es = es;
                    let (_, value) = es.remove(i);
                    proof {
                        lemma_jv_object(es);
                        assert(entries_v(es@) =~= ev.remove(i as int));
                    }
                    (Json::Object(es), Some(value))
                },
                None => {
                    proof {
                        lemma_jv_object(es);
                    }
                    (Json::Object(es), None)
                },
            }
        },
        other => (other, None),
    }
}

} // verus!
