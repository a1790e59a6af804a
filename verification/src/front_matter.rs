//! Raw answer front matter as authored, how two sources of it combine, and
//! its validation into typed answer metadata.

use vstd::prelude::*;

use crate::answer::{
    AiVisibility, AnswerAudience, AnswerFrontMatter, AnswerFrontMatterV, AnswerIntent,
    AnswerVisibility, LlmsPriority, TokenBudget,
};
use crate::diagnostics::{ostr, strs};
use crate::text::{chars_of, extend_str, string_of, trim, trim_exec};

verus! {

/// Answer front matter as authored: every field optional.
#[derive(Debug)]
pub struct RawAnswerFrontMatter {
    pub id: Option<String>,
    pub summary: Option<String>,
    pub canonical_questions: Vec<String>,
    pub intent: Option<AnswerIntent>,
    pub entity: Option<String>,
    pub audience: Option<AnswerAudience>,
    pub related: Vec<String>,
    pub external_refs: Vec<String>,
    pub schema_type: Option<String>,
    pub review_by: Option<String>,
    pub priority: Option<String>,
    pub visibility: Option<AnswerVisibility>,
    pub ai_visibility: Option<AiVisibility>,
    pub llms_priority: Option<LlmsPriority>,
    pub token_budget: Option<TokenBudget>,
    pub aliases: Vec<String>,
    pub ai_extra: Option<String>,
    pub last_reviewed_by: Option<String>,
    pub owner: Option<String>,
    pub confidence_notes: Option<String>,
}

/// The mathematical value of a [`RawAnswerFrontMatter`].
pub struct RawAnswerV {
    pub id: Option<Seq<char>>,
    pub summary: Option<Seq<char>>,
    pub canonical_questions: Seq<Seq<char>>,
    pub intent: Option<AnswerIntent>,
    pub entity: Option<Seq<char>>,
    pub audience: Option<AnswerAudience>,
    pub related: Seq<Seq<char>>,
    pub external_refs: Seq<Seq<char>>,
    pub schema_type: Option<Seq<char>>,
    pub review_by: Option<Seq<char>>,
    pub priority: Option<Seq<char>>,
    pub visibility: Option<AnswerVisibility>,
    pub ai_visibility: Option<AiVisibility>,
    pub llms_priority: Option<LlmsPriority>,
    pub token_budget: Option<TokenBudget>,
    pub aliases: Seq<Seq<char>>,
    pub ai_extra: Option<Seq<char>>,
    pub last_reviewed_by: Option<Seq<char>>,
    pub owner: Option<Seq<char>>,
    pub confidence_notes: Option<Seq<char>>,
}

impl View for RawAnswerFrontMatter {
    type V = RawAnswerV;

    open spec fn view(&self) -> RawAnswerV {
        RawAnswerV {
            id: ostr(self.id),
            summary: ostr(self.summary),
            canonical_questions: strs(self.canonical_questions@),
            intent: self.intent,
            entity: ostr(self.entity),
            audience: self.audience,
            related: strs(self.related@),
            external_refs: strs(self.external_refs@),
            schema_type: ostr(self.schema_type),
            review_by: ostr(self.review_by),
            priority: ostr(self.priority),
            visibility: self.visibility,
            ai_visibility: self.ai_visibility,
            llms_priority: self.llms_priority,
            token_budget: self.token_budget,
            aliases: strs(self.aliases@),
            ai_extra: ostr(self.ai_extra),
            last_reviewed_by: ostr(self.last_reviewed_by),
            owner: ostr(self.owner),
            confidence_notes: ostr(self.confidence_notes),
        }
    }
}

impl Default for RawAnswerFrontMatter {
    fn default() -> (r: RawAnswerFrontMatter)
        ensures
            !spec_has_data(r@),
    {
        RawAnswerFrontMatter {
            id: None,
            summary: None,
            canonical_questions: Vec::new(),
            intent: None,
            entity: None,
            audience: None,
            related: Vec::new(),
            external_refs: Vec::new(),
            schema_type: None,
            review_by: None,
            priority: None,
            visibility: None,
            ai_visibility: None,
            llms_priority: None,
            token_budget: None,
            aliases: Vec::new(),
            ai_extra: None,
            last_reviewed_by: None,
            owner: None,
            confidence_notes: None,
        }
    }
}

pub open spec fn or_opt<T>(a: Option<T>, b: Option<T>) -> Option<T> {
    if a is Some {
        a
    } else {
        b
    }
}

pub open spec fn or_list(a: Seq<Seq<char>>, b: Seq<Seq<char>>) -> Seq<Seq<char>> {
    if a.len() == 0 {
        b
    } else {
        a
    }
}

/// Field by field, the first source where it is set, else the fallback.
pub open spec fn merged_raw(a: RawAnswerV, b: RawAnswerV) -> RawAnswerV {
    RawAnswerV {
        id: or_opt(a.id, b.id),
        summary: or_opt(a.summary, b.summary),
        canonical_questions: or_list(a.canonical_questions, b.canonical_questions),
        intent: or_opt(a.intent, b.intent),
        entity: or_opt(a.entity, b.entity),
        audience: or_opt(a.audience, b.audience),
        related: or_list(a.related, b.related),
        external_refs: or_list(a.external_refs, b.external_refs),
        schema_type: or_opt(a.schema_type, b.schema_type),
        review_by: or_opt(a.review_by, b.review_by),
        priority: or_opt(a.priority, b.priority),
        visibility: or_opt(a.visibility, b.visibility),
        ai_visibility: or_opt(a.ai_visibility, b.ai_visibility),
        llms_priority: or_opt(a.llms_priority, b.llms_priority),
        token_budget: or_opt(a.token_budget, b.token_budget),
        aliases: or_list(a.aliases, b.aliases),
        ai_extra: or_opt(a.ai_extra, b.ai_extra),
        last_reviewed_by: or_opt(a.last_reviewed_by, b.last_reviewed_by),
        owner: or_opt(a.owner, b.owner),
        confidence_notes: or_opt(a.confidence_notes, b.confidence_notes),
    }
}

/// Some field is set.
pub open spec fn spec_has_data(r: RawAnswerV) -> bool {
    r.id is Some || r.summary is Some || r.canonical_questions.len() > 0 || r.intent is Some
        || r.entity is Some || r.audience is Some || r.related.len() > 0 || r.external_refs.len()
        > 0 || r.schema_type is Some || r.review_by is Some || r.priority is Some
        || r.visibility is Some || r.ai_visibility is Some || r.llms_priority is Some
        || r.token_budget is Some || r.aliases.len() > 0 || r.ai_extra is Some
        || r.last_reviewed_by is Some || r.owner is Some || r.confidence_notes is Some
}

fn or_opt_exec<T>(a: Option<T>, b: Option<T>) -> (r: Option<T>)
    ensures
        r == or_opt(a, b),
{
    match a {
        Some(x) => Some(x),
        None => b,
    }
}

fn or_opt_str(a: Option<String>, b: Option<String>) -> (r: Option<String>)
    ensures
        ostr(r) == or_opt(ostr(a), ostr(b)),
{
    match a {
        Some(x) => Some(x),
        None => b,
    }
}

fn or_list_exec(a: Vec<String>, b: Vec<String>) -> (r: Vec<String>)
    ensures
        strs(r@) == or_list(strs(a@), strs(b@)),
{
    if a.len() == 0 {
        b
    } else {
        a
    }
}

impl RawAnswerFrontMatter {
    /// Combines with a fallback: each field from `self` when set there.
    pub fn merge(self, fallback: Self) -> (r: Self)
        ensures
            r@ == merged_raw(self@, fallback@),
    {
        RawAnswerFrontMatter {
            id: or_opt_str(self.id, fallback.id),
            summary: or_opt_str(self.summary, fallback.summary),
            canonical_questions: or_list_exec(self.canonical_questions, fallback.canonical_questions),
            intent: or_opt_exec(self.intent, fallback.intent),
            entity: or_opt_str(self.entity, fallback.entity),
            audience: or_opt_exec(self.audience, fallback.audience),
            related: or_list_exec(self.related, fallback.related),
            external_refs: or_list_exec(self.external_refs, fallback.external_refs),
            schema_type: or_opt_str(self.schema_type, fallback.schema_type),
            review_by: or_opt_str(self.review_by, fallback.review_by),
            priority: or_opt_str(self.priority, fallback.priority),
            visibility: or_opt_exec(self.visibility, fallback.visibility),
            ai_visibility: or_opt_exec(self.ai_visibility, fallback.ai_visibility),
            llms_priority: or_opt_exec(self.llms_priority, fallback.llms_priority),
            token_budget: or_opt_exec(self.token_budget, fallback.token_budget),
            aliases: or_list_exec(self.aliases, fallback.aliases),
            ai_extra: or_opt_str(self.ai_extra, fallback.ai_extra),
            last_reviewed_by: or_opt_str(self.last_reviewed_by, fallback.last_reviewed_by),
            owner: or_opt_str(self.owner, fallback.owner),
            confidence_notes: or_opt_str(self.confidence_notes, fallback.confidence_notes),
        }
    }

    pub fn has_data(&self) -> (r: bool)
        ensures
            r == spec_has_data(self@),
    {
        self.id.is_some() || self.summary.is_some() || self.canonical_questions.len() > 0
            || self.intent.is_some() || self.entity.is_some() || self.audience.is_some()
            || self.related.len() > 0 || self.external_refs.len() > 0 || self.schema_type.is_some()
            || self.review_by.is_some() || self.priority.is_some() || self.visibility.is_some()
            || self.ai_visibility.is_some() || self.llms_priority.is_some()
            || self.token_budget.is_some() || self.aliases.len() > 0 || self.ai_extra.is_some()
            || self.last_reviewed_by.is_some() || self.owner.is_some()
            || self.confidence_notes.is_some()
    }
}

// ---------------------------------------------------------------------------
// Validation
// ---------------------------------------------------------------------------

pub open spec fn missing_message(field: Seq<char>) -> Seq<char> {
    "An answer page requires `"@ + field + "`"@
}

pub open spec fn empty_message(field: Seq<char>) -> Seq<char> {
    "`"@ + field + "` cannot be empty"@
}

pub open spec fn empty_entry_message(field: Seq<char>) -> Seq<char> {
    "`"@ + field + "` entries cannot be empty"@
}

/// A required text: present and not blank, trimmed.
pub open spec fn req_str(v: Option<Seq<char>>, field: Seq<char>) -> Result<Seq<char>, Seq<char>> {
    match v {
        None => Err(missing_message(field)),
        Some(s) => if trim(s).len() == 0 {
            Err(empty_message(field))
        } else {
            Ok(trim(s))
        },
    }
}

/// An optional text: absent, or not blank and trimmed.
pub open spec fn opt_str(v: Option<Seq<char>>, field: Seq<char>) -> Result<Option<Seq<char>>, Seq<char>> {
    match v {
        None => Ok(None),
        Some(s) => if trim(s).len() == 0 {
            Err(empty_message(field))
        } else {
            Ok(Some(trim(s)))
        },
    }
}

/// A list whose entries are all not blank, each trimmed.
pub open spec fn trimmed_list(v: Seq<Seq<char>>, field: Seq<char>) -> Result<Seq<Seq<char>>, Seq<char>> {
    if exists|i: int| 0 <= i < v.len() && trim(#[trigger] v[i]).len() == 0 {
        Err(empty_entry_message(field))
    } else {
        Ok(v.map_values(|s: Seq<char>| trim(s)))
    }
}

pub fn required_string(value: Option<String>, field: &str) -> (r: Result<String, String>)
    ensures
        match r {
            Ok(s) => req_str(ostr(value), field@) == Ok::<Seq<char>, Seq<char>>(s@),
            Err(e) => req_str(ostr(value), field@) == Err::<Seq<char>, Seq<char>>(e@),
        },
{
    match value {
        None => {
            let mut m: Vec<char> = Vec::new();
            extend_str(&mut m, "An answer page requires `");
            extend_str(&mut m, field);
            extend_str(&mut m, "`");
            Err(string_of(&m))
        },
        Some(v) => {
            let c = chars_of(v.as_str());
            let t = trim_exec(&c);
            if t.len() == 0 {
                let mut m: Vec<char> = Vec::new();
                extend_str(&mut m, "`");
                extend_str(&mut m, field);
                extend_str(&mut m, "` cannot be empty");
                Err(string_of(&m))
            } else {
                Ok(string_of(&t))
            }
        },
    }
}

pub fn optional_string(value: Option<String>, field: &str) -> (r: Result<Option<String>, String>)
    ensures
        match r {
            Ok(s) => opt_str(ostr(value), field@) == Ok::<Option<Seq<char>>, Seq<char>>(ostr(s)),
            Err(e) => opt_str(ostr(value), field@) == Err::<Option<Seq<char>>, Seq<char>>(e@),
        },
{
    match value {
        None => Ok(None),
        Some(v) => match required_string(Some(v), field) {
            Ok(s) => Ok(Some(s)),
            Err(e) => Err(e),
        },
    }
}

pub fn non_empty_vec(values: Vec<String>, field: &str) -> (r: Result<Vec<String>, String>)
    ensures
        match r {
            Ok(v) => trimmed_list(strs(values@), field@) == Ok::<Seq<Seq<char>>, Seq<char>>(
                strs(v@),
            ),
            Err(e) => trimmed_list(strs(values@), field@) == Err::<Seq<Seq<char>>, Seq<char>>(
                e@,
            ),
        },
{
    let ghost vs = strs(values@);
    let mut out: Vec<String> = Vec::new();
    let mut i: usize = 0;
    while i < values.len()
        invariant
            i <= values@.len(),
            vs == strs(values@),
            forall|k: int| 0 <= k < i ==> trim(#[trigger] vs[k]).len() > 0,
            strs(out@) == vs.take(i as int).map_values(|s: Seq<char>| trim(s)),
        decreases values.len() - i,
    {
        let c = chars_of(values[i].as_str());
        let t = trim_exec(&c);
        assert(vs[i as int] == values@[i as int]@);
        if t.len() == 0 {
            let mut m: Vec<char> = Vec::new();
            extend_str(&mut m, "`");
            extend_str(&mut m, field);
            extend_str(&mut m, "` entries cannot be empty");
            return Err(string_of(&m));
        }
        let ghost before = strs(out@);
        out.push(string_of(&t));
        assert(strs(out@) =~= before.push(trim(vs[i as int])));
        assert(vs.take(i + 1).map_values(|s: Seq<char>| trim(s)) =~= vs.take(i as int).map_values(
            |s: Seq<char>| trim(s),
        ).push(trim(vs[i as int])));
        i += 1;
    }
    assert(vs.take(i as int) =~= vs);
    Ok(out)
}

/// The typed answer metadata of raw front matter on a page with the given
/// title: none when nothing is set; otherwise every required field, checked
/// in order, with texts trimmed.
pub open spec fn answer_of(r: RawAnswerV, title: Option<Seq<char>>) -> Result<
    Option<AnswerFrontMatterV>,
    Seq<char>,
> {
    if !spec_has_data(r) {
        Ok(None)
    } else {
        match (req_str(r.id, "id"@), req_str(r.summary, "summary"@), req_str(r.entity, "entity"@)) {
            (Err(e), _, _) => Err(e),
            (Ok(_), Err(e), _) => Err(e),
            (Ok(_), Ok(_), Err(e)) => Err(e),
            (Ok(id), Ok(summary), Ok(entity)) => if r.intent is None {
                Err(missing_message("intent"@))
            } else if r.audience is None {
                Err(missing_message("audience"@))
            } else if r.visibility is None {
                Err(missing_message("visibility"@))
            } else if r.ai_visibility is None {
                Err(missing_message("ai_visibility"@))
            } else if r.llms_priority is None {
                Err(missing_message("llms_priority"@))
            } else if r.token_budget is None {
                Err(missing_message("token_budget"@))
            } else if (title is None || trim(title->0).len() == 0) && r.canonical_questions.len()
                == 0 {
                Err("An answer page requires at least one of `title` or `canonical_questions`"@)
            } else {
                answer_lists(r, id, summary, entity)
            },
        }
    }
}

/// The list and optional checks of [`answer_of`], after the required fields.
pub open spec fn answer_lists(r: RawAnswerV, id: Seq<char>, summary: Seq<char>, entity: Seq<char>) -> Result<
    Option<AnswerFrontMatterV>,
    Seq<char>,
> {
    match (
        trimmed_list(r.canonical_questions, "canonical_questions"@),
        trimmed_list(r.related, "related"@),
        trimmed_list(r.external_refs, "external_refs"@),
        trimmed_list(r.aliases, "aliases"@),
    ) {
        (Err(e), _, _, _) => Err(e),
        (Ok(_), Err(e), _, _) => Err(e),
        (Ok(_), Ok(_), Err(e), _) => Err(e),
        (Ok(_), Ok(_), Ok(_), Err(e)) => Err(e),
        (Ok(qs), Ok(rel), Ok(ext), Ok(als)) => match (
            opt_str(r.schema_type, "schema_type"@),
            opt_str(r.priority, "priority"@),
            opt_str(r.ai_extra, "ai_extra"@),
        ) {
            (Err(e), _, _) => Err(e),
            (Ok(_), Err(e), _) => Err(e),
            (Ok(_), Ok(_), Err(e)) => Err(e),
            (Ok(st), Ok(pr), Ok(ax)) => match (
                opt_str(r.last_reviewed_by, "last_reviewed_by"@),
                opt_str(r.owner, "owner"@),
                opt_str(r.confidence_notes, "confidence_notes"@),
            ) {
                (Err(e), _, _) => Err(e),
                (Ok(_), Err(e), _) => Err(e),
                (Ok(_), Ok(_), Err(e)) => Err(e),
                (Ok(lr), Ok(ow), Ok(cn)) => Ok(
                    Some(
                        AnswerFrontMatterV {
                            id,
                            summary,
                            canonical_questions: qs,
                            intent: r.intent->0,
                            entity,
                            audience: r.audience->0,
                            related: rel,
                            external_refs: ext,
                            schema_type: st,
                            review_by: r.review_by,
                            priority: pr,
                            visibility: r.visibility->0,
                            ai_visibility: r.ai_visibility->0,
                            llms_priority: r.llms_priority->0,
                            token_budget: r.token_budget->0,
                            aliases: als,
                            ai_extra: ax,
                            last_reviewed_by: lr,
                            owner: ow,
                            confidence_notes: cn,
                        },
                    ),
                ),
            },
        },
    }
}

pub open spec fn answer_view(r: Result<Option<AnswerFrontMatter>, String>) -> Result<
    Option<AnswerFrontMatterV>,
    Seq<char>,
> {
    match r {
        Ok(Some(a)) => Ok(Some(a@)),
        Ok(None) => Ok(None),
        Err(e) => Err(e@),
    }
}

fn missing(field: &str) -> (r: String)
    ensures
        r@ == missing_message(field@),
{
    let mut m: Vec<char> = Vec::new();
    extend_str(&mut m, "An answer page requires `");
    extend_str(&mut m, field);
    extend_str(&mut m, "`");
    string_of(&m)
}

impl RawAnswerFrontMatter {
    /// Validates the front matter of a page with title `title`.
    pub fn into_answer(self, title: &Option<String>) -> (r: Result<Option<AnswerFrontMatter>, String>)
        ensures
            answer_view(r) == answer_of(self@, ostr(*title)),
    {
        if !self.has_data() {
            return Ok(None);
        }
        let ghost rv = self@;
        let RawAnswerFrontMatter {
            id,
            summary,
            canonical_questions,
            intent,
            entity,
            audience,
            related,
            external_refs,
            schema_type,
            review_by,
            priority,
            visibility,
            ai_visibility,
            llms_priority,
            token_budget,
            aliases,
            ai_extra,
            last_reviewed_by,
            owner,
            confidence_notes,
        } = self;
        let id = match required_string(id, "id") {
            Ok(v) => v,
            Err(e) => return Err(e),
        };
        let summary = match required_string(summary, "summary") {
            Ok(v) => v,
            Err(e) => return Err(e),
        };
        let entity = match required_string(entity, "entity") {
            Ok(v) => v,
            Err(e) => return Err(e),
        };
        let intent = match intent {
            Some(v) => v,
            None => return Err(missing("intent")),
        };
        let audience = match audience {
            Some(v) => v,
            None => return Err(missing("audience")),
        };
        let visibility = match visibility {
            Some(v) => v,
            None => return Err(missing("visibility")),
        };
        let ai_visibility = match ai_visibility {
            Some(v) => v,
            None => return Err(missing("ai_visibility")),
        };
        let llms_priority = match llms_priority {
            Some(v) => v,
            None => return Err(missing("llms_priority")),
        };
        let token_budget = match token_budget {
            Some(v) => v,
            None => return Err(missing("token_budget")),
        };
        let untitled = match title {
            None => true,
            Some(t) => {
                let c = chars_of(t.as_str());
                let tt = trim_exec(&c);
                tt.len() == 0
            },
        };
        if untitled && canonical_questions.len() == 0 {
            return Err(
                "An answer page requires at least one of `title` or `canonical_questions`".to_owned(),
            );
        }
        let canonical_questions = match non_empty_vec(canonical_questions, "canonical_questions") {
            Ok(v) => v,
            Err(e) => return Err(e),
        };
        let related = match non_empty_vec(related, "related") {
            Ok(v) => v,
            Err(e) => return Err(e),
        };
        let external_refs = match non_empty_vec(external_refs, "external_refs") {
            Ok(v) => v,
            Err(e) => return Err(e),
        };
        let aliases = match non_empty_vec(aliases, "aliases") {
            Ok(v) => v,
            Err(e) => return Err(e),
        };
        let schema_type = match optional_string(schema_type, "schema_type") {
            Ok(v) => v,
            Err(e) => return Err(e),
        };
        let priority = match optional_string(priority, "priority") {
            Ok(v) => v,
            Err(e) => return Err(e),
        };
        let ai_extra = match optional_string(ai_extra, "ai_extra") {
            Ok(v) => v,
            Err(e) => return Err(e),
        };
        let last_reviewed_by = match optional_string(last_reviewed_by, "last_reviewed_by") {
            Ok(v) => v,
            Err(e) => return Err(e),
        };
        let owner = match optional_string(owner, "owner") {
            Ok(v) => v,
            Err(e) => return Err(e),
        };
        let confidence_notes = match optional_string(confidence_notes, "confidence_notes") {
            Ok(v) => v,
            Err(e) => return Err(e),
        };
        Ok(
            Some(
                AnswerFrontMatter {
                    id,
                    summary,
                    canonical_questions,
                    intent,
                    entity,
                    audience,
                    related,
                    external_refs,
                    schema_type,
                    review_by,
                    priority,
                    visibility,
                    ai_visibility,
                    llms_priority,
                    token_budget,
                    aliases,
                    ai_extra,
                    last_reviewed_by,
                    owner,
                    confidence_notes,
                },
            ),
        )
    }
}

} // verus!
