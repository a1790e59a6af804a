//! The normalized answer corpus: one record per answer page, indexed by id,
//! entity, intent and audience, and validated as a whole.

use vstd::prelude::*;

use crate::answer::{
    spec_machine_ai_visible, AiVisibility, AnswerAudience, AnswerIntent, AnswerVisibility,
    LlmsPriority, TokenBudget,
};
use crate::diagnostics::{clone_strings, ostr, strs};
use crate::library::Page;
use crate::order::{lemma_lex_irreflexive, lemma_lex_transitive, lex_lt, str_lt, Ordered};
use crate::text::{chars_of, extend_str, string_of, trim_end_char, trim_end_char_exec};

verus! {

/// One answer of the corpus, normalized from its page.
#[derive(Debug)]
pub struct AnswerRecord {
    pub id: String,
    pub title: String,
    pub summary: String,
    pub canonical_url: String,
    pub markdown_url: String,
    pub intent: AnswerIntent,
    pub entity: String,
    pub audience: AnswerAudience,
    pub canonical_questions: Vec<String>,
    pub retrieval_aliases: Vec<String>,
    pub related: Vec<String>,
    pub visibility: AnswerVisibility,
    pub ai_visibility: AiVisibility,
    pub llms_priority: LlmsPriority,
    pub token_budget: TokenBudget,
    pub review_by: Option<String>,
    pub last_modified: Option<String>,
    pub source_path: String,
    /// The page's canonical machine Markdown, when it emits one.
    pub machine_markdown: Option<String>,
}

/// The machine Markdown URL of a page: its permalink without trailing
/// slashes, followed by `.md`.
pub open spec fn spec_markdown_url(permalink: Seq<char>) -> Seq<char> {
    trim_end_char(permalink, '/') + ".md"@
}

/// Where a machine index links a page: its machine Markdown URL when the
/// page emits machine Markdown, else its canonical URL.
pub open spec fn record_markdown_url(p: Page) -> Seq<char> {
    if p.canonical_machine_markdown is Some {
        spec_markdown_url(p.permalink@)
    } else {
        p.permalink@
    }
}

pub fn markdown_url_from_page(page: &Page) -> (r: String)
    ensures
        r@ == spec_markdown_url(page.permalink@),
{
    let p = chars_of(page.permalink.as_str());
    let mut t = trim_end_char_exec(&p, '/');
    extend_str(&mut t, ".md");
    string_of(&t)
}

/// The mathematical value of an [`AnswerRecord`].
pub struct AnswerRecordV {
    pub id: Seq<char>,
    pub title: Seq<char>,
    pub summary: Seq<char>,
    pub canonical_url: Seq<char>,
    pub markdown_url: Seq<char>,
    pub intent: AnswerIntent,
    pub entity: Seq<char>,
    pub audience: AnswerAudience,
    pub canonical_questions: Seq<Seq<char>>,
    pub retrieval_aliases: Seq<Seq<char>>,
    pub related: Seq<Seq<char>>,
    pub visibility: AnswerVisibility,
    pub ai_visibility: AiVisibility,
    pub llms_priority: LlmsPriority,
    pub token_budget: TokenBudget,
    pub review_by: Option<Seq<char>>,
    pub last_modified: Option<Seq<char>>,
    pub source_path: Seq<char>,
    pub machine_markdown: Option<Seq<char>>,
}

impl View for AnswerRecord {
    type V = AnswerRecordV;

    open spec fn view(&self) -> AnswerRecordV {
        AnswerRecordV {
            id: self.id@,
            title: self.title@,
            summary: self.summary@,
            canonical_url: self.canonical_url@,
            markdown_url: self.markdown_url@,
            intent: self.intent,
            entity: self.entity@,
            audience: self.audience,
            canonical_questions: strs(self.canonical_questions@),
            retrieval_aliases: strs(self.retrieval_aliases@),
            related: strs(self.related@),
            visibility: self.visibility,
            ai_visibility: self.ai_visibility,
            llms_priority: self.llms_priority,
            token_budget: self.token_budget,
            review_by: ostr(self.review_by),
            last_modified: ostr(self.last_modified),
            source_path: self.source_path@,
            machine_markdown: ostr(self.machine_markdown),
        }
    }
}

/// The record that a page yields: `None` for a page without answer metadata.
pub open spec fn page_record(p: Page) -> Option<AnswerRecordV> {
    match p.answer {
        Some(a) => Some(
            AnswerRecordV {
                id: a.id@,
                title: p.answer_title@,
                summary: a.summary@,
                canonical_url: p.permalink@,
                markdown_url: record_markdown_url(p),
                intent: a.intent,
                entity: a.entity@,
                audience: a.audience,
                canonical_questions: strs(a.canonical_questions@),
                retrieval_aliases: strs(a.aliases@),
                related: strs(a.related@),
                visibility: a.visibility,
                ai_visibility: a.ai_visibility,
                llms_priority: a.llms_priority,
                token_budget: a.token_budget,
                review_by: ostr(a.review_by),
                last_modified: if p.updated is Some {
                    ostr(p.updated)
                } else {
                    ostr(p.date)
                },
                source_path: p.source_path@,
                machine_markdown: ostr(p.canonical_machine_markdown),
            },
        ),
        None => None,
    }
}

/// Records are ordered by id, then by source path.
pub open spec fn record_less(a: AnswerRecordV, b: AnswerRecordV) -> bool {
    lex_lt(a.id, b.id) || (a.id == b.id && lex_lt(a.source_path, b.source_path))
}

impl Ordered for AnswerRecord {
    open spec fn less(a: AnswerRecordV, b: AnswerRecordV) -> bool {
        record_less(a, b)
    }

    proof fn less_irreflexive(a: AnswerRecordV) {
        lemma_lex_irreflexive(a.id);
        lemma_lex_irreflexive(a.source_path);
    }

    proof fn less_transitive(a: AnswerRecordV, b: AnswerRecordV, c: AnswerRecordV) {
        if lex_lt(a.id, b.id) && lex_lt(b.id, c.id) {
            lemma_lex_transitive(a.id, b.id, c.id);
        } else if lex_lt(a.source_path, b.source_path) && lex_lt(b.source_path, c.source_path) {
            lemma_lex_transitive(a.source_path, b.source_path, c.source_path);
        }
    }

    fn lt(&self, other: &Self) -> (r: bool) {
        if str_lt(self.id.as_str(), other.id.as_str()) {
            true
        } else if self.id == other.id {
            str_lt(self.source_path.as_str(), other.source_path.as_str())
        } else {
            false
        }
    }
}

/// A copy of an optional string.
pub fn clone_opt(o: &Option<String>) -> (r: Option<String>)
    ensures
        ostr(r) == ostr(*o),
{
    match o {
        Some(s) => Some(s.clone()),
        None => None,
    }
}

impl AnswerRecord {
    /// The record of an answer page; `None` for pages without answer metadata.
    pub fn from_page(page: &Page) -> (r: Option<AnswerRecord>)
        ensures
            match r {
                Some(rec) => page_record(*page) == Some(rec@),
                None => page_record(*page) is None,
            },
    {
        let answer = match &page.answer {
            Some(a) => a,
            None => return None,
        };
        let last_modified = if page.updated.is_some() {
            clone_opt(&page.updated)
        } else {
            clone_opt(&page.date)
        };
        Some(AnswerRecord {
            id: answer.id.clone(),
            title: page.answer_title.clone(),
            summary: answer.summary.clone(),
            canonical_url: page.permalink.clone(),
            markdown_url: if page.canonical_machine_markdown.is_some() {
                markdown_url_from_page(page)
            } else {
                page.permalink.clone()
            },
            intent: answer.intent,
            entity: answer.entity.clone(),
            audience: answer.audience,
            canonical_questions: clone_strings(&answer.canonical_questions),
            retrieval_aliases: clone_strings(&answer.aliases),
            related: clone_strings(&answer.related),
            visibility: answer.visibility,
            ai_visibility: answer.ai_visibility,
            llms_priority: answer.llms_priority,
            token_budget: answer.token_budget,
            review_by: clone_opt(&answer.review_by),
            last_modified,
            source_path: page.source_path.clone(),
            machine_markdown: clone_opt(&page.canonical_machine_markdown),
        })
    }

    pub fn is_machine_ai_visible(&self) -> (r: bool)
        ensures
            r == spec_machine_ai_visible(self.visibility, self.ai_visibility),
    {
        crate::answer::is_machine_ai_visible(&self.visibility, &self.ai_visibility)
    }
}

// ---------------------------------------------------------------------------
// Vocabulary keys and budgets
// ---------------------------------------------------------------------------

pub open spec fn intent_name(i: AnswerIntent) -> Seq<char> {
    match i {
        AnswerIntent::Concept => "concept"@,
        AnswerIntent::Task => "task"@,
        AnswerIntent::Policy => "policy"@,
        AnswerIntent::Troubleshooting => "troubleshooting"@,
        AnswerIntent::Comparison => "comparison"@,
        AnswerIntent::Pricing => "pricing"@,
        AnswerIntent::Integration => "integration"@,
        AnswerIntent::Faq => "faq"@,
        AnswerIntent::Reference => "reference"@,
    }
}

pub fn intent_key(intent: &AnswerIntent) -> (r: &'static str)
    ensures
        r@ == intent_name(*intent),
{
    match intent {
        AnswerIntent::Concept => "concept",
        AnswerIntent::Task => "task",
        AnswerIntent::Policy => "policy",
        AnswerIntent::Troubleshooting => "troubleshooting",
        AnswerIntent::Comparison => "comparison",
        AnswerIntent::Pricing => "pricing",
        AnswerIntent::Integration => "integration",
        AnswerIntent::Faq => "faq",
        AnswerIntent::Reference => "reference",
    }
}

pub open spec fn audience_name(a: AnswerAudience) -> Seq<char> {
    match a {
        AnswerAudience::Customer => "customer"@,
        AnswerAudience::Prospect => "prospect"@,
        AnswerAudience::Developer => "developer"@,
        AnswerAudience::Admin => "admin"@,
        AnswerAudience::Internal => "internal"@,
    }
}

pub fn audience_key(audience: &AnswerAudience) -> (r: &'static str)
    ensures
        r@ == audience_name(*audience),
{
    match audience {
        AnswerAudience::Customer => "customer",
        AnswerAudience::Prospect => "prospect",
        AnswerAudience::Developer => "developer",
        AnswerAudience::Admin => "admin",
        AnswerAudience::Internal => "internal",
    }
}

pub open spec fn visibility_name(v: AnswerVisibility) -> Seq<char> {
    match v {
        AnswerVisibility::Public => "public"@,
        AnswerVisibility::Private => "private"@,
        AnswerVisibility::Internal => "internal"@,
    }
}

pub fn visibility_key(visibility: &AnswerVisibility) -> (r: &'static str)
    ensures
        r@ == visibility_name(*visibility),
{
    match visibility {
        AnswerVisibility::Public => "public",
        AnswerVisibility::Private => "private",
        AnswerVisibility::Internal => "internal",
    }
}

pub open spec fn ai_visibility_name(v: AiVisibility) -> Seq<char> {
    match v {
        AiVisibility::Public => "public"@,
        AiVisibility::Hidden => "hidden"@,
        AiVisibility::SummaryOnly => "summary_only"@,
    }
}

pub fn ai_visibility_key(ai_visibility: &AiVisibility) -> (r: &'static str)
    ensures
        r@ == ai_visibility_name(*ai_visibility),
{
    match ai_visibility {
        AiVisibility::Public => "public",
        AiVisibility::Hidden => "hidden",
        AiVisibility::SummaryOnly => "summary_only",
    }
}

pub open spec fn llms_priority_name(p: LlmsPriority) -> Seq<char> {
    match p {
        LlmsPriority::Core => "core"@,
        LlmsPriority::Optional => "optional"@,
        LlmsPriority::Hidden => "hidden"@,
    }
}

pub fn llms_priority_key(priority: &LlmsPriority) -> (r: &'static str)
    ensures
        r@ == llms_priority_name(*priority),
{
    match priority {
        LlmsPriority::Core => "core",
        LlmsPriority::Optional => "optional",
        LlmsPriority::Hidden => "hidden",
    }
}

pub open spec fn token_budget_name(t: TokenBudget) -> Seq<char> {
    match t {
        TokenBudget::Small => "small"@,
        TokenBudget::Medium => "medium"@,
        TokenBudget::Full => "full"@,
    }
}

pub fn token_budget_key(token_budget: &TokenBudget) -> (r: &'static str)
    ensures
        r@ == token_budget_name(*token_budget),
{
    match token_budget {
        TokenBudget::Small => "small",
        TokenBudget::Medium => "medium",
        TokenBudget::Full => "full",
    }
}

/// The most tokens an answer's machine Markdown may take under its budget.
pub open spec fn budget_limit(t: TokenBudget) -> nat {
    match t {
        TokenBudget::Small => 256,
        TokenBudget::Medium => 768,
        TokenBudget::Full => 2048,
    }
}

pub fn token_budget_limit(token_budget: &TokenBudget) -> (r: usize)
    ensures
        r == budget_limit(*token_budget),
{
    match token_budget {
        TokenBudget::Small => 256,
        TokenBudget::Medium => 768,
        TokenBudget::Full => 2048,
    }
}

/// The token estimate of a text: one token per four characters, rounded up.
pub open spec fn token_estimate(text: Seq<char>) -> nat {
    ((text.len() + 3) / 4) as nat
}

pub fn estimate_tokens(markdown: &str) -> (r: usize)
    ensures
        r == token_estimate(markdown@),
{
    let chars = chars_of(markdown);
    let n = chars.len();
    n / 4 + if n % 4 == 0 {
        0
    } else {
        1
    }
}

} // verus!
