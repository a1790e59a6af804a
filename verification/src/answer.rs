//! Typed answer metadata: the controlled vocabularies and the answer front
//! matter of a page.

use vstd::prelude::*;

use crate::diagnostics::{ostr, strs};

verus! {

/// What kind of question an answer addresses.
#[derive(Clone, Copy, Debug, PartialEq, Eq, Structural)]
pub enum AnswerIntent {
    Concept,
    Task,
    Policy,
    Troubleshooting,
    Comparison,
    Pricing,
    Integration,
    Faq,
    Reference,
}

/// Who an answer is written for.
#[derive(Clone, Copy, Debug, PartialEq, Eq, Structural)]
pub enum AnswerAudience {
    Customer,
    Prospect,
    Developer,
    Admin,
    Internal,
}

/// Who may see an answer at all.
#[derive(Clone, Copy, Debug, PartialEq, Eq, Structural)]
pub enum AnswerVisibility {
    Public,
    Private,
    Internal,
}

/// How much of an answer machine outputs may expose.
#[derive(Clone, Copy, Debug, PartialEq, Eq, Structural)]
pub enum AiVisibility {
    Public,
    Hidden,
    SummaryOnly,
}

/// Where an answer is listed in `llms.txt` outputs.
#[derive(Clone, Copy, Debug, PartialEq, Eq, Structural)]
pub enum LlmsPriority {
    Core,
    Optional,
    Hidden,
}

/// How large the machine view of an answer may be.
#[derive(Clone, Copy, Debug, PartialEq, Eq, Structural)]
pub enum TokenBudget {
    Small,
    Medium,
    Full,
}

/// An answer reaches machine outputs when it is public and its AI visibility
/// is not hidden.
pub open spec fn spec_machine_ai_visible(visibility: AnswerVisibility, ai_visibility: AiVisibility) -> bool {
    visibility == AnswerVisibility::Public && ai_visibility != AiVisibility::Hidden
}

pub fn is_machine_ai_visible(visibility: &AnswerVisibility, ai_visibility: &AiVisibility) -> (r: bool)
    ensures
        r == spec_machine_ai_visible(*visibility, *ai_visibility),
{
    matches!(visibility, AnswerVisibility::Public) && !matches!(ai_visibility, AiVisibility::Hidden)
}

/// The validated answer metadata of a page.
#[derive(Debug)]
pub struct AnswerFrontMatter {
    pub id: String,
    pub summary: String,
    pub canonical_questions: Vec<String>,
    pub intent: AnswerIntent,
    pub entity: String,
    pub audience: AnswerAudience,
    pub related: Vec<String>,
    pub external_refs: Vec<String>,
    pub schema_type: Option<String>,
    pub review_by: Option<String>,
    pub priority: Option<String>,
    pub visibility: AnswerVisibility,
    pub ai_visibility: AiVisibility,
    pub llms_priority: LlmsPriority,
    pub token_budget: TokenBudget,
    pub aliases: Vec<String>,
    pub ai_extra: Option<String>,
    pub last_reviewed_by: Option<String>,
    pub owner: Option<String>,
    pub confidence_notes: Option<String>,
}

/// The mathematical value of an [`AnswerFrontMatter`].
pub struct AnswerFrontMatterV {
    pub id: Seq<char>,
    pub summary: Seq<char>,
    pub canonical_questions: Seq<Seq<char>>,
    pub intent: AnswerIntent,
    pub entity: Seq<char>,
    pub audience: AnswerAudience,
    pub related: Seq<Seq<char>>,
    pub external_refs: Seq<Seq<char>>,
    pub schema_type: Option<Seq<char>>,
    pub review_by: Option<Seq<char>>,
    pub priority: Option<Seq<char>>,
    pub visibility: AnswerVisibility,
    pub ai_visibility: AiVisibility,
    pub llms_priority: LlmsPriority,
    pub token_budget: TokenBudget,
    pub aliases: Seq<Seq<char>>,
    pub ai_extra: Option<Seq<char>>,
    pub last_reviewed_by: Option<Seq<char>>,
    pub owner: Option<Seq<char>>,
    pub confidence_notes: Option<Seq<char>>,
}

impl View for AnswerFrontMatter {
    type V = AnswerFrontMatterV;

    open spec fn view(&self) -> AnswerFrontMatterV {
        AnswerFrontMatterV {
            id: self.id@,
            summary: self.summary@,
            canonical_questions: strs(self.canonical_questions@),
            intent: self.intent,
            entity: self.entity@,
            audience: self.audience,
            related: strs(self.related@),
            external_refs: strs(self.external_refs@),
            schema_type: ostr(self.schema_type),
            review_by: ostr(self.review_by),
            priority: ostr(self.priority),
            visibility: self.visibility,
            ai_visibility: self.ai_visibility,
            llms_priority: self.llms_priority,
            token_budget: self.token_budget,
            aliases: strs(self.aliases@),
            ai_extra: ostr(self.ai_extra),
            last_reviewed_by: ostr(self.last_reviewed_by),
            owner: ostr(self.owner),
            confidence_notes: ostr(self.confidence_notes),
        }
    }
}

impl AnswerFrontMatter {
    pub fn is_machine_ai_visible(&self) -> (r: bool)
        ensures
            r == spec_machine_ai_visible(self.visibility, self.ai_visibility),
    {
        is_machine_ai_visible(&self.visibility, &self.ai_visibility)
    }
}

} // verus!
