use vstd::prelude::*;

use crate::error::RelayError;
use crate::gateway::{completion_request, reply_from_delivery, reply_outcome, CompletionRequest, Delivery, MODEL_NAME};
use crate::history::SYSTEM_ROLE;
use crate::message::{transcript_view, ChatMessage, MessageView};
use crate::text::{escape_apostrophes, escape_apostrophes_spec};

verus! {

/// Role label of the request that asks for a persona prompt.
pub const USER_ROLE: &'static str = "user";

/// Instructions that steer the completion service towards writing a persona prompt.
pub const PERSONA_INSTRUCTIONS: &'static str = "
    You are an AI assistant specializing in creating detailed, practical, and engaging persona prompts. 
    
    Guidelines for creating the persona:
    1. Create a concise, well-structured personality profile with clear instructions
    2. Define the persona's expertise, knowledge boundaries, tone, and communication style
    3. Include 2-3 specific examples of how the persona should respond to different types of questions
    4. Provide guidance on handling difficult or out-of-scope questions
    5. Keep responses brief - emphasize that the persona should answer in 2-4 concise sentences
    6. Avoid technical formatting like XML, JSON, or markdown
    7. Include personality traits that make interactions engaging and human-like
    8. Specify any ethical boundaries or guidelines the persona should follow
    
    Format the prompt in clear paragraphs with appropriate spacing for readability.
    ";

/// Text of the persona request before the baseline prompt.
pub const PERSONA_REQUEST_HEAD: &'static str = "Create a detailed persona prompt for: ";

/// Text of the persona request after the baseline prompt.
pub const PERSONA_REQUEST_TAIL: &'static str =
    "\n\nMake this persona distinctive, memorable, and practical for real conversations.";

/// The fields of an expansion form: the current context, and the baseline
/// prompt of earlier expansions (empty before the first).
pub struct ExpandPromptRequest {
    pub context: String,
    pub original_prompt: String,
}

/// The system prompt panel: the baseline that later expansions start from,
/// and the context text shown for editing.
pub struct PromptPanel {
    pub original_prompt: String,
    pub context: String,
}

/// An expansion that waits for the completion service's reply.
pub struct PendingExpansion {
    pub original_prompt: String,
    pub request: CompletionRequest,
}

/// The prompt an expansion starts from: the stored baseline, or the current
/// context when no baseline is stored yet.
pub open spec fn baseline(context: Seq<char>, original_prompt: Seq<char>) -> Seq<char> {
    if original_prompt.len() == 0 {
        context
    } else {
        original_prompt
    }
}

/// The messages that ask for a persona prompt built on `base`.
pub open spec fn persona_messages(base: Seq<char>) -> Seq<MessageView> {
    seq![
        (SYSTEM_ROLE@, PERSONA_INSTRUCTIONS@),
        (USER_ROLE@, PERSONA_REQUEST_HEAD@ + base + PERSONA_REQUEST_TAIL@),
    ]
}

/// The baseline prompt of an expansion form.
pub fn resolve_baseline(form: &ExpandPromptRequest) -> (r: String)
    ensures
        r@ == baseline(form.context@, form.original_prompt@),
{
    if form.original_prompt.as_str().unicode_len() == 0 {
        form.context.clone()
    } else {
        form.original_prompt.clone()
    }
}

/// Prepares an expansion: settles the baseline and builds the request that
/// asks for a persona prompt on it.
pub fn start_expansion(form: &ExpandPromptRequest) -> (r: PendingExpansion)
    ensures
        r.original_prompt@ == baseline(form.context@, form.original_prompt@),
        r.request.model@ == MODEL_NAME@,
        transcript_view(r.request.messages@) == persona_messages(r.original_prompt@),
{
    let base = resolve_baseline(form);
    let ask = String::from_str(PERSONA_REQUEST_HEAD).concat(base.as_str()).concat(
        PERSONA_REQUEST_TAIL,
    );
    let mut messages: Vec<ChatMessage> = Vec::new();
    messages.push(
        ChatMessage::new(String::from_str(SYSTEM_ROLE), String::from_str(PERSONA_INSTRUCTIONS)),
    );
    messages.push(ChatMessage::new(String::from_str(USER_ROLE), ask));
    assert(transcript_view(messages@) =~= persona_messages(base@));
    PendingExpansion { original_prompt: base, request: completion_request(messages) }
}

/// Folds the reply into the prompt panel: the reply becomes the context,
/// and the baseline is handed back for the next expansion.
pub fn finish_expansion(pending: PendingExpansion, delivery: &Delivery, strip_reasoning: bool) -> (r:
    Result<PromptPanel, RelayError>)
    ensures
        match reply_outcome(*delivery, strip_reasoning) {
            Ok(t) => match r {
                Ok(p) => p.context@ == t && p.original_prompt@ == pending.original_prompt@,
                Err(_) => false,
            },
            Err(e) => r == Err::<PromptPanel, RelayError>(e),
        },
{
    let reply = reply_from_delivery(delivery, strip_reasoning)?;
    Ok(PromptPanel { original_prompt: pending.original_prompt, context: reply })
}

/// The panel after the system prompt is cleared: no baseline, no context.
pub fn cleared_prompt() -> (r: PromptPanel)
    ensures
        r.original_prompt@.len() == 0,
        r.context@.len() == 0,
{
    PromptPanel { original_prompt: String::new(), context: String::new() }
}

impl PromptPanel {
    /// The panel with apostrophes escaped in both fields, ready to stand
    /// inside single-quoted HTML.
    pub fn escaped(&self) -> (r: PromptPanel)
        ensures
            r.original_prompt@ == escape_apostrophes_spec(self.original_prompt@),
            r.context@ == escape_apostrophes_spec(self.context@),
    {
        PromptPanel {
            original_prompt: escape_apostrophes(self.original_prompt.as_str()),
            context: escape_apostrophes(self.context.as_str()),
        }
    }
}

/// Expanding again with the panel an expansion returned, its context not
/// edited in between, starts from the same baseline as before, not from
/// the expanded text; this holds whenever that baseline is not empty.
pub proof fn lemma_expansion_keeps_baseline(
    context: Seq<char>,
    original_prompt: Seq<char>,
    expanded: Seq<char>,
)
    requires
        baseline(context, original_prompt).len() > 0,
    ensures
        baseline(expanded, baseline(context, original_prompt)) == baseline(
            context,
            original_prompt,
        ),
{
}

} // verus!
