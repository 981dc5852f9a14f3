use vstd::prelude::*;

use crate::cut_index::{cut_of_field, cut_value, parse_cut_index};
use crate::error::RelayError;
use crate::gateway::{completion_request, reply_from_delivery, reply_outcome, CompletionRequest, Delivery, MODEL_NAME};
use crate::history::{
    arrays_match, build_transcript, carried, decode_history, field_items, truncate_at, truncated,
    with_reply, wire_transcript, wrap_context, AI_ROLE,
};
use crate::message::{transcript_view, ChatMessage, MessageView};

verus! {

/// The fields of a submitted chat form: the transcript as parallel content
/// and role arrays, the context, the new user message, and for a
/// regeneration the index to cut the transcript at.
pub struct SendMessageRequest {
    pub content: Option<Vec<String>>,
    pub role: Option<Vec<String>>,
    pub context: String,
    pub user_message: String,
    pub regenerate_index: Option<String>,
}

/// What the renderer receives: the transcript to show, the context to
/// redisplay, and the text of the input field.
pub struct ChatFragment {
    pub messages: Vec<ChatMessage>,
    pub context: String,
    pub user_message: String,
}

/// A request that waits for the completion service's reply: the transcript
/// shown to the user, the context it came with, and the request to send.
pub struct PendingReply {
    pub display: Vec<ChatMessage>,
    pub context: String,
    pub request: CompletionRequest,
}

/// What the entry page shows.
pub enum LandingPage {
    /// An empty chat, for a visitor with a session.
    Chat(ChatFragment),
    /// The login form, for a visitor without one.
    Login,
}

/// The view of an optional text field.
pub open spec fn field_text(f: Option<String>) -> Option<Seq<char>> {
    match f {
        Some(s) => Some(s@),
        None => None,
    }
}

/// Whether `p` is ready to send `display` with `context` to the completion service.
pub open spec fn pending_for(p: PendingReply, display: Seq<MessageView>, context: Seq<char>) -> bool {
    &&& transcript_view(p.display@) == display
    &&& p.context@ == context
    &&& p.request.model@ == MODEL_NAME@
    &&& transcript_view(p.request.messages@) == wire_transcript(display, context)
}

/// Admits a request that carries a session display name; refuses one that
/// carries none.
pub fn require_session(session: Option<String>) -> (r: Result<String, RelayError>)
    ensures
        match session {
            Some(name) => r == Ok::<String, RelayError>(name),
            None => r == Err::<String, RelayError>(RelayError::Unauthenticated),
        },
{
    match session {
        Some(name) => Ok(name),
        None => Err(RelayError::Unauthenticated),
    }
}

/// Prepares a new turn: the transcript the form carries, then the user's
/// message under the session's name; the completion request holds that
/// transcript behind the context.
pub fn start_turn(session: Option<String>, form: SendMessageRequest) -> (r: Result<
    PendingReply,
    RelayError,
>)
    ensures
        match session {
            None => r == Err::<PendingReply, RelayError>(RelayError::Unauthenticated),
            Some(name) => match r {
                Ok(p) => arrays_match(form.content, form.role) && pending_for(
                    p,
                    carried(form.content, form.role).push((name@, form.user_message@)),
                    form.context@,
                ),
                Err(e) => !arrays_match(form.content, form.role) && e
                    == RelayError::MalformedHistory,
            },
        },
{
    let name = require_session(session)?;
    let display = build_transcript(&form.content, &form.role, name, form.user_message)?;
    let wire = wrap_context(&display, form.context.as_str());
    Ok(PendingReply { display, context: form.context, request: completion_request(wire) })
}

/// Prepares a regeneration: the transcript the form carries, cut at the
/// regeneration index when one is given and readable; the completion
/// request holds that transcript behind the context.
pub fn start_regeneration(session: Option<String>, form: SendMessageRequest) -> (r: Result<
    PendingReply,
    RelayError,
>)
    ensures
        match session {
            None => r == Err::<PendingReply, RelayError>(RelayError::Unauthenticated),
            Some(_) => match r {
                Ok(p) => arrays_match(form.content, form.role) && pending_for(
                    p,
                    truncated(
                        carried(form.content, form.role),
                        cut_of_field(field_text(form.regenerate_index)),
                    ),
                    form.context@,
                ),
                Err(e) => !arrays_match(form.content, form.role) && e
                    == RelayError::MalformedHistory,
            },
        },
{
    let _name = require_session(session)?;
    let mut display = decode_history(&form.content, &form.role)?;
    let cut = match &form.regenerate_index {
        Some(text) => parse_cut_index(text.as_str()),
        None => None,
    };
    truncate_at(&mut display, cut);
    let wire = wrap_context(&display, form.context.as_str());
    Ok(PendingReply { display, context: form.context, request: completion_request(wire) })
}

/// Folds the completion service's answer into the transcript: its reply
/// is appended under the AI role, the context is kept verbatim and the
/// input field is cleared. A failed attempt yields its failure.
pub fn finish_reply(pending: PendingReply, delivery: &Delivery, strip_reasoning: bool) -> (r:
    Result<ChatFragment, RelayError>)
    ensures
        match reply_outcome(*delivery, strip_reasoning) {
            Ok(t) => match r {
                Ok(f) => transcript_view(f.messages@) == with_reply(
                    transcript_view(pending.display@),
                    t,
                ) && f.context@ == pending.context@ && f.user_message@.len() == 0,
                Err(_) => false,
            },
            Err(e) => r == Err::<ChatFragment, RelayError>(e),
        },
{
    let reply = reply_from_delivery(delivery, strip_reasoning)?;
    let mut messages = pending.display;
    let ghost before = messages@;
    messages.push(ChatMessage::new(String::from_str(AI_ROLE), reply));
    assert(transcript_view(messages@) =~= with_reply(transcript_view(before), reply@));
    Ok(ChatFragment { messages, context: pending.context, user_message: String::new() })
}

/// The fragment after the transcript is cleared: no messages, the context
/// kept, the input field empty.
pub fn cleared_fragment(context: String) -> (r: ChatFragment)
    ensures
        r.messages@.len() == 0,
        r.context@ == context@,
        r.user_message@.len() == 0,
{
    ChatFragment { messages: Vec::new(), context, user_message: String::new() }
}

/// The entry page: an empty chat for a visitor with a session, the login
/// form otherwise.
pub fn landing_page(session: &Option<String>) -> (r: LandingPage)
    ensures
        match r {
            LandingPage::Chat(f) => session is Some && f.messages@.len() == 0 && f.context@.len()
                == 0 && f.user_message@.len() == 0,
            LandingPage::Login => session is None,
        },
{
    match session {
        Some(_) => LandingPage::Chat(
            ChatFragment { messages: Vec::new(), context: String::new(), user_message: String::new() },
        ),
        None => LandingPage::Login,
    }
}

/// A decoded turn holds every carried message in order, then the user's
/// new message: one entry more than the form's arrays.
pub proof fn lemma_turn_layout(
    contents: Option<Vec<String>>,
    roles: Option<Vec<String>>,
    user_name: Seq<char>,
    user_message: Seq<char>,
)
    requires
        arrays_match(contents, roles),
    ensures
        ({
            let t = carried(contents, roles).push((user_name, user_message));
            &&& t.len() == field_items(contents).len() + 1
            &&& t.last() == (user_name, user_message)
            &&& forall|i: int|
                0 <= i < field_items(contents).len() ==> #[trigger] t[i] == (
                    field_items(roles)[i]@,
                    field_items(contents)[i]@,
                )
        }),
{
}

/// The wire transcript is one entry longer than the transcript it wraps,
/// starts with the context as a system message, and so never equals the
/// transcript that is shown.
pub proof fn lemma_wire_wraps_display(t: Seq<MessageView>, context: Seq<char>)
    ensures
        wire_transcript(t, context).len() == t.len() + 1,
        wire_transcript(t, context)[0] == (crate::history::SYSTEM_ROLE@, context),
        wire_transcript(t, context).drop_first() == t,
        wire_transcript(t, context) != t,
{
    assert(wire_transcript(t, context).drop_first() =~= t);
    assert(wire_transcript(t, context).len() != t.len());
}

/// Regenerating from a cut `k` within the transcript keeps its first `k`
/// entries and replaces the rest with exactly one new reply.
pub proof fn lemma_regeneration_keeps_prefix(t: Seq<MessageView>, k: int, reply: Seq<char>)
    requires
        0 <= k <= t.len(),
    ensures
        ({
            let r = with_reply(truncated(t, Some(k)), reply);
            &&& r.len() == k + 1
            &&& r.take(k) == t.take(k)
            &&& r[k] == (AI_ROLE@, reply)
        }),
{
    let r = with_reply(truncated(t, Some(k)), reply);
    if k == t.len() {
        assert(t.take(k) =~= t);
    }
    assert(r.take(k) =~= t.take(k));
}

/// A regeneration index that is absent or cannot be read leaves the
/// transcript exactly as it came.
pub proof fn lemma_unreadable_cut_passes_through(t: Seq<MessageView>, index: Option<Seq<char>>)
    requires
        index is None || cut_value(index->0) is None,
    ensures
        truncated(t, cut_of_field(index)) == t,
{
}

} // verus!
