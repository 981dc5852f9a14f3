use vstd::prelude::*;

use crate::error::RelayError;
use crate::message::{transcript_view, ChatMessage, MessageView};

verus! {

/// Role label of the synthetic context message sent ahead of a transcript.
pub const SYSTEM_ROLE: &'static str = "system";

/// Role label of replies from the completion service.
pub const AI_ROLE: &'static str = "AI";

/// The strings of a form array; an absent array holds none.
pub open spec fn field_items(f: Option<Vec<String>>) -> Seq<String> {
    match f {
        Some(v) => v@,
        None => Seq::empty(),
    }
}

/// Parallel content and role arrays, paired position by position.
pub open spec fn zipped(contents: Seq<String>, roles: Seq<String>) -> Seq<MessageView> {
    Seq::new(contents.len(), |i: int| (roles[i]@, contents[i]@))
}

/// Whether the two form arrays can be paired.
pub open spec fn arrays_match(contents: Option<Vec<String>>, roles: Option<Vec<String>>) -> bool {
    field_items(contents).len() == field_items(roles).len()
}

/// The transcript that the two form arrays carry.
pub open spec fn carried(contents: Option<Vec<String>>, roles: Option<Vec<String>>) -> Seq<
    MessageView,
> {
    zipped(field_items(contents), field_items(roles))
}

/// The transcript as sent to the completion service: the context first, as
/// a system message, then every turn.
pub open spec fn wire_transcript(t: Seq<MessageView>, context: Seq<char>) -> Seq<MessageView> {
    seq![(SYSTEM_ROLE@, context)] + t
}

/// `t` cut to its first `k` entries when a cut `k` is given and shorter than
/// `t`; otherwise `t` unchanged.
pub open spec fn truncated<A>(t: Seq<A>, cut: Option<int>) -> Seq<A> {
    match cut {
        Some(k) => if k < t.len() {
            t.take(k)
        } else {
            t
        },
        None => t,
    }
}

/// `t` followed by a reply of the completion service.
pub open spec fn with_reply(t: Seq<MessageView>, reply: Seq<char>) -> Seq<MessageView> {
    t.push((AI_ROLE@, reply))
}

fn field_len(f: &Option<Vec<String>>) -> (r: usize)
    ensures
        r == field_items(*f).len(),
{
    match f {
        Some(v) => v.len(),
        None => 0,
    }
}

/// Pairs the content and role arrays of a form into a transcript, in order.
/// Arrays of different lengths are refused.
pub fn decode_history(contents: &Option<Vec<String>>, roles: &Option<Vec<String>>) -> (r: Result<
    Vec<ChatMessage>,
    RelayError,
>)
    ensures
        match r {
            Ok(v) => arrays_match(*contents, *roles) && transcript_view(v@) == carried(
                *contents,
                *roles,
            ),
            Err(e) => !arrays_match(*contents, *roles) && e == RelayError::MalformedHistory,
        },
{
    let n = field_len(contents);
    if n != field_len(roles) {
        return Err(RelayError::MalformedHistory);
    }
    let mut out: Vec<ChatMessage> = Vec::new();
    match (contents, roles) {
        (Some(cs), Some(rs)) => {
            let mut i: usize = 0;
            while i < n
                invariant
                    n == cs@.len(),
                    n == rs@.len(),
                    i <= n,
                    out@.len() == i,
                    forall|j: int| 0 <= j < i ==> #[trigger] out@[j]@ == (rs@[j]@, cs@[j]@),
                decreases n - i,
            {
                out.push(ChatMessage::new(rs[i].clone(), cs[i].clone()));
                i = i + 1;
            }
        },
        _ => {},
    }
    assert(transcript_view(out@) =~= carried(*contents, *roles));
    Ok(out)
}

/// Appends a turn at the end of a transcript.
pub fn append_turn(history: &mut Vec<ChatMessage>, role: String, content: String)
    ensures
        transcript_view(final(history)@) == transcript_view(old(history)@).push(
            (role@, content@),
        ),
{
    history.push(ChatMessage::new(role, content));
    assert(transcript_view(final(history)@) =~= transcript_view(old(history)@).push(
        (role@, content@),
    ));
}

/// Decodes the transcript that a form carries and appends the user's new
/// message under the session's display name.
pub fn build_transcript(
    contents: &Option<Vec<String>>,
    roles: &Option<Vec<String>>,
    user_name: String,
    user_message: String,
) -> (r: Result<Vec<ChatMessage>, RelayError>)
    ensures
        match r {
            Ok(v) => arrays_match(*contents, *roles) && transcript_view(v@) == carried(
                *contents,
                *roles,
            ).push((user_name@, user_message@)),
            Err(e) => !arrays_match(*contents, *roles) && e == RelayError::MalformedHistory,
        },
{
    let mut history = decode_history(contents, roles)?;
    append_turn(&mut history, user_name, user_message);
    Ok(history)
}

/// The transcript as sent to the completion service: a system message
/// holding the context, then a copy of every turn.
pub fn wrap_context(transcript: &Vec<ChatMessage>, context: &str) -> (r: Vec<ChatMessage>)
    ensures
        transcript_view(r@) == wire_transcript(transcript_view(transcript@), context@),
{
    let mut out: Vec<ChatMessage> = Vec::new();
    out.push(ChatMessage::new(String::from_str(SYSTEM_ROLE), String::from_str(context)));
    let mut i: usize = 0;
    while i < transcript.len()
        invariant
            i <= transcript@.len(),
            out@.len() == i + 1,
            out@[0]@ == (SYSTEM_ROLE@, context@),
            forall|j: int| 0 <= j < i ==> #[trigger] out@[j + 1]@ == transcript@[j]@,
        decreases transcript@.len() - i,
    {
        out.push(transcript[i].duplicate());
        i = i + 1;
    }
    assert forall|k: int| 1 <= k < out@.len() implies out@[k]@ == transcript@[k - 1]@ by {
        assert(out@[(k - 1) + 1]@ == transcript@[k - 1]@);
    }
    assert(transcript_view(out@) =~= wire_transcript(transcript_view(transcript@), context@));
    out
}

/// Cuts a transcript to its first `cut` entries; a missing cut, or one not
/// shorter than the transcript, leaves it unchanged.
pub fn truncate_at(history: &mut Vec<ChatMessage>, cut: Option<usize>)
    ensures
        transcript_view(final(history)@) == truncated(
            transcript_view(old(history)@),
            match cut {
                Some(k) => Some(k as int),
                None => None,
            },
        ),
{
    if let Some(k) = cut {
        history.truncate(k);
        assert(transcript_view(final(history)@) =~= truncated(
            transcript_view(old(history)@),
            Some(k as int),
        ));
    }
}

} // verus!
