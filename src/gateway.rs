use vstd::prelude::*;

use crate::error::RelayError;
use crate::message::{transcript_view, ChatMessage};
use crate::text::chars_of;

verus! {

/// Model identifier sent with every completion request.
pub const MODEL_NAME: &'static str = "gpt-3.5-turbo";

/// Path of the chat-completion endpoint under the service's base URL.
pub const COMPLETIONS_PATH: &'static str = "/v1/chat/completions";

/// Marker that ends a model's reasoning preamble.
pub const REASONING_END_MARKER: &'static str = "</think>";

/// Where and how the completion service is called.
pub struct RelayConfig {
    /// Full URL of the chat-completion endpoint.
    pub endpoint: String,
    /// Whether replies are cut to the text after the reasoning end marker.
    pub strip_reasoning: bool,
}

impl RelayConfig {
    /// The configuration for a service at `base_url`.
    pub fn new(base_url: &str, strip_reasoning: bool) -> (r: RelayConfig)
        ensures
            r.endpoint@ == base_url@ + COMPLETIONS_PATH@,
            r.strip_reasoning == strip_reasoning,
    {
        let endpoint = String::from_str(base_url).concat(COMPLETIONS_PATH);
        RelayConfig { endpoint, strip_reasoning }
    }
}

/// The body of a completion request.
pub struct CompletionRequest {
    pub model: String,
    pub messages: Vec<ChatMessage>,
}

/// One candidate reply of the completion service.
pub struct Choice {
    pub message: ChatMessage,
    pub logprobs: Option<String>,
    pub finish_reason: String,
}

/// The decoded body of a completion response.
pub struct CompletionResponse {
    pub choices: Vec<Choice>,
}

/// What came back from one attempt to call the completion service.
pub enum Delivery {
    /// The request could not be delivered, or no response arrived.
    Unreachable,
    /// A response arrived whose body does not have the expected shape.
    Undecodable,
    /// A response arrived and its body was decoded.
    Received(CompletionResponse),
}

/// The request that carries a wire transcript to the completion service.
pub fn completion_request(messages: Vec<ChatMessage>) -> (r: CompletionRequest)
    ensures
        r.model@ == MODEL_NAME@,
        r.messages@ == messages@,
{
    CompletionRequest { model: String::from_str(MODEL_NAME), messages }
}

/// Whether `m` occurs in `s` starting at position `i`.
pub open spec fn occurs_at(s: Seq<char>, m: Seq<char>, i: int) -> bool {
    0 <= i && i + m.len() <= s.len() && s.subrange(i, i + m.len()) == m
}

/// The first position at or after `i` where `m` occurs in `s`.
pub open spec fn find_from(s: Seq<char>, m: Seq<char>, i: int) -> Option<int>
    decreases s.len() + 1 - i,
{
    if i < 0 || i + m.len() > s.len() {
        None
    } else if occurs_at(s, m, i) {
        Some(i)
    } else {
        find_from(s, m, i + 1)
    }
}

/// The text after the first reasoning end marker, if there is one.
pub open spec fn after_marker(s: Seq<char>) -> Option<Seq<char>> {
    match find_from(s, REASONING_END_MARKER@, 0) {
        Some(i) => Some(s.subrange(i + REASONING_END_MARKER@.len(), s.len() as int)),
        None => None,
    }
}

/// The reply text that an attempt yields, or the failure it stands for.
pub open spec fn reply_outcome(d: Delivery, strip_reasoning: bool) -> Result<
    Seq<char>,
    RelayError,
> {
    match d {
        Delivery::Unreachable => Err(RelayError::UpstreamUnreachable),
        Delivery::Undecodable => Err(RelayError::UpstreamMalformed),
        Delivery::Received(resp) => if resp.choices@.len() == 0 {
            Err(RelayError::UpstreamMalformed)
        } else {
            let text = resp.choices@[0].message.content@;
            if strip_reasoning {
                match after_marker(text) {
                    Some(t) => Ok(t),
                    None => Err(RelayError::ReasoningMarkerMissing),
                }
            } else {
                Ok(text)
            }
        },
    }
}

fn occurs_at_exec(s: &Vec<char>, m: &Vec<char>, i: usize) -> (r: bool)
    requires
        i + m@.len() <= s@.len(),
    ensures
        r == occurs_at(s@, m@, i as int),
{
    let n = s.len();
    let mut j: usize = 0;
    while j < m.len()
        invariant
            n == s@.len(),
            i + m@.len() <= s@.len(),
            j <= m@.len(),
            forall|k: int| 0 <= k < j ==> s@[i + k] == m@[k],
        decreases m@.len() - j,
    {
        if s[i + j] != m[j] {
            assert(s@.subrange(i as int, i + m@.len())[j as int] != m@[j as int]);
            return false;
        }
        j = j + 1;
    }
    assert(s@.subrange(i as int, i + m@.len()) =~= m@);
    true
}

/// The text after the first occurrence of the reasoning end marker; refused
/// when the marker does not occur.
pub fn strip_reasoning(reply: &str) -> (r: Result<String, RelayError>)
    ensures
        match r {
            Ok(t) => after_marker(reply@) == Some(t@),
            Err(e) => after_marker(reply@) is None && e == RelayError::ReasoningMarkerMissing,
        },
{
    let s = chars_of(reply);
    let m = chars_of(REASONING_END_MARKER);
    proof {
        reveal_strlit("</think>");
    }
    let n = s.len();
    let ml = m.len();
    let ghost target = find_from(s@, m@, 0);
    if ml > n {
        return Err(RelayError::ReasoningMarkerMissing);
    }
    let mut i: usize = 0;
    while i <= n - ml
        invariant
            n == s@.len(),
            ml == m@.len(),
            ml == 8,
            ml <= n,
            i <= n - ml + 1,
            s@ == reply@,
            m@ == REASONING_END_MARKER@,
            target == find_from(s@, m@, 0),
            find_from(s@, m@, i as int) == target,
        decreases n - ml + 1 - i,
    {
        if occurs_at_exec(&s, &m, i) {
            let rest = reply.substring_char(i + ml, n);
            return Ok(String::from_str(rest));
        }
        i = i + 1;
    }
    Err(RelayError::ReasoningMarkerMissing)
}

/// The reply text of an attempt to call the completion service: the content
/// of the first choice, cut after the reasoning end marker when asked to.
/// An empty choice list is a malformed response.
pub fn reply_from_delivery(d: &Delivery, strip: bool) -> (r: Result<String, RelayError>)
    ensures
        match r {
            Ok(t) => reply_outcome(*d, strip) == Ok::<Seq<char>, RelayError>(t@),
            Err(e) => reply_outcome(*d, strip) == Err::<Seq<char>, RelayError>(e),
        },
{
    match d {
        Delivery::Unreachable => Err(RelayError::UpstreamUnreachable),
        Delivery::Undecodable => Err(RelayError::UpstreamMalformed),
        Delivery::Received(resp) => {
            if resp.choices.len() == 0 {
                return Err(RelayError::UpstreamMalformed);
            }
            let text = &resp.choices[0].message.content;
            if strip {
                strip_reasoning(text.as_str())
            } else {
                Ok(text.clone())
            }
        },
    }
}

} // verus!
