use vstd::prelude::*;

verus! {

/// A message as the contracts see it: (role, content).
pub type MessageView = (Seq<char>, Seq<char>);

/// One turn of a conversation: who spoke, and what was said.
#[derive(Clone, Debug)]
pub struct ChatMessage {
    pub role: String,
    pub content: String,
}

impl View for ChatMessage {
    type V = MessageView;

    open spec fn view(&self) -> MessageView {
        (self.role@, self.content@)
    }
}

/// The views of a sequence of messages, in order.
pub open spec fn transcript_view(v: Seq<ChatMessage>) -> Seq<MessageView> {
    v.map_values(|m: ChatMessage| m@)
}

impl ChatMessage {
    pub fn new(role: String, content: String) -> (r: ChatMessage)
        ensures
            r@ == (role@, content@),
    {
        ChatMessage { role, content }
    }

    /// A copy of this message with the same role and content.
    pub fn duplicate(&self) -> (r: ChatMessage)
        ensures
            r@ == self@,
    {
        ChatMessage { role: self.role.clone(), content: self.content.clone() }
    }
}

} // verus!
