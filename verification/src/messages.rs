//! The transcript's building block: a message with a role and a text
//! content, together with its mathematical view.

use vstd::prelude::*;
use vstd::string::*;

verus! {

/// Who a transcript entry speaks for.
#[derive(Clone, Copy, Debug, PartialEq, Eq, Structural)]
pub enum Role {
    System,
    User,
    Assistant,
}

/// One transcript entry. Immutable once appended.
#[derive(Debug, PartialEq)]
pub struct ChatMessage {
    pub role: Role,
    pub content: String,
}

/// The mathematical value of a [`ChatMessage`]: its role and the
/// characters of its content.
pub struct MessageView {
    pub role: Role,
    pub content: Seq<char>,
}

impl View for ChatMessage {
    type V = MessageView;

    open spec fn view(&self) -> MessageView {
        MessageView { role: self.role, content: self.content@ }
    }
}

impl Clone for ChatMessage {
    fn clone(&self) -> (r: Self)
        ensures
            r@ == self@,
    {
        ChatMessage { role: self.role, content: self.content.clone() }
    }
}

/// The views of a sequence of messages, in order.
pub open spec fn msgs_view(v: Seq<ChatMessage>) -> Seq<MessageView> {
    v.map_values(|m: ChatMessage| m@)
}

/// Mapping to views distributes over appending one message.
pub proof fn lemma_msgs_view_push(s: Seq<ChatMessage>, m: ChatMessage)
    ensures
        msgs_view(s.push(m)) == msgs_view(s).push(m@),
{
    assert(msgs_view(s.push(m)) =~= msgs_view(s).push(m@));
}

/// Mapping to views distributes over concatenation.
pub proof fn lemma_msgs_view_add(s: Seq<ChatMessage>, t: Seq<ChatMessage>)
    ensures
        msgs_view(s + t) == msgs_view(s) + msgs_view(t),
{
    assert(msgs_view(s + t) =~= msgs_view(s) + msgs_view(t));
}

/// Mapping to views commutes with taking a prefix.
pub proof fn lemma_msgs_view_take(s: Seq<ChatMessage>, n: int)
    requires
        0 <= n <= s.len(),
    ensures
        msgs_view(s.take(n)) == msgs_view(s).take(n),
{
    assert(msgs_view(s.take(n)) =~= msgs_view(s).take(n));
}

/// The standing system prompt that opens every transcript and every
/// outgoing request.
pub open spec fn system_prompt() -> Seq<char> {
    "You are a helpful assistant. You can use markdown formatting in your responses."@
}

/// Returns the system prompt as an owned string.
pub fn system_prompt_text() -> (r: String)
    ensures
        r@ == system_prompt(),
{
    String::from_str(
        "You are a helpful assistant. You can use markdown formatting in your responses.",
    )
}

/// Returns the system message that stands at position 0 of a fresh
/// transcript.
pub fn system_message() -> (m: ChatMessage)
    ensures
        m@.role == Role::System,
        m@.content == system_prompt(),
{
    ChatMessage { role: Role::System, content: system_prompt_text() }
}

} // verus!
