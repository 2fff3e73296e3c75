//! The compute half of one chat-completion round trip: building the
//! message list that goes out with a request, and extracting the reply
//! text from a decoded response.
//!
//! Serialisation and the HTTP exchange themselves are the surrounding
//! application's business; this module only decides what is sent and
//! what a decoded response means.

use vstd::prelude::*;
use vstd::string::*;

use crate::messages::{system_prompt, system_prompt_text, Role};

verus! {

/// One message of an outgoing completion request.
#[derive(Debug, PartialEq)]
pub struct ChatCompletionMessage {
    pub role: Role,
    pub content: String,
}

/// A decoded completion response: the candidate choices, best first.
#[derive(Debug, PartialEq)]
pub struct ChatCompletionResponse {
    pub choices: Vec<ChatCompletionChoice>,
}

/// One candidate answer of a completion response.
#[derive(Debug, PartialEq)]
pub struct ChatCompletionChoice {
    pub message: ChatCompletionMessageResponse,
}

/// The message carried by one candidate answer.
#[derive(Debug, PartialEq)]
pub struct ChatCompletionMessageResponse {
    pub content: String,
}

/// The error reported when a response carries no choice at all.
pub open spec fn no_response_error() -> Seq<char> {
    "No response from OpenAI"@
}

/// Builds the message list of one outgoing request: the standing system
/// prompt, then the user's text.
pub fn build_request_messages(content: &str) -> (r: Vec<ChatCompletionMessage>)
    ensures
        r@.len() == 2,
        r@[0].role == Role::System,
        r@[0].content@ == system_prompt(),
        r@[1].role == Role::User,
        r@[1].content@ == content@,
{
    let mut v: Vec<ChatCompletionMessage> = Vec::new();
    v.push(ChatCompletionMessage { role: Role::System, content: system_prompt_text() });
    v.push(ChatCompletionMessage { role: Role::User, content: content.to_owned() });
    v
}

/// Extracts the reply text from a decoded response: the first choice's
/// content when one exists, and the no-response error otherwise.
pub fn extract_reply(resp: ChatCompletionResponse) -> (r: Result<String, String>)
    ensures
        resp.choices@.len() > 0 ==> (r matches Ok(c) && c@ == resp.choices@[0].message.content@),
        resp.choices@.len() == 0 ==> (r matches Err(e) && e@ == no_response_error()),
{
    let mut choices = resp.choices;
    if choices.len() > 0 {
        let first = choices.remove(0);
        Ok(first.message.content)
    } else {
        Err(String::from_str("No response from OpenAI"))
    }
}

} // verus!
