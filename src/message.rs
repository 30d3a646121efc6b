//! Conversation entries and the shapes of a completion request and response.
use vstd::prelude::*;

verus! {

/// The model asked for in every completion request.
pub const MODEL: &'static str = "gpt-3.5-turbo";

/// One role-tagged entry of a conversation.
pub struct Message {
    pub role: Option<String>,
    pub content: String,
}

/// What a `Message` holds, as mathematical text.
pub ghost struct MessageView {
    pub role: Option<Seq<char>>,
    pub content: Seq<char>,
}

pub open spec fn opt_text(s: Option<String>) -> Option<Seq<char>> {
    match s {
        Some(t) => Some(t@),
        None => None,
    }
}

impl View for Message {
    type V = MessageView;

    open spec fn view(&self) -> MessageView {
        MessageView { role: opt_text(self.role), content: self.content@ }
    }
}

/// The views of a list of messages, entry by entry.
pub open spec fn views(ms: Seq<Message>) -> Seq<MessageView> {
    ms.map_values(|m: Message| m@)
}

/// A completion request: the model and a snapshot of the conversation.
pub struct Request {
    pub model: String,
    pub messages: Vec<Message>,
}

/// Token counters reported with a completion.
pub struct Usage {
    pub prompt_tokens: usize,
    pub completion_tokens: usize,
    pub total_tokens: usize,
}

/// One candidate reply of a completion.
pub struct Choice {
    pub index: usize,
    pub message: Message,
    pub finish_reason: Option<String>,
}

/// A parsed completion response.
pub struct Response {
    pub id: Option<String>,
    pub object: Option<String>,
    pub created: Option<i64>,
    pub choices: Vec<Choice>,
    pub usage: Usage,
}

/// The text with surrounding whitespace removed, as `str::trim` computes it.
pub uninterp spec fn trimmed(s: Seq<char>) -> Seq<char>;

/// Relies on `str::trim`: the result depends on the text alone.
#[verifier::external_body]
pub(crate) fn trim_text(s: &str) -> (r: String)
    ensures
        r@ == trimmed(s@),
{
    s.trim().to_string()
}

/// The trimmed reply text of a response: that of its first choice, if any.
pub open spec fn reply_of(resp: Response) -> Option<Seq<char>> {
    if resp.choices@.len() > 0 {
        Some(trimmed(resp.choices@[0].message.content@))
    } else {
        None
    }
}

/// The first choice's content, trimmed; `None` when the response has no choices.
pub fn first_reply(resp: &Response) -> (r: Option<String>)
    ensures
        opt_text(r) == reply_of(*resp),
{
    if resp.choices.len() > 0 {
        Some(trim_text(resp.choices[0].message.content.as_str()))
    } else {
        None
    }
}

pub fn clone_text(s: &Option<String>) -> (r: Option<String>)
    ensures
        opt_text(r) == opt_text(*s),
{
    match s {
        Some(t) => Some(t.clone()),
        None => None,
    }
}

impl Message {
    /// A copy of the message.
    pub fn duplicate(&self) -> (r: Message)
        ensures
            r@ == self@,
    {
        Message { role: clone_text(&self.role), content: self.content.clone() }
    }
}

} // verus!
