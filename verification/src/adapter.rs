//! Request adapters: shape the unified conversation into the request each
//! stage's provider receives.
//!
//! The reasoning stage sees the caller's message history unmodified. The
//! completion stage sees the same history plus one distinguished
//! system-role segment holding the reasoning stage's full output text.

use vstd::prelude::*;
use crate::models::{Message, MessageView, Role, messages_view};

verus! {

/// A request in the uniform shape handed to one provider client, already
/// resolved to a concrete model.
#[derive(Debug)]
pub struct ProviderRequest {
    pub model: String,
    pub messages: Vec<Message>,
    pub stream: bool,
}

/// Mathematical model of a `ProviderRequest`.
pub struct ProviderRequestView {
    pub model: Seq<char>,
    pub messages: Seq<MessageView>,
    pub stream: bool,
}

impl View for ProviderRequest {
    type V = ProviderRequestView;

    open spec fn view(&self) -> ProviderRequestView {
        ProviderRequestView {
            model: self.model@,
            messages: messages_view(self.messages@),
            stream: self.stream,
        }
    }
}

/// The model a stage runs: the request's per-stage override when present,
/// else the configured default.
pub open spec fn chosen_model(override_model: Option<Seq<char>>, default_model: Seq<char>) -> Seq<
    char,
> {
    match override_model {
        Option::Some(m) => m,
        Option::None => default_model,
    }
}

/// Resolve the per-stage model override against the configured default.
pub fn resolve_model(override_model: &Option<String>, default_model: &String) -> (r: String)
    ensures
        r@ == chosen_model(
            match *override_model {
                Option::Some(ref m) => Option::Some(m@),
                Option::None => Option::None,
            },
            default_model@,
        ),
{
    match override_model {
        Option::Some(m) => m.clone(),
        Option::None => default_model.clone(),
    }
}

/// Whether some message of `messages` carries exactly the reasoning trace
/// `trace` as its content.
pub open spec fn contains_reasoning_trace(messages: Seq<MessageView>, trace: Seq<char>) -> bool {
    exists|i: int| 0 <= i < messages.len() && messages[i].content == trace
}

/// An element-wise copy of the conversation.
fn clone_messages(messages: &Vec<Message>) -> (r: Vec<Message>)
    ensures
        r@.len() == messages@.len(),
        messages_view(r@) == messages_view(messages@),
{
    let n: usize = messages.len();
    let mut r: Vec<Message> = Vec::new();
    let mut i: usize = 0;
    while i < n
        invariant
            0 <= i <= n,
            n == messages.len(),
            r@.len() == i,
            forall|j: int| 0 <= j < i ==> r@[j]@ == messages@[j]@,
        decreases n - i,
    {
        r.push(messages[i].clone());
        i = i + 1;
    }
    proof {
        assert(messages_view(r@) =~= messages_view(messages@));
    }
    r
}

/// Build the reasoning-stage request: the full message history, forwarded
/// unmodified.
pub fn build_reasoning_request(messages: &Vec<Message>, model: &String, stream: bool) -> (r:
    ProviderRequest)
    ensures
        r@.messages == messages_view(messages@),
        r@.model == model@,
        r@.stream == stream,
{
    ProviderRequest { model: model.clone(), messages: clone_messages(messages), stream }
}

/// Build the completion-stage request: the original messages followed by one
/// distinguished system-role segment holding the full reasoning trace.
pub fn build_completion_request(
    messages: &Vec<Message>,
    reasoning_text: &String,
    model: &String,
    stream: bool,
) -> (r: ProviderRequest)
    ensures
        r@.messages.len() == messages@.len() + 1,
        forall|i: int| 0 <= i < messages@.len() ==> r@.messages[i] == messages_view(messages@)[i],
        r@.messages.last() == (MessageView { role: Role::System, content: reasoning_text@ }),
        contains_reasoning_trace(r@.messages, reasoning_text@),
        r@.model == model@,
        r@.stream == stream,
{
    let mut out: Vec<Message> = clone_messages(messages);
    let trace = Message { role: Role::System, content: reasoning_text.clone() };
    out.push(trace);
    let r = ProviderRequest { model: model.clone(), messages: out, stream };
    proof {
        let ms = r@.messages;
        assert(ms[ms.len() - 1].content == reasoning_text@);
        assert(contains_reasoning_trace(ms, reasoning_text@));
    }
    r
}

} // verus!
