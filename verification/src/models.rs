//! Core data shapes shared by the orchestrator, the adapters, the stream
//! merger and the usage accounting.

use vstd::prelude::*;

verus! {

/// Which of the two upstream stages produced a value.
#[derive(Clone, Copy, PartialEq, Eq, Structural, Debug)]
pub enum Stage {
    Reasoning,
    Completion,
}

/// Role of one chat message.
#[derive(Clone, Copy, PartialEq, Eq, Structural, Debug)]
pub enum Role {
    System,
    User,
    Assistant,
}

/// Why an upstream stage stopped generating.
#[derive(Clone, Copy, PartialEq, Eq, Structural, Debug)]
pub enum FinishReason {
    Stop,
    Length,
    Unknown,
}

/// Token counts reported by one upstream stage; combinable by pairwise
/// addition.
#[derive(Clone, Copy, PartialEq, Eq, Structural, Debug)]
pub struct TokenUsage {
    pub prompt_tokens: u64,
    pub completion_tokens: u64,
}

/// One chat message.
#[derive(Debug)]
pub struct Message {
    pub role: Role,
    pub content: String,
}

/// Mathematical model of a `Message`.
pub struct MessageView {
    pub role: Role,
    pub content: Seq<char>,
}

impl View for Message {
    type V = MessageView;

    open spec fn view(&self) -> MessageView {
        MessageView { role: self.role, content: self.content@ }
    }
}

impl Clone for Message {
    fn clone(&self) -> (r: Self)
        ensures
            r@ == self@,
    {
        Message { role: self.role, content: self.content.clone() }
    }
}

/// The model of a message sequence: each message replaced by its view.
pub open spec fn messages_view(ms: Seq<Message>) -> Seq<MessageView> {
    Seq::new(ms.len(), |i: int| ms[i]@)
}

/// The unified inbound request: an ordered conversation, a streaming flag,
/// and optional per-stage model overrides.
#[derive(Debug)]
pub struct ChatRequest {
    pub messages: Vec<Message>,
    pub stream: bool,
    pub reasoning_model: Option<String>,
    pub completion_model: Option<String>,
}

/// Mathematical model of a `ChatRequest`.
pub struct ChatRequestView {
    pub messages: Seq<MessageView>,
    pub stream: bool,
    pub reasoning_model: Option<Seq<char>>,
    pub completion_model: Option<Seq<char>>,
}

impl View for ChatRequest {
    type V = ChatRequestView;

    open spec fn view(&self) -> ChatRequestView {
        ChatRequestView {
            messages: messages_view(self.messages@),
            stream: self.stream,
            reasoning_model: match self.reasoning_model {
                Option::Some(m) => Option::Some(m@),
                Option::None => Option::None,
            },
            completion_model: match self.completion_model {
                Option::Some(m) => Option::Some(m@),
                Option::None => Option::None,
            },
        }
    }
}

/// The uniform output of one upstream call, whichever provider made it.
#[derive(Debug)]
pub struct StageResult {
    pub text: String,
    pub finish_reason: FinishReason,
    pub usage: TokenUsage,
}

/// Mathematical model of a `StageResult`.
pub struct StageResultView {
    pub text: Seq<char>,
    pub finish_reason: FinishReason,
    pub usage: TokenUsage,
}

impl View for StageResult {
    type V = StageResultView;

    open spec fn view(&self) -> StageResultView {
        StageResultView {
            text: self.text@,
            finish_reason: self.finish_reason,
            usage: self.usage,
        }
    }
}

/// One unit of streamed output, labeled with the stage that produced it.
#[derive(Debug)]
pub struct OutputChunk {
    pub stage: Stage,
    pub delta: String,
}

/// Mathematical model of an `OutputChunk`.
pub struct OutputChunkView {
    pub stage: Stage,
    pub delta: Seq<char>,
}

impl View for OutputChunk {
    type V = OutputChunkView;

    open spec fn view(&self) -> OutputChunkView {
        OutputChunkView { stage: self.stage, delta: self.delta@ }
    }
}

/// The buffered response: both stages' text, with usage and cost combined
/// across the two stages. Cost is in nanodollars.
#[derive(Debug)]
pub struct UnifiedResponse {
    pub reasoning_content: String,
    pub final_content: String,
    pub combined_usage: TokenUsage,
    pub combined_cost: u128,
}

} // verus!
