//! The decoded events of the two provider dialects.
//!
//! These are plain values: turning the JSON payload of a framed record into
//! one of them is done outside the library.

use vstd::prelude::*;

verus! {

/// Token accounting reported by a provider.
#[derive(Debug, Clone, Copy, PartialEq, Eq, Structural)]
pub struct Usage {
    pub input_tokens: u32,
    pub output_tokens: u32,
    pub cache_creation_input_tokens: Option<u32>,
    pub cache_read_input_tokens: Option<u32>,
}

impl Usage {
    /// No tokens counted.
    pub fn zero() -> (r: Self)
        ensures
            r == (Usage {
                input_tokens: 0,
                output_tokens: 0,
                cache_creation_input_tokens: None,
                cache_read_input_tokens: None,
            }),
    {
        Usage { input_tokens: 0, output_tokens: 0, cache_creation_input_tokens: None, cache_read_input_tokens: None }
    }
}

/// An event of the typed-event dialect.
#[derive(Debug, Clone)]
pub enum AnthropicStreamEvent {
    MessageStart { message: MessageMetadata },
    ContentBlockStart { index: usize, content_block: ContentBlockStart },
    ContentBlockDelta { index: usize, delta: ContentDelta },
    ContentBlockStop { index: usize },
    MessageDelta { delta: MessageDeltaData, usage: Option<UsageDelta> },
    MessageStop,
    Ping,
    Error { error: ErrorData },
}

/// What `message_start` carries.
#[derive(Debug, Clone)]
pub struct MessageMetadata {
    pub id: String,
    pub model: String,
    pub role: String,
    pub message_type: String,
    pub usage: Usage,
}

/// The kind of a block that starts, with its initial content.
#[derive(Debug, Clone)]
pub enum ContentBlockStart {
    Text { text: String },
    ToolUse { id: String, name: String },
    Thinking { thinking: String },
}

/// A piece of content for an open block.
#[derive(Debug, Clone)]
pub enum ContentDelta {
    TextDelta { text: String },
    InputJsonDelta { partial_json: String },
    ThinkingDelta { thinking: String },
}

/// What `message_delta` carries.
#[derive(Debug, Clone)]
pub struct MessageDeltaData {
    pub stop_reason: Option<String>,
    pub stop_sequence: Option<String>,
}

/// The usage part of `message_delta`.
#[derive(Debug, Clone, Copy)]
pub struct UsageDelta {
    pub output_tokens: Option<u32>,
}

/// What an `error` event carries.
#[derive(Debug, Clone)]
pub struct ErrorData {
    pub error_type: String,
    pub message: String,
}

/// One chunk of the chunk-accumulation dialect.
#[derive(Debug, Clone)]
pub struct OpenAIStreamChunk {
    pub id: String,
    pub object: String,
    pub created: u64,
    pub model: String,
    pub choices: Vec<OpenAIChoice>,
    pub usage: Option<Usage>,
}

/// One choice of a chunk.
#[derive(Debug, Clone)]
pub struct OpenAIChoice {
    pub index: usize,
    pub delta: OpenAIDelta,
    pub finish_reason: Option<String>,
}

/// The content delta of a choice.
#[derive(Debug, Clone)]
pub struct OpenAIDelta {
    pub role: Option<String>,
    pub content: Option<String>,
    pub tool_calls: Option<Vec<ToolCallDelta>>,
    pub reasoning: Option<String>,
}

/// A piece of one tool call.
#[derive(Debug, Clone)]
pub struct ToolCallDelta {
    pub index: usize,
    pub id: Option<String>,
    pub call_type: Option<String>,
    pub function: Option<FunctionDelta>,
}

/// The function part of a tool-call delta.
#[derive(Debug, Clone)]
pub struct FunctionDelta {
    pub name: Option<String>,
    pub arguments: Option<String>,
}

} // verus!
