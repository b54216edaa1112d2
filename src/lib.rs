//! Core of a coding-assistant agent: the event-stream framing, the stream
//! assemblers for the two provider dialects, and the validation rules of the
//! local tools, each stated and proved with Verus.

pub mod text;
pub mod sse;
pub mod json;
pub mod messages;
pub mod error;
pub mod stream_events;
pub mod anthropic_stream;
pub mod openai_stream;
pub mod config;
pub mod tools;
pub mod file_rules;
pub mod file_edit;
pub mod file_write;
pub mod bash;
pub mod search;
pub mod memory;
pub mod todo;
pub mod url_fetcher;
pub mod agents;
pub mod adapters;
pub mod lines;
pub mod file_read;
pub mod completion;
