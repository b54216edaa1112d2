//! Non-streaming completion and stream results for both dialects: the
//! request each dialect is sent, how its HTTP reply becomes a response or an
//! error, and which chunks a finished stream yields.
//!
//! Sending the request and decoding the reply's JSON happen outside; these
//! functions take and give plain values.

use vstd::prelude::*;
use crate::adapters::{
    anthropic_block_matches, anthropic_role, convert_messages_anthropic, convert_messages_openai, convert_tools_anthropic,
    convert_tools_openai, openai_message_matches, AnthropicContentBlock, AnthropicMessage, AnthropicTool, OpenAIMessage,
    OpenAITool, OpenAIToolCall, ToolSchema,
};
use crate::error::KodeError;
use crate::json::{decode_or_null, decoded_or_null};
use crate::messages::{blocks_view, BlockModel, ContentBlock, Message};
use crate::stream_events::Usage;
use crate::text::{chars_of, decimal, decimal_exec, owned};

verus! {

/// Options of a completion request. Sampling temperatures are floating
/// point and are added to the request outside the library.
#[derive(Debug, Clone)]
pub struct CompletionOptions {
    pub max_tokens: Option<u32>,
    pub stop_sequences: Option<Vec<String>>,
    pub stream: bool,
    pub reasoning_effort: Option<String>,
    pub verbosity: Option<String>,
}

impl Default for CompletionOptions {
    fn default() -> (r: Self)
        ensures
            r.max_tokens == Some(8192u32),
            r.stop_sequences is None,
            r.stream,
            r.reasoning_effort is None,
            r.verbosity is None,
    {
        CompletionOptions { max_tokens: Some(8192), stop_sequences: None, stream: true, reasoning_effort: None, verbosity: None }
    }
}

/// What a non-streaming completion returns.
#[derive(Debug, Clone)]
pub struct CompletionResponse {
    pub content: Vec<ContentBlock>,
    pub model: Option<String>,
    pub stop_reason: Option<String>,
    pub usage: Option<Usage>,
}

/// One item of a completion stream.
#[derive(Debug, Clone)]
pub enum CompletionChunk {
    TextDelta { text: String },
    ThinkingDelta { thinking: String },
    ToolUseStart { id: String, name: String },
    ToolInputDelta { id: String, partial_json: String },
    ToolUseComplete { id: String, name: String, input: serde_json::Value },
    Done { stop_reason: String, usage: Option<Usage> },
    Error { message: String },
}

/// The content of a [`CompletionChunk`].
pub enum ChunkModel {
    TextDelta(Seq<char>),
    ThinkingDelta(Seq<char>),
    ToolUseStart(Seq<char>, Seq<char>),
    ToolInputDelta(Seq<char>, Seq<char>),
    ToolUseComplete(Seq<char>, Seq<char>, serde_json::Value),
    Done(Seq<char>, Option<Usage>),
    Error(Seq<char>),
}

impl View for CompletionChunk {
    type V = ChunkModel;

    open spec fn view(&self) -> ChunkModel {
        match self {
            CompletionChunk::TextDelta { text } => ChunkModel::TextDelta(text@),
            CompletionChunk::ThinkingDelta { thinking } => ChunkModel::ThinkingDelta(thinking@),
            CompletionChunk::ToolUseStart { id, name } => ChunkModel::ToolUseStart(id@, name@),
            CompletionChunk::ToolInputDelta { id, partial_json } => ChunkModel::ToolInputDelta(id@, partial_json@),
            CompletionChunk::ToolUseComplete { id, name, input } => ChunkModel::ToolUseComplete(id@, name@, *input),
            CompletionChunk::Done { stop_reason, usage } => ChunkModel::Done(stop_reason@, *usage),
            CompletionChunk::Error { message } => ChunkModel::Error(message@),
        }
    }
}

/// The request of the chunk-accumulation dialect.
#[derive(Debug, Clone)]
pub struct OpenAIRequest {
    pub model: String,
    pub messages: Vec<OpenAIMessage>,
    pub max_tokens: Option<u32>,
    pub stop: Option<Vec<String>>,
    pub tools: Option<Vec<OpenAITool>>,
    pub tool_choice: Option<String>,
    pub stream: Option<bool>,
}

/// The request of the typed-event dialect.
#[derive(Debug, Clone)]
pub struct AnthropicRequest {
    pub model: String,
    pub messages: Vec<AnthropicMessage>,
    pub system: Option<String>,
    pub max_tokens: u32,
    pub stop_sequences: Option<Vec<String>>,
    pub tools: Option<Vec<AnthropicTool>>,
    pub stream: Option<bool>,
}

/// Token counts of a chunk-accumulation reply.
#[derive(Debug, Clone, Copy)]
pub struct OpenAIUsage {
    pub prompt_tokens: u32,
    pub completion_tokens: u32,
    pub total_tokens: u32,
}

/// One choice of a chunk-accumulation reply.
#[derive(Debug, Clone)]
pub struct OpenAIResponseChoice {
    pub index: u32,
    pub message: OpenAIMessage,
    pub finish_reason: String,
}

/// A decoded chunk-accumulation reply.
#[derive(Debug, Clone)]
pub struct OpenAIResponse {
    pub id: String,
    pub object: String,
    pub created: u64,
    pub model: String,
    pub choices: Vec<OpenAIResponseChoice>,
    pub usage: Option<OpenAIUsage>,
}

/// Token counts of a typed-event reply.
#[derive(Debug, Clone, Copy)]
pub struct AnthropicUsage {
    pub input_tokens: u32,
    pub output_tokens: u32,
    pub cache_creation_input_tokens: Option<u32>,
    pub cache_read_input_tokens: Option<u32>,
}

/// A decoded typed-event reply.
#[derive(Debug, Clone)]
pub struct AnthropicResponse {
    pub id: String,
    pub response_type: String,
    pub role: String,
    pub content: Vec<AnthropicContentBlock>,
    pub model: String,
    pub stop_reason: Option<String>,
    pub usage: Option<AnthropicUsage>,
}

pub open spec fn strings_of(o: Option<Vec<String>>) -> Option<Seq<Seq<char>>> {
    match o {
        Some(v) => Some(v@.map_values(|s: String| s@)),
        None => None,
    }
}

fn copy_strings(o: &Option<Vec<String>>) -> (r: Option<Vec<String>>)
    ensures
        strings_of(r) == strings_of(*o),
{
    match o {
        None => None,
        Some(v) => {
            let mut r: Vec<String> = Vec::new();
            let mut i: usize = 0;
            while i < v.len()
                invariant
                    i <= v.len(),
                    r@.map_values(|s: String| s@) == v@.take(i as int).map_values(|s: String| s@),
                decreases v.len() - i,
            {
                let ghost before = r@;
                r.push(v[i].clone());
                assert(r@.map_values(|s: String| s@) =~= before.map_values(|s: String| s@).push(v@[i as int]@));
                assert(v@.take(i + 1).map_values(|s: String| s@) =~= v@.take(i as int).map_values(|s: String| s@).push(v@[i as int]@));
                i = i + 1;
            }
            assert(v@.take(v.len() as int) =~= v@);
            Some(r)
        },
    }
}

/// The chunk-accumulation messages match the messages one for one.
pub open spec fn openai_messages_match(ms: Seq<Message>, ws: Seq<OpenAIMessage>) -> bool {
    ws.len() == ms.len() && forall|i: int| 0 <= i < ms.len() ==> openai_message_matches(ms[i], #[trigger] ws[i])
}

/// The typed-event messages match the messages one for one.
pub open spec fn anthropic_messages_match(ms: Seq<Message>, ws: Seq<AnthropicMessage>) -> bool {
    ws.len() == ms.len() && forall|i: int| 0 <= i < ms.len() ==> (#[trigger] ws[i]).role@ == anthropic_role(ms[i].role)
        && ws[i].content@.len() == ms[i].content@.len()
        && forall|j: int| 0 <= j < ms[i].content@.len() ==> anthropic_block_matches(ms[i].content@[j], #[trigger] ws[i].content@[j])
}

pub open spec fn openai_tools_match(ts: Seq<ToolSchema>, ws: Seq<OpenAITool>) -> bool {
    ws.len() == ts.len() && forall|i: int| 0 <= i < ts.len() ==> (#[trigger] ws[i]).tool_type@ == "function"@
        && ws[i].function.name@ == ts[i].name@ && ws[i].function.description@ == ts[i].description@
        && ws[i].function.parameters == ts[i].input_schema
}

pub open spec fn anthropic_tools_match(ts: Seq<ToolSchema>, ws: Seq<AnthropicTool>) -> bool {
    ws.len() == ts.len() && forall|i: int| 0 <= i < ts.len() ==> (#[trigger] ws[i]).name@ == ts[i].name@
        && ws[i].description@ == ts[i].description@ && ws[i].input_schema == ts[i].input_schema
}

/// The request for the chunk-accumulation dialect: the system prompt first,
/// as a system message, then the messages; tools only where there are any;
/// not streamed.
pub fn openai_request(
    model: &String,
    messages: &Vec<Message>,
    tools: &Vec<ToolSchema>,
    system_prompt: Option<String>,
    options: &CompletionOptions,
) -> (r: OpenAIRequest)
    ensures
        r.model@ == model@,
        match system_prompt {
            Some(sp) => r.messages@.len() >= 1 && r.messages@[0].role@ == "system"@
                && (r.messages@[0].content matches Some(c) && c@ == sp@) && r.messages@[0].tool_calls is None
                && r.messages@[0].tool_call_id is None && r.messages@[0].name is None
                && openai_messages_match(messages@, r.messages@.drop_first()),
            None => openai_messages_match(messages@, r.messages@),
        },
        r.max_tokens == options.max_tokens,
        strings_of(r.stop) == strings_of(options.stop_sequences),
        tools@.len() == 0 <==> r.tools is None,
        r.tools matches Some(ts) ==> openai_tools_match(tools@, ts@),
        r.tool_choice is None,
        r.stream == Some(false),
{
    let converted = convert_messages_openai(messages);
    let mut all: Vec<OpenAIMessage> = Vec::new();
    let has_system = system_prompt.is_some();
    match system_prompt {
        Some(sp) => {
            all.push(OpenAIMessage { role: owned("system"), content: Some(sp), tool_calls: None, tool_call_id: None, name: None });
        },
        None => {},
    }
    let ghost start = all@;
    let mut converted = converted;
    let ghost cv = converted@;
    all.append(&mut converted);
    if has_system {
        assert(all@.drop_first() =~= cv);
    } else {
        assert(all@ =~= cv);
    }
    let tool_list = if tools.len() == 0 { None } else { Some(convert_tools_openai(tools)) };
    OpenAIRequest {
        model: model.clone(),
        messages: all,
        max_tokens: options.max_tokens,
        stop: copy_strings(&options.stop_sequences),
        tools: tool_list,
        tool_choice: None,
        stream: Some(false),
    }
}

/// The request for the typed-event dialect: the system prompt in its own
/// field, at most 8192 output tokens unless the options say otherwise, tools
/// only where there are any; not streamed.
pub fn anthropic_request(
    model: &String,
    messages: &Vec<Message>,
    tools: &Vec<ToolSchema>,
    system_prompt: Option<String>,
    options: &CompletionOptions,
) -> (r: AnthropicRequest)
    ensures
        r.model@ == model@,
        anthropic_messages_match(messages@, r.messages@),
        match system_prompt {
            Some(sp) => r.system matches Some(s) && s@ == sp@,
            None => r.system is None,
        },
        r.max_tokens == match options.max_tokens {
            Some(n) => n,
            None => 8192u32,
        },
        strings_of(r.stop_sequences) == strings_of(options.stop_sequences),
        tools@.len() == 0 <==> r.tools is None,
        r.tools matches Some(ts) ==> anthropic_tools_match(tools@, ts@),
        r.stream == Some(false),
{
    let tool_list = if tools.len() == 0 { None } else { Some(convert_tools_anthropic(tools)) };
    AnthropicRequest {
        model: model.clone(),
        messages: convert_messages_anthropic(messages),
        system: system_prompt,
        max_tokens: match options.max_tokens {
            Some(n) => n,
            None => 8192,
        },
        stop_sequences: copy_strings(&options.stop_sequences),
        tools: tool_list,
        stream: Some(false),
    }
}

/// Whether an HTTP status is a success.
pub open spec fn is_success(status: u16) -> bool {
    200 <= status < 300
}

/// The error text of a failed HTTP exchange.
pub open spec fn http_error_text(status: u16, body: Seq<char>) -> Seq<char> {
    "HTTP "@ + decimal(status as nat) + ": "@ + body
}

fn http_error(provider: &str, status: u16, body: &String) -> (r: KodeError)
    ensures
        r matches KodeError::ApiError { provider: p, message } && p@ == provider@ && message@ == http_error_text(status, body@),
{
    let mut m = owned("HTTP ");
    m.append(decimal_exec(status as usize).as_str());
    m.append(": ");
    m.append(body.as_str());
    KodeError::ApiError { provider: owned(provider), message: m }
}

/// The blocks of a chunk-accumulation reply: its text where it is not
/// empty, then one invocation per tool call, whose input is the decoded
/// arguments or the JSON null.
pub open spec fn openai_reply_blocks(m: OpenAIMessage) -> Seq<BlockModel> {
    let text = match m.content {
        Some(t) => if t@.len() > 0 { seq![BlockModel::Text { text: t@ }] } else { Seq::empty() },
        None => Seq::empty(),
    };
    let calls = match m.tool_calls {
        Some(v) => v@.map_values(|c: OpenAIToolCall| BlockModel::ToolUse {
            id: c.id@,
            name: c.function.name@,
            input: decoded_or_null(c.function.arguments@),
        }),
        None => Seq::empty(),
    };
    text + calls
}

/// Converts a chunk-accumulation reply. `resp` is the decoded body, `None`
/// where it could not be decoded.
pub fn openai_response(status: u16, body: &String, resp: Option<OpenAIResponse>) -> (r: Result<CompletionResponse, KodeError>)
    ensures
        !is_success(status) ==> (r matches Err(KodeError::ApiError { provider, message }) && provider@ == "openai"@
            && message@ == http_error_text(status, body@)),
        is_success(status) && resp is None ==> (r matches Err(e) && e is MalformedPayload),
        is_success(status) && (resp matches Some(x) && x.choices@.len() == 0) ==> (r matches Err(
            KodeError::ApiError { provider, message },
        ) && provider@ == "openai"@ && message@ == "No choices in response"@),
        is_success(status) && (resp matches Some(x) && x.choices@.len() > 0) ==> (r matches Ok(cr) && ({
            let x = resp.unwrap();
            let ch = x.choices@[0];
            &&& blocks_view(cr.content@) == openai_reply_blocks(ch.message)
            &&& cr.model matches Some(m) && m@ == x.model@
            &&& cr.stop_reason matches Some(s) && s@ == ch.finish_reason@
            &&& cr.usage == match x.usage {
                Some(u) => Some(Usage {
                    input_tokens: u.prompt_tokens,
                    output_tokens: u.completion_tokens,
                    cache_creation_input_tokens: None,
                    cache_read_input_tokens: None,
                }),
                None => None,
            }
        })),
{
    if status < 200 || status >= 300 {
        return Err(http_error("openai", status, body));
    }
    let x = match resp {
        None => {
            return Err(KodeError::MalformedPayload { message: owned("response body is not a completion") });
        },
        Some(x) => x,
    };
    if x.choices.len() == 0 {
        return Err(KodeError::ApiError { provider: owned("openai"), message: owned("No choices in response") });
    }
    let ch = &x.choices[0];
    let mut content: Vec<ContentBlock> = Vec::new();
    match &ch.message.content {
        Some(t) => {
            if chars_of(t.as_str()).len() > 0 {
                content.push(ContentBlock::Text { text: t.clone() });
            }
        },
        None => {},
    }
    let ghost lead = blocks_view(content@);
    match &ch.message.tool_calls {
        Some(v) => {
            let mut i: usize = 0;
            assert(lead + Seq::<BlockModel>::empty() =~= lead);
            while i < v.len()
                invariant
                    i <= v.len(),
                    blocks_view(content@) == lead + v@.take(i as int).map_values(|c: OpenAIToolCall| BlockModel::ToolUse {
                        id: c.id@,
                        name: c.function.name@,
                        input: decoded_or_null(c.function.arguments@),
                    }),
                decreases v.len() - i,
            {
                let c = &v[i];
                let input = decode_or_null(c.function.arguments.as_str());
                let ghost before = blocks_view(content@);
                let ghost nb = BlockModel::ToolUse { id: c.id@, name: c.function.name@, input: decoded_or_null(c.function.arguments@) };
                content.push(ContentBlock::ToolUse { id: c.id.clone(), name: c.function.name.clone(), input });
                assert(blocks_view(content@) =~= before.push(nb));
                assert(v@.take(i + 1).map_values(|c: OpenAIToolCall| BlockModel::ToolUse {
                    id: c.id@,
                    name: c.function.name@,
                    input: decoded_or_null(c.function.arguments@),
                }) =~= v@.take(i as int).map_values(|c: OpenAIToolCall| BlockModel::ToolUse {
                    id: c.id@,
                    name: c.function.name@,
                    input: decoded_or_null(c.function.arguments@),
                }).push(nb));
                i = i + 1;
                assert(blocks_view(content@) =~= lead + v@.take(i as int).map_values(|c: OpenAIToolCall| BlockModel::ToolUse {
                    id: c.id@,
                    name: c.function.name@,
                    input: decoded_or_null(c.function.arguments@),
                }));
            }
            assert(v@.take(v.len() as int) =~= v@);
        },
        None => {
            assert(lead + Seq::<BlockModel>::empty() =~= lead);
        },
    }
    let usage = match x.usage {
        Some(u) => Some(Usage {
            input_tokens: u.prompt_tokens,
            output_tokens: u.completion_tokens,
            cache_creation_input_tokens: None,
            cache_read_input_tokens: None,
        }),
        None => None,
    };
    Ok(CompletionResponse { content, model: Some(x.model.clone()), stop_reason: Some(ch.finish_reason.clone()), usage })
}

/// A reply block of the typed-event dialect as a content block; a tool
/// result keeps its error flag.
pub open spec fn anthropic_reply_block(b: AnthropicContentBlock) -> BlockModel {
    match b {
        AnthropicContentBlock::Text { text } => BlockModel::Text { text: text@ },
        AnthropicContentBlock::ToolUse { id, name, input } => BlockModel::ToolUse { id: id@, name: name@, input },
        AnthropicContentBlock::ToolResult { tool_use_id, content, is_error } => BlockModel::ToolResult {
            tool_use_id: tool_use_id@,
            content: content@,
            is_error: Some(is_error),
        },
    }
}

/// Converts a typed-event reply. `resp` is the decoded body, `None` where
/// it could not be decoded.
pub fn anthropic_response(status: u16, body: &String, resp: Option<AnthropicResponse>) -> (r: Result<CompletionResponse, KodeError>)
    ensures
        !is_success(status) ==> (r matches Err(KodeError::ApiError { provider, message }) && provider@ == "anthropic"@
            && message@ == http_error_text(status, body@)),
        is_success(status) && resp is None ==> (r matches Err(e) && e is MalformedPayload),
        is_success(status) && resp is Some ==> (r matches Ok(cr) && ({
            let x = resp.unwrap();
            &&& blocks_view(cr.content@) == x.content@.map_values(|b: AnthropicContentBlock| anthropic_reply_block(b))
            &&& cr.model matches Some(m) && m@ == x.model@
            &&& match x.stop_reason {
                Some(s) => cr.stop_reason matches Some(t) && t@ == s@,
                None => cr.stop_reason is None,
            }
            &&& cr.usage == match x.usage {
                Some(u) => Some(Usage {
                    input_tokens: u.input_tokens,
                    output_tokens: u.output_tokens,
                    cache_creation_input_tokens: u.cache_creation_input_tokens,
                    cache_read_input_tokens: u.cache_read_input_tokens,
                }),
                None => None,
            }
        })),
{
    if status < 200 || status >= 300 {
        return Err(http_error("anthropic", status, body));
    }
    let x = match resp {
        None => {
            return Err(KodeError::MalformedPayload { message: owned("response body is not a completion") });
        },
        Some(x) => x,
    };
    let mut content: Vec<ContentBlock> = Vec::new();
    let mut i: usize = 0;
    while i < x.content.len()
        invariant
            i <= x.content.len(),
            blocks_view(content@) == x.content@.take(i as int).map_values(|b: AnthropicContentBlock| anthropic_reply_block(b)),
        decreases x.content.len() - i,
    {
        let b = match &x.content[i] {
            AnthropicContentBlock::Text { text } => ContentBlock::Text { text: text.clone() },
            AnthropicContentBlock::ToolUse { id, name, input } => ContentBlock::ToolUse {
                id: id.clone(),
                name: name.clone(),
                input: input.clone(),
            },
            AnthropicContentBlock::ToolResult { tool_use_id, content, is_error } => ContentBlock::ToolResult {
                tool_use_id: tool_use_id.clone(),
                content: content.clone(),
                is_error: Some(*is_error),
            },
        };
        let ghost before = blocks_view(content@);
        assert(b@ == anthropic_reply_block(x.content@[i as int]));
        content.push(b);
        assert(blocks_view(content@) =~= before.push(anthropic_reply_block(x.content@[i as int])));
        assert(x.content@.take(i + 1).map_values(|b: AnthropicContentBlock| anthropic_reply_block(b)) =~= x.content@.take(
            i as int,
        ).map_values(|b: AnthropicContentBlock| anthropic_reply_block(b)).push(anthropic_reply_block(x.content@[i as int])));
        i = i + 1;
    }
    assert(x.content@.take(x.content.len() as int) =~= x.content@);
    let usage = match x.usage {
        Some(u) => Some(Usage {
            input_tokens: u.input_tokens,
            output_tokens: u.output_tokens,
            cache_creation_input_tokens: u.cache_creation_input_tokens,
            cache_read_input_tokens: u.cache_read_input_tokens,
        }),
        None => None,
    };
    let stop_reason = match &x.stop_reason {
        Some(s) => Some(s.clone()),
        None => None,
    };
    Ok(CompletionResponse { content, model: Some(x.model.clone()), stop_reason, usage })
}

/// The chunks a block yields at the end of a stream: text and reasoning as
/// deltas, an invocation as a completed tool use, a tool result as none.
pub open spec fn block_chunks(b: BlockModel) -> Seq<ChunkModel> {
    match b {
        BlockModel::Text { text } => seq![ChunkModel::TextDelta(text)],
        BlockModel::Thinking { thinking } => seq![ChunkModel::ThinkingDelta(thinking)],
        BlockModel::ToolUse { id, name, input } => seq![ChunkModel::ToolUseComplete(id, name, input)],
        BlockModel::ToolResult { .. } => Seq::empty(),
    }
}

pub open spec fn blocks_chunks(bs: Seq<BlockModel>) -> Seq<ChunkModel>
    decreases bs.len(),
{
    if bs.len() == 0 {
        Seq::empty()
    } else {
        blocks_chunks(bs.drop_last()) + block_chunks(bs.last())
    }
}

pub open spec fn ok_chunks(v: Seq<Result<CompletionChunk, KodeError>>) -> Option<Seq<ChunkModel>>
    decreases v.len(),
{
    if v.len() == 0 {
        Some(Seq::empty())
    } else {
        match (ok_chunks(v.drop_last()), v.last()) {
            (Some(s), Ok(c)) => Some(s.push(c@)),
            _ => None,
        }
    }
}

/// What a finished stream yields: an assembly error alone; otherwise the
/// message's blocks as chunks, then `Done` with the stop reason
/// (`end_turn` where none came) and the usage.
pub fn stream_chunks(m: Result<Message, KodeError>, stop: Option<String>, usage: Usage) -> (r: Vec<Result<CompletionChunk, KodeError>>)
    ensures
        match m {
            Err(e) => r@ == seq![Err::<CompletionChunk, KodeError>(e)],
            Ok(msg) => ok_chunks(r@) == Some(blocks_chunks(msg@.content).push(ChunkModel::Done(
                match stop {
                    Some(s) => s@,
                    None => "end_turn"@,
                },
                Some(usage),
            ))),
        },
{
    match m {
        Err(e) => {
            let r = vec![Err(e)];
            assert(r@ =~= seq![Err::<CompletionChunk, KodeError>(e)]);
            r
        },
        Ok(msg) => {
            let mut r: Vec<Result<CompletionChunk, KodeError>> = Vec::new();
            let mut i: usize = 0;
            assert(msg@.content.take(0) =~= Seq::<BlockModel>::empty());
            while i < msg.content.len()
                invariant
                    i <= msg.content.len(),
                    ok_chunks(r@) == Some(blocks_chunks(msg@.content.take(i as int))),
                decreases msg.content.len() - i,
            {
                let ghost prev = r@;
                let ghost pre = msg@.content.take(i as int);
                assert(msg@.content.take(i + 1).drop_last() =~= pre);
                assert(msg@.content.take(i + 1).last() == msg.content@[i as int]@);
                match &msg.content[i] {
                    ContentBlock::Text { text } => {
                        let c = CompletionChunk::TextDelta { text: text.clone() };
                        r.push(Ok(c));
                        assert(r@.drop_last() =~= prev);
                        assert(blocks_chunks(pre) + seq![c@] =~= blocks_chunks(pre).push(c@));
                    },
                    ContentBlock::Thinking { thinking } => {
                        let c = CompletionChunk::ThinkingDelta { thinking: thinking.clone() };
                        r.push(Ok(c));
                        assert(r@.drop_last() =~= prev);
                        assert(blocks_chunks(pre) + seq![c@] =~= blocks_chunks(pre).push(c@));
                    },
                    ContentBlock::ToolUse { id, name, input } => {
                        let c = CompletionChunk::ToolUseComplete { id: id.clone(), name: name.clone(), input: input.clone() };
                        r.push(Ok(c));
                        assert(r@.drop_last() =~= prev);
                        assert(blocks_chunks(pre) + seq![c@] =~= blocks_chunks(pre).push(c@));
                    },
                    ContentBlock::ToolResult { .. } => {
                        assert(blocks_chunks(pre) + Seq::<ChunkModel>::empty() =~= blocks_chunks(pre));
                    },
                }
                i = i + 1;
            }
            assert(msg@.content.take(msg.content.len() as int) =~= msg@.content);
            let reason = match stop {
                Some(s) => s,
                None => owned("end_turn"),
            };
            let ghost prev = r@;
            let d = CompletionChunk::Done { stop_reason: reason, usage: Some(usage) };
            r.push(Ok(d));
            assert(r@.drop_last() =~= prev);
            r
        },
    }
}

} // verus!
