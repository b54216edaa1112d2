//! Provider adapters: which adapter serves a profile, and how the uniform
//! message model maps onto each dialect's request shape.
//!
//! The request shapes here are plain values; encoding them as JSON and
//! sending them happen outside.

use vstd::prelude::*;
use crate::config::{ModelProfile, ProviderType};
use crate::error::KodeError;
use crate::messages::{ContentBlock, Message, Role};
use crate::text::owned;

verus! {

/// The compact JSON text of a value, where it has one.
pub uninterp spec fn json_encoded(v: serde_json::Value) -> Option<Seq<char>>;

/// Relies on `serde_json::to_string`: the text depends on the value alone.
#[verifier::external_body]
fn encode_json(v: &serde_json::Value) -> (r: Option<String>)
    ensures
        match r {
            Some(s) => json_encoded(*v) == Some(s@),
            None => json_encoded(*v) is None,
        },
{
    serde_json::to_string(v).ok()
}

/// The wire dialect an adapter speaks.
#[derive(Debug, Clone, Copy, PartialEq, Eq, Structural)]
pub enum Dialect {
    /// Typed events addressed by block index.
    Anthropic,
    /// Accumulated chunks, ended by a done marker.
    OpenAICompatible,
}

/// An adapter bound to one model profile.
#[derive(Debug, Clone)]
pub struct ModelAdapter {
    pub dialect: Dialect,
    pub profile: ModelProfile,
}

/// The adapter kind for a provider; `None` for providers without one.
pub open spec fn dialect_for(p: ProviderType) -> Option<Dialect> {
    match p {
        ProviderType::Anthropic => Some(Dialect::Anthropic),
        ProviderType::OpenAI | ProviderType::CustomOpenAI | ProviderType::Azure | ProviderType::Custom
        | ProviderType::Ollama | ProviderType::Groq => Some(Dialect::OpenAICompatible),
        _ => None,
    }
}

/// Builds adapters from profiles.
#[derive(Debug, Clone, Copy)]
pub struct ModelAdapterFactory;

impl ModelAdapterFactory {
    /// The adapter for a profile. A provider without an adapter is an
    /// explicit error, never a fallback.
    pub fn create(profile: &ModelProfile) -> (r: Result<ModelAdapter, KodeError>)
        ensures
            match dialect_for(profile.provider) {
                Some(d) => r matches Ok(a) && a.dialect == d && a.profile.model_name@ == profile.model_name@
                    && a.profile.max_tokens == profile.max_tokens,
                None => r matches Err(KodeError::UnsupportedProvider { provider }) && provider@ == provider_name(profile.provider),
            },
    {
        let d = match profile.provider {
            ProviderType::Anthropic => Dialect::Anthropic,
            ProviderType::OpenAI | ProviderType::CustomOpenAI | ProviderType::Azure | ProviderType::Custom
            | ProviderType::Ollama | ProviderType::Groq => Dialect::OpenAICompatible,
            _ => {
                return Err(KodeError::UnsupportedProvider { provider: provider_label(profile.provider) });
            },
        };
        let p = ModelProfile {
            name: profile.name.clone(),
            provider: profile.provider,
            model_name: profile.model_name.clone(),
            base_url: match &profile.base_url {
                Some(u) => Some(u.clone()),
                None => None,
            },
            api_key: profile.api_key.clone(),
            max_tokens: profile.max_tokens,
            context_length: profile.context_length,
            reasoning_effort: profile.reasoning_effort,
            is_active: profile.is_active,
            created_at: profile.created_at,
            last_used: profile.last_used,
            is_gpt5: profile.is_gpt5,
            validation_status: profile.validation_status,
            last_validation: profile.last_validation,
        };
        Ok(ModelAdapter { dialect: d, profile: p })
    }
}

/// The name of a provider as it appears in messages: its variant's name.
pub open spec fn provider_name(p: ProviderType) -> Seq<char> {
    match p {
        ProviderType::Anthropic => "Anthropic"@,
        ProviderType::OpenAI => "OpenAI"@,
        ProviderType::Mistral => "Mistral"@,
        ProviderType::Deepseek => "Deepseek"@,
        ProviderType::Kimi => "Kimi"@,
        ProviderType::Qwen => "Qwen"@,
        ProviderType::Glm => "Glm"@,
        ProviderType::Minimax => "Minimax"@,
        ProviderType::BaiduQianfan => "BaiduQianfan"@,
        ProviderType::Siliconflow => "Siliconflow"@,
        ProviderType::Bigdream => "Bigdream"@,
        ProviderType::Opendev => "Opendev"@,
        ProviderType::Xai => "Xai"@,
        ProviderType::Groq => "Groq"@,
        ProviderType::Gemini => "Gemini"@,
        ProviderType::Ollama => "Ollama"@,
        ProviderType::Azure => "Azure"@,
        ProviderType::Custom => "Custom"@,
        ProviderType::CustomOpenAI => "CustomOpenAI"@,
    }
}

/// The name of a provider as it appears in messages.
pub fn provider_label(p: ProviderType) -> (r: String)
    ensures
        r@ == provider_name(p),
{
    owned(match p {
        ProviderType::Anthropic => "Anthropic",
        ProviderType::OpenAI => "OpenAI",
        ProviderType::Mistral => "Mistral",
        ProviderType::Deepseek => "Deepseek",
        ProviderType::Kimi => "Kimi",
        ProviderType::Qwen => "Qwen",
        ProviderType::Glm => "Glm",
        ProviderType::Minimax => "Minimax",
        ProviderType::BaiduQianfan => "BaiduQianfan",
        ProviderType::Siliconflow => "Siliconflow",
        ProviderType::Bigdream => "Bigdream",
        ProviderType::Opendev => "Opendev",
        ProviderType::Xai => "Xai",
        ProviderType::Groq => "Groq",
        ProviderType::Gemini => "Gemini",
        ProviderType::Ollama => "Ollama",
        ProviderType::Azure => "Azure",
        ProviderType::Custom => "Custom",
        ProviderType::CustomOpenAI => "CustomOpenAI",
    })
}

impl ModelAdapter {
    /// The provider's identifier.
    pub fn provider_id(&self) -> (r: &'static str)
        ensures
            r@ == match self.dialect {
                Dialect::Anthropic => "anthropic"@,
                Dialect::OpenAICompatible => "openai"@,
            },
    {
        match self.dialect {
            Dialect::Anthropic => "anthropic",
            Dialect::OpenAICompatible => "openai",
        }
    }

    /// The model identifier.
    pub fn model_id(&self) -> (r: &String)
        ensures
            r == &self.profile.model_name,
    {
        &self.profile.model_name
    }

    /// The context window the adapter assumes.
    pub fn max_context_tokens(&self) -> (r: u32)
        ensures
            r == match self.dialect {
                Dialect::Anthropic => 200000u32,
                Dialect::OpenAICompatible => 128000u32,
            },
    {
        match self.dialect {
            Dialect::Anthropic => 200000,
            Dialect::OpenAICompatible => 128000,
        }
    }

    /// The output ceiling of the profile.
    pub fn max_output_tokens(&self) -> (r: u32)
        ensures
            r == self.profile.max_tokens,
    {
        self.profile.max_tokens
    }

    /// The token estimate: a quarter of the text's length in bytes.
    pub fn count_tokens(&self, text: &str) -> (r: u32)
        ensures
            r == #[verifier::truncate] ((text.len() / 4) as u32),
    {
        #[verifier::truncate] ((text.len() / 4) as u32)
    }
}

/// A tool as offered to the model: its name, what it does, and the
/// JSON-schema description of its input.
#[derive(Debug, Clone, PartialEq)]
pub struct ToolSchema {
    pub name: String,
    pub description: String,
    pub input_schema: serde_json::Value,
}

/// A tool in the typed-event dialect's request.
#[derive(Debug, Clone, PartialEq)]
pub struct AnthropicTool {
    pub name: String,
    pub description: String,
    pub input_schema: serde_json::Value,
}

/// A function definition in the chunk-accumulation dialect's request.
#[derive(Debug, Clone, PartialEq)]
pub struct OpenAIFunctionDef {
    pub name: String,
    pub description: String,
    pub parameters: serde_json::Value,
}

/// A tool in the chunk-accumulation dialect's request.
#[derive(Debug, Clone, PartialEq)]
pub struct OpenAITool {
    pub tool_type: String,
    pub function: OpenAIFunctionDef,
}

/// Offers tools in the typed-event dialect, in order.
pub fn convert_tools_anthropic(tools: &Vec<ToolSchema>) -> (r: Vec<AnthropicTool>)
    ensures
        r@.len() == tools@.len(),
        forall|i: int| 0 <= i < tools@.len() ==> (#[trigger] r@[i]).name@ == tools@[i].name@
            && r@[i].description@ == tools@[i].description@ && r@[i].input_schema == tools@[i].input_schema,
{
    let mut r: Vec<AnthropicTool> = Vec::new();
    let mut i: usize = 0;
    while i < tools.len()
        invariant
            i <= tools.len(),
            r@.len() == i,
            forall|k: int| 0 <= k < i ==> (#[trigger] r@[k]).name@ == tools@[k].name@
                && r@[k].description@ == tools@[k].description@ && r@[k].input_schema == tools@[k].input_schema,
        decreases tools.len() - i,
    {
        let t = &tools[i];
        r.push(AnthropicTool { name: t.name.clone(), description: t.description.clone(), input_schema: t.input_schema.clone() });
        i = i + 1;
    }
    r
}

/// Offers tools in the chunk-accumulation dialect, as functions, in order.
pub fn convert_tools_openai(tools: &Vec<ToolSchema>) -> (r: Vec<OpenAITool>)
    ensures
        r@.len() == tools@.len(),
        forall|i: int| 0 <= i < tools@.len() ==> (#[trigger] r@[i]).tool_type@ == "function"@
            && r@[i].function.name@ == tools@[i].name@ && r@[i].function.description@ == tools@[i].description@
            && r@[i].function.parameters == tools@[i].input_schema,
{
    let mut r: Vec<OpenAITool> = Vec::new();
    let mut i: usize = 0;
    while i < tools.len()
        invariant
            i <= tools.len(),
            r@.len() == i,
            forall|k: int| 0 <= k < i ==> (#[trigger] r@[k]).tool_type@ == "function"@
                && r@[k].function.name@ == tools@[k].name@ && r@[k].function.description@ == tools@[k].description@
                && r@[k].function.parameters == tools@[k].input_schema,
        decreases tools.len() - i,
    {
        let t = &tools[i];
        r.push(OpenAITool {
            tool_type: owned("function"),
            function: OpenAIFunctionDef {
                name: t.name.clone(),
                description: t.description.clone(),
                parameters: t.input_schema.clone(),
            },
        });
        i = i + 1;
    }
    r
}

/// A block of the typed-event dialect's request.
#[derive(Debug, Clone, PartialEq)]
pub enum AnthropicContentBlock {
    Text { text: String },
    ToolUse { id: String, name: String, input: serde_json::Value },
    ToolResult { tool_use_id: String, content: String, is_error: bool },
}

/// A message of the typed-event dialect's request.
#[derive(Debug, Clone, PartialEq)]
pub struct AnthropicMessage {
    pub role: String,
    pub content: Vec<AnthropicContentBlock>,
}

/// A block in the typed-event dialect: reasoning goes back as text wrapped
/// in `<thinking>` tags, and a result without an error flag is no error.
pub open spec fn anthropic_block_matches(b: ContentBlock, w: AnthropicContentBlock) -> bool {
    match b {
        ContentBlock::Text { text } => w matches AnthropicContentBlock::Text { text: t } && t@ == text@,
        ContentBlock::ToolUse { id, name, input } => w matches AnthropicContentBlock::ToolUse { id: i, name: n, input: v }
            && i@ == id@ && n@ == name@ && v == input,
        ContentBlock::ToolResult { tool_use_id, content, is_error } => w matches AnthropicContentBlock::ToolResult {
            tool_use_id: i,
            content: c,
            is_error: e,
        } && i@ == tool_use_id@ && c@ == content@ && e == match is_error {
            Some(x) => x,
            None => false,
        },
        ContentBlock::Thinking { thinking } => w matches AnthropicContentBlock::Text { text: t } && t@ == "<thinking>"@
            + thinking@ + "</thinking>"@,
    }
}

/// The role in the typed-event dialect. It has no system role: a system
/// message goes as a user message. This mapping loses the distinction on
/// purpose.
pub open spec fn anthropic_role(r: Role) -> Seq<char> {
    match r {
        Role::User => "user"@,
        Role::Assistant => "assistant"@,
        Role::System => "user"@,
    }
}

/// Maps one block onto the typed-event dialect.
pub fn convert_block_anthropic(b: &ContentBlock) -> (r: AnthropicContentBlock)
    ensures
        anthropic_block_matches(*b, r),
{
    match b {
        ContentBlock::Text { text } => AnthropicContentBlock::Text { text: text.clone() },
        ContentBlock::ToolUse { id, name, input } => AnthropicContentBlock::ToolUse {
            id: id.clone(),
            name: name.clone(),
            input: input.clone(),
        },
        ContentBlock::ToolResult { tool_use_id, content, is_error } => AnthropicContentBlock::ToolResult {
            tool_use_id: tool_use_id.clone(),
            content: content.clone(),
            is_error: match is_error {
                Some(x) => *x,
                None => false,
            },
        },
        ContentBlock::Thinking { thinking } => {
            let mut t = owned("<thinking>");
            t.append(thinking.as_str());
            t.append("</thinking>");
            AnthropicContentBlock::Text { text: t }
        },
    }
}

/// Maps a sequence of blocks, in order.
pub fn convert_content_blocks(blocks: &Vec<ContentBlock>) -> (r: Vec<AnthropicContentBlock>)
    ensures
        r@.len() == blocks@.len(),
        forall|i: int| 0 <= i < blocks@.len() ==> anthropic_block_matches(blocks@[i], #[trigger] r@[i]),
{
    let mut r: Vec<AnthropicContentBlock> = Vec::new();
    let mut i: usize = 0;
    while i < blocks.len()
        invariant
            i <= blocks.len(),
            r@.len() == i,
            forall|j: int| 0 <= j < i ==> anthropic_block_matches(blocks@[j], #[trigger] r@[j]),
        decreases blocks.len() - i,
    {
        r.push(convert_block_anthropic(&blocks[i]));
        i = i + 1;
    }
    r
}

/// Maps messages onto the typed-event dialect, in order.
pub fn convert_messages_anthropic(messages: &Vec<Message>) -> (r: Vec<AnthropicMessage>)
    ensures
        r@.len() == messages@.len(),
        forall|i: int| 0 <= i < messages@.len() ==> (#[trigger] r@[i]).role@ == anthropic_role(messages@[i].role)
            && r@[i].content@.len() == messages@[i].content@.len()
            && forall|j: int| 0 <= j < messages@[i].content@.len() ==> anthropic_block_matches(
                messages@[i].content@[j],
                #[trigger] r@[i].content@[j],
            ),
{
    let mut r: Vec<AnthropicMessage> = Vec::new();
    let mut i: usize = 0;
    while i < messages.len()
        invariant
            i <= messages.len(),
            r@.len() == i,
            forall|k: int| 0 <= k < i ==> (#[trigger] r@[k]).role@ == anthropic_role(messages@[k].role)
                && r@[k].content@.len() == messages@[k].content@.len()
                && forall|j: int| 0 <= j < messages@[k].content@.len() ==> anthropic_block_matches(
                    messages@[k].content@[j],
                    #[trigger] r@[k].content@[j],
                ),
        decreases messages.len() - i,
    {
        let m = &messages[i];
        let role = owned(match m.role {
            Role::User => "user",
            Role::Assistant => "assistant",
            Role::System => "user",
        });
        let content = convert_content_blocks(&m.content);
        r.push(AnthropicMessage { role, content });
        i = i + 1;
    }
    r
}

/// A function call in the chunk-accumulation dialect's request.
#[derive(Debug, Clone, PartialEq, Eq)]
pub struct OpenAIFunction {
    pub name: String,
    pub arguments: String,
}

/// A tool call in the chunk-accumulation dialect's request.
#[derive(Debug, Clone, PartialEq, Eq)]
pub struct OpenAIToolCall {
    pub id: String,
    pub call_type: String,
    pub function: OpenAIFunction,
}

/// A message of the chunk-accumulation dialect's request.
#[derive(Debug, Clone, PartialEq, Eq)]
pub struct OpenAIMessage {
    pub role: String,
    pub content: Option<String>,
    pub tool_calls: Option<Vec<OpenAIToolCall>>,
    pub tool_call_id: Option<String>,
    pub name: Option<String>,
}

pub open spec fn openai_role(r: Role) -> Seq<char> {
    match r {
        Role::User => "user"@,
        Role::Assistant => "assistant"@,
        Role::System => "system"@,
    }
}

/// The text a block contributes to a chunk-dialect message: its text, or a
/// tool result as a sentence; other blocks contribute none.
pub open spec fn block_text(b: ContentBlock) -> Option<Seq<char>> {
    match b {
        ContentBlock::Text { text } => Some(text@),
        ContentBlock::ToolResult { tool_use_id, content, .. } => Some("Tool result for "@ + tool_use_id@ + ": "@ + content@),
        _ => None,
    }
}

/// The texts of blocks, in order.
pub open spec fn block_texts(bs: Seq<ContentBlock>) -> Seq<Seq<char>>
    decreases bs.len(),
{
    if bs.len() == 0 {
        Seq::empty()
    } else {
        match block_text(bs.last()) {
            Some(t) => block_texts(bs.drop_last()).push(t),
            None => block_texts(bs.drop_last()),
        }
    }
}

/// The tool calls a block contributes: an invocation whose input has a JSON
/// text.
pub open spec fn block_call(b: ContentBlock) -> Option<(Seq<char>, Seq<char>, Seq<char>)> {
    match b {
        ContentBlock::ToolUse { id, name, input } => match json_encoded(input) {
            Some(a) => Some((id@, name@, a)),
            None => None,
        },
        _ => None,
    }
}

pub open spec fn block_calls(bs: Seq<ContentBlock>) -> Seq<(Seq<char>, Seq<char>, Seq<char>)>
    decreases bs.len(),
{
    if bs.len() == 0 {
        Seq::empty()
    } else {
        match block_call(bs.last()) {
            Some(c) => block_calls(bs.drop_last()).push(c),
            None => block_calls(bs.drop_last()),
        }
    }
}

/// Texts joined by line feeds.
pub open spec fn join_lines(parts: Seq<Seq<char>>) -> Seq<char>
    decreases parts.len(),
{
    if parts.len() == 0 {
        Seq::empty()
    } else if parts.len() == 1 {
        parts[0]
    } else {
        join_lines(parts.drop_last()) + seq!['\n'] + parts.last()
    }
}

pub open spec fn call_view(c: OpenAIToolCall) -> (Seq<char>, Seq<char>, Seq<char>) {
    (c.id@, c.function.name@, c.function.arguments@)
}

/// One message in the chunk-accumulation dialect: its texts joined by line
/// feeds (none if it has none) and its tool calls (none if it has none).
pub open spec fn openai_message_matches(m: Message, w: OpenAIMessage) -> bool {
    let texts = block_texts(m.content@);
    let calls = block_calls(m.content@);
    &&& w.role@ == openai_role(m.role)
    &&& (if texts.len() == 0 { w.content is None } else { w.content matches Some(c) && c@ == join_lines(texts) })
    &&& (if calls.len() == 0 {
        w.tool_calls is None
    } else {
        w.tool_calls matches Some(v) && v@.map_values(|c: OpenAIToolCall| call_view(c)) == calls
            && forall|i: int| 0 <= i < v@.len() ==> (#[trigger] v@[i]).call_type@ == "function"@
    })
    &&& w.tool_call_id is None
    &&& w.name is None
}

/// Maps one message onto the chunk-accumulation dialect.
pub fn convert_message_openai(m: &Message) -> (r: OpenAIMessage)
    ensures
        openai_message_matches(*m, r),
{
    let mut text = String::new();
    let mut n_texts: usize = 0;
    let mut calls: Vec<OpenAIToolCall> = Vec::new();
    let mut i: usize = 0;
    assert(m.content@.take(0) =~= Seq::<ContentBlock>::empty());
    while i < m.content.len()
        invariant
            i <= m.content.len(),
            n_texts == block_texts(m.content@.take(i as int)).len(),
            n_texts <= i,
            text@ == join_lines(block_texts(m.content@.take(i as int))),
            calls@.map_values(|c: OpenAIToolCall| call_view(c)) == block_calls(m.content@.take(i as int)),
            forall|k: int| 0 <= k < calls@.len() ==> (#[trigger] calls@[k]).call_type@ == "function"@,
        decreases m.content.len() - i,
    {
        let ghost pre = m.content@.take(i as int);
        assert(m.content@.take(i + 1).drop_last() =~= pre);
        assert(m.content@.take(i + 1).last() == m.content@[i as int]);
        let piece: Option<String> = match &m.content[i] {
            ContentBlock::Text { text: t } => Some(t.clone()),
            ContentBlock::ToolResult { tool_use_id, content, .. } => {
                let mut s = owned("Tool result for ");
                s.append(tool_use_id.as_str());
                s.append(": ");
                s.append(content.as_str());
                Some(s)
            },
            _ => None,
        };
        match piece {
            Some(p) => {
                let ghost texts = block_texts(pre);
                assert(texts.push(p@).drop_last() =~= texts);
                if n_texts > 0 {
                    crate::text::push_char(&mut text, '\n');
                }
                text.append(p.as_str());
                n_texts = n_texts + 1;
            },
            None => {},
        }
        match &m.content[i] {
            ContentBlock::ToolUse { id, name, input } => match encode_json(input) {
                Some(a) => {
                    let ghost before = calls@;
                    let c = OpenAIToolCall {
                        id: id.clone(),
                        call_type: owned("function"),
                        function: OpenAIFunction { name: name.clone(), arguments: a },
                    };
                    calls.push(c);
                    assert(calls@.map_values(|c: OpenAIToolCall| call_view(c)) =~= before.map_values(
                        |c: OpenAIToolCall| call_view(c),
                    ).push(call_view(c)));
                },
                None => {},
            },
            _ => {},
        }
        i = i + 1;
    }
    assert(m.content@.take(m.content.len() as int) =~= m.content@);
    let role = owned(match m.role {
        Role::User => "user",
        Role::Assistant => "assistant",
        Role::System => "system",
    });
    let content = if n_texts == 0 { None } else { Some(text) };
    let tool_calls = if calls.len() == 0 { None } else { Some(calls) };
    OpenAIMessage { role, content, tool_calls, tool_call_id: None, name: None }
}

/// Maps messages onto the chunk-accumulation dialect, in order.
pub fn convert_messages_openai(messages: &Vec<Message>) -> (r: Vec<OpenAIMessage>)
    ensures
        r@.len() == messages@.len(),
        forall|i: int| 0 <= i < messages@.len() ==> openai_message_matches(messages@[i], #[trigger] r@[i]),
{
    let mut r: Vec<OpenAIMessage> = Vec::new();
    let mut i: usize = 0;
    while i < messages.len()
        invariant
            i <= messages.len(),
            r@.len() == i,
            forall|k: int| 0 <= k < i ==> openai_message_matches(messages@[k], #[trigger] r@[k]),
        decreases messages.len() - i,
    {
        r.push(convert_message_openai(&messages[i]));
        i = i + 1;
    }
    r
}

/// The adapter for cloud-hosted models of the typed-event dialect, which
/// is not available: every request fails.
#[derive(Debug, Clone)]
pub struct BedrockAdapter {
    pub profile: ModelProfile,
}

/// The adapter for another cloud host, not available either.
#[derive(Debug, Clone)]
pub struct VertexAdapter {
    pub profile: ModelProfile,
}

impl BedrockAdapter {
    pub fn new(profile: ModelProfile) -> (r: Result<Self, KodeError>)
        ensures
            r matches Ok(a) && a.profile == profile,
    {
        Ok(BedrockAdapter { profile })
    }

    /// A request, which fails as not implemented.
    pub fn complete(&self) -> (r: Result<Message, KodeError>)
        ensures
            r matches Err(e) && e is NotImplemented,
    {
        Err(KodeError::NotImplemented { message: owned("Bedrock adapter not yet implemented") })
    }
}

impl VertexAdapter {
    pub fn new(profile: ModelProfile) -> (r: Result<Self, KodeError>)
        ensures
            r matches Ok(a) && a.profile == profile,
    {
        Ok(VertexAdapter { profile })
    }

    /// A request, which fails as not implemented.
    pub fn complete(&self) -> (r: Result<Message, KodeError>)
        ensures
            r matches Err(e) && e is NotImplemented,
    {
        Err(KodeError::NotImplemented { message: owned("Vertex adapter not yet implemented") })
    }
}

} // verus!
