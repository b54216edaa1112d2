//! Assembler for the typed-event, index-addressed dialect.
//!
//! Blocks are addressed by the index the provider gives them. Argument text
//! of a tool invocation is only collected while the block is open; it is
//! decoded once, when the block stops.

use vstd::prelude::*;
use crate::error::KodeError;
use crate::json::{decode_json, empty_object, empty_object_text, json_decode};
use crate::messages::{blocks_view, duplicate_blocks, BlockModel, ContentBlock, Message, MessageModel, Role};
use crate::stream_events::{AnthropicStreamEvent, ContentBlockStart, ContentDelta, Usage};
use crate::sse::{events_view, initial_parser, run, EventModel, ParserModel, SseParser};

verus! {

/// The state of an assembler.
pub struct AnthropicModel {
    /// The message id from `message_start`; `None` until it arrives.
    pub metadata_id: Option<Seq<char>>,
    pub blocks: Seq<BlockModel>,
    /// The raw argument text collected for each index, where one is open.
    pub buffers: Seq<Option<Seq<char>>>,
    pub usage: Usage,
    pub stop_reason: Option<Seq<char>>,
    pub stop_sequence: Option<Seq<char>>,
    /// The framing state of the byte stream.
    pub framing: ParserModel,
}

/// Every index has a slot for argument text.
pub open spec fn anthropic_wf(m: AnthropicModel) -> bool {
    m.blocks.len() == m.buffers.len()
}

pub open spec fn initial_anthropic() -> AnthropicModel {
    AnthropicModel {
        metadata_id: None,
        blocks: Seq::empty(),
        buffers: Seq::empty(),
        usage: Usage { input_tokens: 0, output_tokens: 0, cache_creation_input_tokens: None, cache_read_input_tokens: None },
        stop_reason: None,
        stop_sequence: None,
        framing: initial_parser(),
    }
}

pub open spec fn empty_text_block() -> BlockModel {
    BlockModel::Text { text: Seq::empty() }
}

/// The placeholder input of a tool invocation whose arguments are not in yet.
pub open spec fn placeholder_input() -> serde_json::Value {
    json_decode(empty_object_text()).unwrap()
}

/// The assembler with the block list grown, with empty text blocks, so that
/// `index` exists.
pub open spec fn grow_to(m: AnthropicModel, index: int) -> AnthropicModel {
    let n = if m.blocks.len() > index { m.blocks.len() as int } else { index + 1 };
    AnthropicModel {
        blocks: Seq::new(n as nat, |i: int| if i < m.blocks.len() { m.blocks[i] } else { empty_text_block() }),
        buffers: Seq::new(n as nat, |i: int| if i < m.buffers.len() { m.buffers[i] } else { None }),
        ..m
    }
}

/// Why a stream fails.
pub enum FailKind {
    /// The provider sent an `error` event.
    Provider,
    /// The argument text of a tool invocation was not JSON.
    BadToolInput,
}

/// The result of one event: the new state, and either whether the stream is
/// complete or why it failed.
pub open spec fn event_step(m: AnthropicModel, e: AnthropicStreamEvent) -> (AnthropicModel, Result<bool, FailKind>) {
    match e {
        AnthropicStreamEvent::MessageStart { message } => (
            AnthropicModel { metadata_id: Some(message.id@), usage: message.usage, ..m },
            Ok(false),
        ),
        AnthropicStreamEvent::ContentBlockStart { index, content_block } => {
            let g = grow_to(m, index as int);
            match content_block {
                ContentBlockStart::Text { text } => (
                    AnthropicModel { blocks: g.blocks.update(index as int, BlockModel::Text { text: text@ }), ..g },
                    Ok(false),
                ),
                ContentBlockStart::ToolUse { id, name } => (
                    AnthropicModel {
                        blocks: g.blocks.update(
                            index as int,
                            BlockModel::ToolUse { id: id@, name: name@, input: placeholder_input() },
                        ),
                        buffers: g.buffers.update(index as int, Some(Seq::empty())),
                        ..g
                    },
                    Ok(false),
                ),
                ContentBlockStart::Thinking { thinking } => (
                    AnthropicModel {
                        blocks: g.blocks.update(index as int, BlockModel::Thinking { thinking: thinking@ }),
                        ..g
                    },
                    Ok(false),
                ),
            }
        },
        AnthropicStreamEvent::ContentBlockDelta { index, delta } => {
            let g = grow_to(m, index as int);
            let old_block = g.blocks[index as int];
            match delta {
                ContentDelta::TextDelta { text } => {
                    let b = match old_block {
                        BlockModel::Text { text: t } => BlockModel::Text { text: t + text@ },
                        _ => BlockModel::Text { text: text@ },
                    };
                    (AnthropicModel { blocks: g.blocks.update(index as int, b), ..g }, Ok(false))
                },
                ContentDelta::ThinkingDelta { thinking } => {
                    let b = match old_block {
                        BlockModel::Thinking { thinking: t } => BlockModel::Thinking { thinking: t + thinking@ },
                        _ => BlockModel::Thinking { thinking: thinking@ },
                    };
                    (AnthropicModel { blocks: g.blocks.update(index as int, b), ..g }, Ok(false))
                },
                ContentDelta::InputJsonDelta { partial_json } => {
                    let prev = match g.buffers[index as int] {
                        Some(s) => s,
                        None => Seq::empty(),
                    };
                    (
                        AnthropicModel {
                            buffers: g.buffers.update(index as int, Some(prev + partial_json@)),
                            ..g
                        },
                        Ok(false),
                    )
                },
            }
        },
        AnthropicStreamEvent::ContentBlockStop { index } => {
            if index < m.buffers.len() && m.buffers[index as int] is Some {
                let text = m.buffers[index as int].unwrap();
                let closed = AnthropicModel { buffers: m.buffers.update(index as int, None), ..m };
                match m.blocks[index as int] {
                    BlockModel::ToolUse { id, name, input } => match json_decode(text) {
                        Some(v) => (
                            AnthropicModel {
                                blocks: m.blocks.update(index as int, BlockModel::ToolUse { id, name, input: v }),
                                ..closed
                            },
                            Ok(false),
                        ),
                        None => (closed, Err(FailKind::BadToolInput)),
                    },
                    _ => (closed, Ok(false)),
                }
            } else {
                (m, Ok(false))
            }
        },
        AnthropicStreamEvent::MessageDelta { delta, usage } => {
            let reason = match delta.stop_reason {
                Some(r) => Some(r@),
                None => m.stop_reason,
            };
            let sequence = match delta.stop_sequence {
                Some(s) => Some(s@),
                None => m.stop_sequence,
            };
            let out = match usage {
                Some(u) => match u.output_tokens {
                    Some(n) => n,
                    None => m.usage.output_tokens,
                },
                None => m.usage.output_tokens,
            };
            (
                AnthropicModel {
                    stop_reason: reason,
                    stop_sequence: sequence,
                    usage: Usage { output_tokens: out, ..m.usage },
                    ..m
                },
                Ok(false),
            )
        },
        AnthropicStreamEvent::MessageStop => (
            AnthropicModel { buffers: Seq::new(m.buffers.len(), |i: int| None), ..m },
            Ok(true),
        ),
        AnthropicStreamEvent::Ping => (m, Ok(false)),
        AnthropicStreamEvent::Error { error } => (m, Err(FailKind::Provider)),
    }
}

/// The message that the assembler holds: `None` until metadata arrived.
pub open spec fn anthropic_message(m: AnthropicModel) -> Option<MessageModel> {
    match m.metadata_id {
        Some(id) => Some(MessageModel { role: Role::Assistant, content: m.blocks, uuid: Some(id) }),
        None => None,
    }
}

/// A tool invocation's arguments are decoded once, from the concatenation of
/// its fragments, when the block stops: starting a tool-use block, feeding
/// two argument fragments and stopping the block leaves, at that index, the
/// invocation with the decoded concatenation as its input, and fails the
/// stream (rather than defaulting to an empty object) where the
/// concatenation is not JSON.
pub proof fn lemma_tool_arguments_parsed_once(
    m: AnthropicModel,
    index: usize,
    id: String,
    name: String,
    first: String,
    second: String,
)
    requires
        anthropic_wf(m),
    ensures
        ({
            let s1 = event_step(m, AnthropicStreamEvent::ContentBlockStart {
                index,
                content_block: ContentBlockStart::ToolUse { id, name },
            }).0;
            let s2 = event_step(s1, AnthropicStreamEvent::ContentBlockDelta {
                index,
                delta: ContentDelta::InputJsonDelta { partial_json: first },
            }).0;
            let s3 = event_step(s2, AnthropicStreamEvent::ContentBlockDelta {
                index,
                delta: ContentDelta::InputJsonDelta { partial_json: second },
            }).0;
            let (s4, r) = event_step(s3, AnthropicStreamEvent::ContentBlockStop { index });
            match json_decode(first@ + second@) {
                Some(v) => r == Ok::<bool, FailKind>(false) && s4.blocks[index as int] == (BlockModel::ToolUse {
                    id: id@,
                    name: name@,
                    input: v,
                }) && s4.buffers[index as int] is None,
                None => r is Err && r->Err_0 is BadToolInput,
            }
        }),
{
    let s1 = event_step(m, AnthropicStreamEvent::ContentBlockStart {
        index,
        content_block: ContentBlockStart::ToolUse { id, name },
    }).0;
    let s2 = event_step(s1, AnthropicStreamEvent::ContentBlockDelta {
        index,
        delta: ContentDelta::InputJsonDelta { partial_json: first },
    }).0;
    assert(grow_to(s1, index as int) == s1) by {
        assert(grow_to(s1, index as int).blocks =~= s1.blocks);
        assert(grow_to(s1, index as int).buffers =~= s1.buffers);
    }
    let s3 = event_step(s2, AnthropicStreamEvent::ContentBlockDelta {
        index,
        delta: ContentDelta::InputJsonDelta { partial_json: second },
    }).0;
    assert(grow_to(s2, index as int) == s2) by {
        assert(grow_to(s2, index as int).blocks =~= s2.blocks);
        assert(grow_to(s2, index as int).buffers =~= s2.buffers);
    }
    assert(Seq::<char>::empty() + first@ =~= first@);
    assert(s3.buffers[index as int] == Some(first@ + second@));
}

/// Finalization is idempotent: the message depends on the assembler's
/// state alone, so asking for it twice gives equal messages; and a repeated
/// `message_stop` leaves the state, the completion and the message as the
/// first one left them.
pub proof fn lemma_finalization_idempotent(m: AnthropicModel)
    ensures
        ({
            let (s1, r1) = event_step(m, AnthropicStreamEvent::MessageStop);
            let (s2, r2) = event_step(s1, AnthropicStreamEvent::MessageStop);
            &&& r1 == Ok::<bool, FailKind>(true)
            &&& r2 == Ok::<bool, FailKind>(true)
            &&& s2 == s1
            &&& anthropic_message(s1) == anthropic_message(m)
            &&& anthropic_message(s2) == anthropic_message(s1)
        }),
{
    let s1 = event_step(m, AnthropicStreamEvent::MessageStop).0;
    let s2 = event_step(s1, AnthropicStreamEvent::MessageStop).0;
    assert(s2.buffers =~= s1.buffers);
}

/// Assembler for one streamed response of the typed-event dialect.
pub struct AnthropicStreamHandler {
    message_id: Option<String>,
    content_blocks: Vec<ContentBlock>,
    input_json_buffers: Vec<Option<String>>,
    usage: Usage,
    stop_reason: Option<String>,
    stop_sequence: Option<String>,
    parser: SseParser,
}

pub open spec fn opt_view(o: Option<String>) -> Option<Seq<char>> {
    match o {
        Some(s) => Some(s@),
        None => None,
    }
}

pub open spec fn buffers_view(v: Seq<Option<String>>) -> Seq<Option<Seq<char>>> {
    v.map_values(|o: Option<String>| opt_view(o))
}

impl View for AnthropicStreamHandler {
    type V = AnthropicModel;

    closed spec fn view(&self) -> AnthropicModel {
        AnthropicModel {
            metadata_id: opt_view(self.message_id),
            blocks: blocks_view(self.content_blocks@),
            buffers: buffers_view(self.input_json_buffers@),
            usage: self.usage,
            stop_reason: opt_view(self.stop_reason),
            stop_sequence: opt_view(self.stop_sequence),
            framing: self.parser@,
        }
    }
}

fn string_from(s: &String) -> (r: String)
    ensures
        r@ == s@,
{
    s.clone()
}

fn concat(a: &String, b: &String) -> (r: String)
    ensures
        r@ == a@ + b@,
{
    let mut r = a.clone();
    r.append(b.as_str());
    r
}

impl AnthropicStreamHandler {
    /// An assembler that has seen nothing.
    pub fn new() -> (r: Self)
        ensures
            r@ == initial_anthropic(),
            anthropic_wf(r@),
    {
        let r = AnthropicStreamHandler {
            message_id: None,
            content_blocks: Vec::new(),
            input_json_buffers: Vec::new(),
            usage: Usage::zero(),
            stop_reason: None,
            stop_sequence: None,
            parser: SseParser::new(),
        };
        assert(r@.blocks =~= Seq::<BlockModel>::empty());
        assert(r@.buffers =~= Seq::<Option<Seq<char>>>::empty());
        r
    }

    /// Frames a piece of the byte stream and returns the payloads of the
    /// records it completes, in order, to be decoded and handed to
    /// `process_event`.
    pub fn process_chunk(&mut self, chunk: &str) -> (r: Vec<String>)
        ensures
            ({
                let (p2, evs) = run(old(self)@.framing, chunk@);
                &&& final(self)@ == (AnthropicModel { framing: p2, ..old(self)@ })
                &&& r@.map_values(|s: String| s@) == evs.map_values(|e: EventModel| e.data)
            }),
    {
        let events = self.parser.parse_chunk(chunk);
        let ghost evs = events_view(events@);
        let mut out: Vec<String> = Vec::new();
        let mut i: usize = 0;
        while i < events.len()
            invariant
                i <= events.len(),
                evs == events_view(events@),
                out@.map_values(|s: String| s@) == evs.take(i as int).map_values(|e: EventModel| e.data),
            decreases events.len() - i,
        {
            let ghost before = out@;
            out.push(events[i].data.clone());
            assert(out@.map_values(|s: String| s@) =~= before.map_values(|s: String| s@).push(evs[i as int].data));
            assert(evs.take(i + 1).map_values(|e: EventModel| e.data) =~= evs.take(i as int).map_values(
                |e: EventModel| e.data,
            ).push(evs[i as int].data));
            i = i + 1;
        }
        assert(evs.take(events.len() as int) =~= evs);
        out
    }

    /// Grows the block list so that `index` exists.
    fn grow(&mut self, index: usize)
        requires
            anthropic_wf(old(self)@),
        ensures
            final(self)@ == grow_to(old(self)@, index as int),
            anthropic_wf(final(self)@),
    {
        let ghost m = self@;
        assert(self@.blocks =~= Seq::new(self.content_blocks.len() as nat, |i: int| if i < m.blocks.len() { m.blocks[i] } else { empty_text_block() }));
        assert(self@.buffers =~= Seq::new(self.content_blocks.len() as nat, |i: int| if i < m.buffers.len() { m.buffers[i] } else { None }));
        while self.content_blocks.len() <= index
            invariant
                m.blocks.len() == m.buffers.len(),
                self.content_blocks.len() == self.input_json_buffers.len(),
                m.blocks.len() <= self.content_blocks.len(),
                self.content_blocks.len() <= if m.blocks.len() > index { m.blocks.len() as int } else { index + 1 },
                self@ == (AnthropicModel {
                    blocks: Seq::new(self.content_blocks.len() as nat, |i: int| if i < m.blocks.len() { m.blocks[i] } else { empty_text_block() }),
                    buffers: Seq::new(self.content_blocks.len() as nat, |i: int| if i < m.buffers.len() { m.buffers[i] } else { None }),
                    ..m
                }),
            decreases index + 1 - self.content_blocks.len(),
        {
            let ghost before = self@;
            self.content_blocks.push(ContentBlock::Text { text: String::new() });
            self.input_json_buffers.push(None);
            assert(self@.blocks =~= before.blocks.push(empty_text_block()));
            assert(self@.buffers =~= before.buffers.push(None));
            assert(self@.blocks =~= Seq::new(self.content_blocks.len() as nat, |i: int| if i < m.blocks.len() { m.blocks[i] } else { empty_text_block() }));
            assert(self@.buffers =~= Seq::new(self.content_blocks.len() as nat, |i: int| if i < m.buffers.len() { m.buffers[i] } else { None }));
        }
        assert(self@.blocks =~= grow_to(m, index as int).blocks);
        assert(self@.buffers =~= grow_to(m, index as int).buffers);
    }

    /// Replaces the block at `index`.
    fn set_block(&mut self, index: usize, b: ContentBlock)
        requires
            anthropic_wf(old(self)@),
            index < old(self)@.blocks.len(),
        ensures
            final(self)@ == (AnthropicModel { blocks: old(self)@.blocks.update(index as int, b@), ..old(self)@ }),
            anthropic_wf(final(self)@),
    {
        let ghost m = self@;
        self.content_blocks.set(index, b);
        assert(self@.blocks =~= m.blocks.update(index as int, b@));
    }

    /// Replaces the argument text at `index`.
    fn set_buffer(&mut self, index: usize, s: Option<String>)
        requires
            anthropic_wf(old(self)@),
            index < old(self)@.buffers.len(),
        ensures
            final(self)@ == (AnthropicModel { buffers: old(self)@.buffers.update(index as int, opt_view(s)), ..old(self)@ }),
            anthropic_wf(final(self)@),
    {
        let ghost m = self@;
        self.input_json_buffers.set(index, s);
        assert(self@.buffers =~= m.buffers.update(index as int, opt_view(s)));
    }

    fn handle_content_block_start(&mut self, index: usize, content_block: ContentBlockStart)
        requires
            anthropic_wf(old(self)@),
        ensures
            (final(self)@, Ok::<bool, FailKind>(false)) == event_step(
                old(self)@,
                AnthropicStreamEvent::ContentBlockStart { index, content_block },
            ),
            anthropic_wf(final(self)@),
    {
        self.grow(index);
        match content_block {
            ContentBlockStart::Text { text } => {
                self.set_block(index, ContentBlock::Text { text });
            },
            ContentBlockStart::ToolUse { id, name } => {
                let input = empty_object();
                self.set_block(index, ContentBlock::ToolUse { id, name, input });
                self.set_buffer(index, Some(String::new()));
            },
            ContentBlockStart::Thinking { thinking } => {
                self.set_block(index, ContentBlock::Thinking { thinking });
            },
        }
    }

    fn handle_content_block_delta(&mut self, index: usize, delta: ContentDelta)
        requires
            anthropic_wf(old(self)@),
        ensures
            (final(self)@, Ok::<bool, FailKind>(false)) == event_step(
                old(self)@,
                AnthropicStreamEvent::ContentBlockDelta { index, delta },
            ),
            anthropic_wf(final(self)@),
    {
        self.grow(index);
        match delta {
            ContentDelta::TextDelta { text } => {
                let b = match &self.content_blocks[index] {
                    ContentBlock::Text { text: t } => ContentBlock::Text { text: concat(t, &text) },
                    _ => ContentBlock::Text { text },
                };
                self.set_block(index, b);
            },
            ContentDelta::ThinkingDelta { thinking } => {
                let b = match &self.content_blocks[index] {
                    ContentBlock::Thinking { thinking: t } => ContentBlock::Thinking { thinking: concat(t, &thinking) },
                    _ => ContentBlock::Thinking { thinking },
                };
                self.set_block(index, b);
            },
            ContentDelta::InputJsonDelta { partial_json } => {
                let s = match &self.input_json_buffers[index] {
                    Some(prev) => concat(prev, &partial_json),
                    None => {
                        assert(Seq::<char>::empty() + partial_json@ =~= partial_json@);
                        partial_json
                    },
                };
                self.set_buffer(index, Some(s));
            },
        }
    }

    fn handle_content_block_stop(&mut self, index: usize) -> (r: Result<bool, KodeError>)
        requires
            anthropic_wf(old(self)@),
        ensures
            ({
                let (m2, out) = event_step(old(self)@, AnthropicStreamEvent::ContentBlockStop { index });
                &&& final(self)@ == m2
                &&& match out {
                    Ok(b) => r == Ok::<bool, KodeError>(b),
                    Err(_) => r is Err && r->Err_0 is MalformedPayload,
                }
            }),
            anthropic_wf(final(self)@),
    {
        if index >= self.input_json_buffers.len() {
            return Ok(false);
        }
        let text = match &self.input_json_buffers[index] {
            Some(s) => string_from(s),
            None => {
                return Ok(false);
            },
        };
        self.set_buffer(index, None);
        let (id, name) = match &self.content_blocks[index] {
            ContentBlock::ToolUse { id, name, .. } => (id.clone(), name.clone()),
            _ => {
                return Ok(false);
            },
        };
        match decode_json(text.as_str()) {
            Some(v) => {
                self.set_block(index, ContentBlock::ToolUse { id, name, input: v });
                Ok(false)
            },
            None => Err(KodeError::MalformedPayload { message: String::from_str("tool input is not valid JSON") }),
        }
    }

    /// Applies one decoded event. `Ok(true)` means the stream is complete.
    /// A tool invocation whose argument text is not JSON fails with
    /// `MalformedPayload`; an `error` event fails with `ApiError`.
    pub fn process_event(&mut self, event: AnthropicStreamEvent) -> (r: Result<bool, KodeError>)
        requires
            anthropic_wf(old(self)@),
        ensures
            anthropic_wf(final(self)@),
            ({
                let (m2, out) = event_step(old(self)@, event);
                &&& final(self)@ == m2
                &&& match out {
                    Ok(b) => r == Ok::<bool, KodeError>(b),
                    Err(FailKind::BadToolInput) => r is Err && r->Err_0 is MalformedPayload,
                    Err(FailKind::Provider) => r is Err && r->Err_0 is ApiError,
                }
            }),
            event matches AnthropicStreamEvent::Error { error } ==> (r matches Err(KodeError::ApiError { provider, message })
                && provider@ == "Anthropic"@ && message@ == "Stream error: "@ + error.error_type@ + " - "@ + error.message@),
    {
        match event {
            AnthropicStreamEvent::MessageStart { message } => {
                self.message_id = Some(message.id);
                self.usage = message.usage;
                Ok(false)
            },
            AnthropicStreamEvent::ContentBlockStart { index, content_block } => {
                self.handle_content_block_start(index, content_block);
                Ok(false)
            },
            AnthropicStreamEvent::ContentBlockDelta { index, delta } => {
                self.handle_content_block_delta(index, delta);
                Ok(false)
            },
            AnthropicStreamEvent::ContentBlockStop { index } => self.handle_content_block_stop(index),
            AnthropicStreamEvent::MessageDelta { delta, usage } => {
                match delta.stop_reason {
                    Some(reason) => {
                        self.stop_reason = Some(reason);
                    },
                    None => {},
                }
                match delta.stop_sequence {
                    Some(s) => {
                        self.stop_sequence = Some(s);
                    },
                    None => {},
                }
                match usage {
                    Some(u) => match u.output_tokens {
                        Some(n) => {
                            self.usage.output_tokens = n;
                        },
                        None => {},
                    },
                    None => {},
                }
                Ok(false)
            },
            AnthropicStreamEvent::MessageStop => {
                let ghost m = self@;
                let mut i: usize = 0;
                assert(self@.buffers =~= Seq::new(m.buffers.len(), |j: int| if j < 0 { None } else { m.buffers[j] }));
                while i < self.input_json_buffers.len()
                    invariant
                        i <= self.input_json_buffers.len(),
                        anthropic_wf(self@),
                        self@ == (AnthropicModel {
                            buffers: Seq::new(m.buffers.len(), |j: int| if j < i { None } else { m.buffers[j] }),
                            ..m
                        }),
                    decreases self.input_json_buffers.len() - i,
                {
                    self.set_buffer(i, None);
                    i = i + 1;
                    assert(self@.buffers =~= Seq::new(m.buffers.len(), |j: int| if j < i { None } else { m.buffers[j] }));
                }
                assert(self@.buffers =~= Seq::new(m.buffers.len(), |j: int| None));
                Ok(true)
            },
            AnthropicStreamEvent::Ping => Ok(false),
            AnthropicStreamEvent::Error { error } => {
                let mut message = String::from_str("Stream error: ");
                message.append(error.error_type.as_str());
                message.append(" - ");
                message.append(error.message.as_str());
                Err(KodeError::ApiError { provider: String::from_str("Anthropic"), message })
            },
        }
    }

    /// The assembled message: the blocks in index order, with the id that
    /// `message_start` gave. Fails when no `message_start` arrived.
    pub fn get_message(&self) -> (r: Result<Message, KodeError>)
        ensures
            match anthropic_message(self@) {
                Some(mm) => r matches Ok(msg) && msg@ == mm,
                None => r matches Err(e) && e is IncompleteStream,
            },
    {
        match &self.message_id {
            Some(id) => {
                let content = duplicate_blocks(&self.content_blocks);
                Ok(Message { role: Role::Assistant, content, uuid: Some(id.clone()) })
            },
            None => Err(KodeError::IncompleteStream { message: String::from_str("No message metadata received") }),
        }
    }

    /// The blocks so far, without changing anything.
    pub fn get_current_content(&self) -> (r: &[ContentBlock])
        ensures
            blocks_view(r@) == self@.blocks,
    {
        self.content_blocks.as_slice()
    }

    /// The last stop reason reported.
    pub fn stop_reason(&self) -> (r: Option<String>)
        ensures
            opt_view(r) == self@.stop_reason,
    {
        match &self.stop_reason {
            Some(s) => Some(s.clone()),
            None => None,
        }
    }

    /// The token usage so far.
    pub fn usage(&self) -> (r: Usage)
        ensures
            r == self@.usage,
    {
        self.usage
    }
}

} // verus!
