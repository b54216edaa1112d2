//! Assembler for the chunk-accumulation dialect.
//!
//! Text and reasoning are accumulated in one running text each; tool calls
//! are accumulated per position, kept sorted by position, and their argument
//! text is decoded once, when the message is finalized.

use vstd::prelude::*;
use crate::error::KodeError;
use crate::json::{decode_json, empty_object, empty_object_text, json_decode};
use crate::messages::{blocks_view, BlockModel, ContentBlock, Message, MessageModel, Role};
use crate::anthropic_stream::opt_view;
use crate::stream_events::{OpenAIStreamChunk, ToolCallDelta, Usage};
use crate::sse::{done_payload, initial_parser, run, EventModel, ParserModel, SseParser};

verus! {

/// A tool call being accumulated.
pub struct ToolCallModel {
    pub id: Seq<char>,
    pub name: Seq<char>,
    pub arguments: Seq<char>,
}

pub open spec fn empty_call() -> ToolCallModel {
    ToolCallModel { id: Seq::empty(), name: Seq::empty(), arguments: Seq::empty() }
}

/// The state of an assembler.
pub struct OpenAIModel {
    pub id: Option<Seq<char>>,
    pub model: Option<Seq<char>>,
    pub created: Option<u64>,
    pub text: Seq<char>,
    pub thinking: Option<Seq<char>>,
    /// The tool calls with their positions, in increasing position.
    pub calls: Seq<(usize, ToolCallModel)>,
    pub usage: Option<Usage>,
    pub finish_reason: Option<Seq<char>>,
    /// The framing state of the byte stream.
    pub framing: ParserModel,
}

pub open spec fn sorted_calls(s: Seq<(usize, ToolCallModel)>) -> bool {
    forall|i: int, j: int| 0 <= i < j < s.len() ==> s[i].0 < s[j].0
}

pub open spec fn openai_wf(m: OpenAIModel) -> bool {
    sorted_calls(m.calls)
}

pub open spec fn initial_openai() -> OpenAIModel {
    OpenAIModel {
        id: None,
        model: None,
        created: None,
        text: Seq::empty(),
        thinking: None,
        calls: Seq::empty(),
        usage: None,
        finish_reason: None,
        framing: initial_parser(),
    }
}

/// The position of the first record at or after `i` that is the done
/// marker, or the number of records.
pub open spec fn first_done(evs: Seq<EventModel>, i: int) -> int
    decreases evs.len() - i,
{
    if i < 0 || i >= evs.len() {
        evs.len() as int
    } else if evs[i].data == done_payload() {
        i
    } else {
        first_done(evs, i + 1)
    }
}

/// The first position at or after `i` whose key is at least `k`.
pub open spec fn lower_bound(s: Seq<(usize, ToolCallModel)>, k: usize, i: int) -> int
    decreases s.len() - i,
{
    if i < 0 || i >= s.len() {
        s.len() as int
    } else if s[i].0 >= k {
        i
    } else {
        lower_bound(s, k, i + 1)
    }
}

/// The calls with one delta applied: a call at a new position starts empty;
/// `id` and `name` are set when present, argument text is appended.
pub open spec fn apply_delta(s: Seq<(usize, ToolCallModel)>, d: ToolCallDelta) -> Seq<(usize, ToolCallModel)> {
    let p = lower_bound(s, d.index, 0);
    let base = if p < s.len() && s[p].0 == d.index { s } else { s.insert(p, (d.index, empty_call())) };
    let c = base[p].1;
    let id = match d.id {
        Some(x) => x@,
        None => c.id,
    };
    let (name, args) = match d.function {
        Some(f) => (
            match f.name {
                Some(n) => n@,
                None => c.name,
            },
            match f.arguments {
                Some(a) => c.arguments + a@,
                None => c.arguments,
            },
        ),
        None => (c.name, c.arguments),
    };
    base.update(p, (d.index, ToolCallModel { id, name, arguments: args }))
}

pub open spec fn apply_deltas(s: Seq<(usize, ToolCallModel)>, ds: Seq<ToolCallDelta>) -> Seq<(usize, ToolCallModel)>
    decreases ds.len(),
{
    if ds.len() == 0 {
        s
    } else {
        apply_delta(apply_deltas(s, ds.drop_last()), ds.last())
    }
}

/// What one chunk does. Metadata is taken from the first chunk that has it;
/// usage and finish reason are overwritten by later chunks; only the first
/// choice is read.
pub open spec fn chunk_step(m: OpenAIModel, c: OpenAIStreamChunk) -> OpenAIModel {
    let m1 = OpenAIModel {
        id: if m.id is None { Some(c.id@) } else { m.id },
        model: if m.model is None { Some(c.model@) } else { m.model },
        created: if m.created is None { Some(c.created) } else { m.created },
        usage: if c.usage is Some { c.usage } else { m.usage },
        ..m
    };
    if c.choices@.len() == 0 {
        m1
    } else {
        let ch = c.choices@[0];
        let d = ch.delta;
        OpenAIModel {
            text: match d.content {
                Some(t) => m1.text + t@,
                None => m1.text,
            },
            thinking: match d.reasoning {
                Some(r) => Some(
                    match m1.thinking {
                        Some(t) => t,
                        None => Seq::empty(),
                    } + r@,
                ),
                None => m1.thinking,
            },
            calls: match d.tool_calls {
                Some(v) => apply_deltas(m1.calls, v@),
                None => m1.calls,
            },
            finish_reason: match ch.finish_reason {
                Some(f) => Some(f@),
                None => m1.finish_reason,
            },
            ..m1
        }
    }
}

/// The decoded input of a call: empty argument text stands for `{}`.
pub open spec fn call_input(args: Seq<char>) -> Option<serde_json::Value> {
    if args.len() == 0 {
        json_decode(empty_object_text())
    } else {
        json_decode(args)
    }
}

/// The tool-use blocks of the calls, in order, or `None` if an argument
/// text is not JSON.
pub open spec fn call_blocks(s: Seq<(usize, ToolCallModel)>) -> Option<Seq<BlockModel>>
    decreases s.len(),
{
    if s.len() == 0 {
        Some(Seq::empty())
    } else {
        match (call_blocks(s.drop_last()), call_input(s.last().1.arguments)) {
            (Some(bs), Some(v)) => Some(bs.push(BlockModel::ToolUse { id: s.last().1.id, name: s.last().1.name, input: v })),
            _ => None,
        }
    }
}

/// Why finalization fails.
pub enum FinalizeFailure {
    /// An argument text is not JSON.
    BadArguments,
    /// No chunk carried an id.
    NoId,
    /// No chunk carried a model.
    NoModel,
}

/// The message: the text (if any), then the reasoning (if any), then the
/// tool calls in increasing position.
pub open spec fn openai_message(m: OpenAIModel) -> Result<MessageModel, FinalizeFailure> {
    let lead = (if m.text.len() > 0 { seq![BlockModel::Text { text: m.text }] } else { Seq::empty() }) + (
    match m.thinking {
        Some(t) => seq![BlockModel::Thinking { thinking: t }],
        None => Seq::empty(),
    });
    match call_blocks(m.calls) {
        None => Err(FinalizeFailure::BadArguments),
        Some(tools) => match m.id {
            None => Err(FinalizeFailure::NoId),
            Some(id) => match m.model {
                None => Err(FinalizeFailure::NoModel),
                Some(_) => Ok(MessageModel { role: Role::Assistant, content: lead + tools, uuid: Some(id) }),
            },
        },
    }
}

/// Empty argument text defaults to an empty object: a single call whose
/// argument text is empty finalizes to an invocation whose input is `{}`.
pub proof fn lemma_empty_arguments_default(id: Seq<char>, name: Seq<char>, index: usize)
    ensures
        call_blocks(seq![(index, ToolCallModel { id, name, arguments: Seq::empty() })]) == match json_decode(
            empty_object_text(),
        ) {
            Some(v) => Some(seq![BlockModel::ToolUse { id, name, input: v }]),
            None => None::<Seq<BlockModel>>,
        },
{
    let s = seq![(index, ToolCallModel { id, name, arguments: Seq::empty() })];
    assert(s.drop_last() =~= Seq::<(usize, ToolCallModel)>::empty());
    assert(call_blocks(s.drop_last()) == Some(Seq::<BlockModel>::empty()));
    assert(s.last().1.arguments.len() == 0);
    assert(call_input(s.last().1.arguments) == json_decode(empty_object_text()));
    if let Some(v) = json_decode(empty_object_text()) {
        assert(Seq::<BlockModel>::empty().push(BlockModel::ToolUse { id, name, input: v }) =~= seq![BlockModel::ToolUse {
            id,
            name,
            input: v,
        }]);
    }
}

proof fn lemma_call_blocks_none(s: Seq<(usize, ToolCallModel)>, j: int)
    requires
        0 <= j <= s.len(),
        call_blocks(s.take(j)) is None,
    ensures
        call_blocks(s) is None,
    decreases s.len() - j,
{
    if j == s.len() {
        assert(s.take(j) =~= s);
    } else {
        assert(s.take(j + 1).drop_last() =~= s.take(j));
        lemma_call_blocks_none(s, j + 1);
    }
}

proof fn lemma_lower_bound(s: Seq<(usize, ToolCallModel)>, k: usize, i: int)
    requires
        0 <= i <= s.len(),
    ensures
        i <= lower_bound(s, k, i) <= s.len(),
        forall|j: int| i <= j < lower_bound(s, k, i) ==> s[j].0 < k,
        lower_bound(s, k, i) < s.len() ==> s[lower_bound(s, k, i)].0 >= k,
    decreases s.len() - i,
{
    if i < s.len() && s[i].0 < k {
        lemma_lower_bound(s, k, i + 1);
    }
}

proof fn lemma_apply_delta_sorted(s: Seq<(usize, ToolCallModel)>, d: ToolCallDelta)
    requires
        sorted_calls(s),
    ensures
        sorted_calls(apply_delta(s, d)),
{
    lemma_lower_bound(s, d.index, 0);
    let p = lower_bound(s, d.index, 0);
    if !(p < s.len() && s[p].0 == d.index) {
        let t = s.insert(p, (d.index, empty_call()));
        assert forall|i: int, j: int| 0 <= i < j < t.len() implies t[i].0 < t[j].0 by {
            if j < p {
            } else if j == p {
            } else if i < p {
                assert(s[i].0 < d.index);
                assert(s[p].0 >= d.index);
                if p < j - 1 {
                    assert(s[p].0 < s[j - 1].0);
                }
            } else if i == p {
                if p < j - 1 {
                    assert(s[p].0 < s[j - 1].0);
                }
            } else {
            }
        }
    }
}

/// Assembler for one streamed response of the chunk-accumulation dialect.
pub struct OpenAIStreamHandler {
    id: Option<String>,
    model: Option<String>,
    created: Option<u64>,
    text_content: String,
    thinking_content: Option<String>,
    tool_calls: Vec<(usize, ToolCallBuilder)>,
    usage: Option<Usage>,
    finish_reason: Option<String>,
    parser: SseParser,
}

struct ToolCallBuilder {
    id: String,
    name: String,
    arguments: String,
}

spec fn calls_view(v: Seq<(usize, ToolCallBuilder)>) -> Seq<(usize, ToolCallModel)> {
    v.map_values(|e: (usize, ToolCallBuilder)| (e.0, ToolCallModel { id: e.1.id@, name: e.1.name@, arguments: e.1.arguments@ }))
}

impl View for OpenAIStreamHandler {
    type V = OpenAIModel;

    closed spec fn view(&self) -> OpenAIModel {
        OpenAIModel {
            id: opt_view(self.id),
            model: opt_view(self.model),
            created: self.created,
            text: self.text_content@,
            thinking: opt_view(self.thinking_content),
            calls: calls_view(self.tool_calls@),
            usage: self.usage,
            finish_reason: opt_view(self.finish_reason),
            framing: self.parser@,
        }
    }
}

fn append_opt(a: &String, b: &Option<String>) -> (r: String)
    ensures
        r@ == match b {
            Some(x) => a@ + x@,
            None => a@,
        },
{
    let mut r = a.clone();
    match b {
        Some(x) => r.append(x.as_str()),
        None => {},
    }
    r
}

impl OpenAIStreamHandler {
    /// An assembler that has seen nothing.
    pub fn new() -> (r: Self)
        ensures
            r@ == initial_openai(),
            openai_wf(r@),
    {
        let r = OpenAIStreamHandler {
            id: None,
            model: None,
            created: None,
            text_content: String::new(),
            thinking_content: None,
            tool_calls: Vec::new(),
            usage: None,
            finish_reason: None,
            parser: SseParser::new(),
        };
        assert(r@.calls =~= Seq::<(usize, ToolCallModel)>::empty());
        r
    }

    /// Frames a piece of the byte stream. Returns the payloads of the
    /// records it completes, up to the done marker, and whether the marker
    /// came; records after the marker are dropped. The payloads are to be
    /// decoded and handed to `process_event` in order.
    pub fn process_chunk(&mut self, chunk: &str) -> (r: (Vec<String>, bool))
        ensures
            ({
                let (p2, evs) = run(old(self)@.framing, chunk@);
                let k = first_done(evs, 0);
                &&& final(self)@ == (OpenAIModel { framing: p2, ..old(self)@ })
                &&& r.1 == (k < evs.len())
                &&& r.0@.map_values(|s: String| s@) == evs.take(k).map_values(|e: EventModel| e.data)
            }),
    {
        let events = self.parser.parse_chunk(chunk);
        let ghost evs = crate::sse::events_view(events@);
        let mut out: Vec<String> = Vec::new();
        let mut i: usize = 0;
        while i < events.len()
            invariant
                i <= events.len(),
                evs == crate::sse::events_view(events@),
                (self@.framing, evs) == run(old(self)@.framing, chunk@),
                self@ == (OpenAIModel { framing: self@.framing, ..old(self)@ }),
                first_done(evs, 0) == first_done(evs, i as int),
                out@.map_values(|s: String| s@) == evs.take(i as int).map_values(|e: EventModel| e.data),
            decreases events.len() - i,
        {
            if events[i].is_done_marker() {
                return (out, true);
            }
            let ghost before = out@;
            out.push(events[i].data.clone());
            assert(out@.map_values(|s: String| s@) =~= before.map_values(|s: String| s@).push(evs[i as int].data));
            assert(evs.take(i + 1).map_values(|e: EventModel| e.data) =~= evs.take(i as int).map_values(|e: EventModel| e.data).push(evs[i as int].data));
            i = i + 1;
        }
        assert(evs.take(events.len() as int) =~= evs);
        (out, false)
    }

    /// Applies one tool-call delta.
    pub fn process_tool_call_delta(&mut self, delta: &ToolCallDelta)
        requires
            openai_wf(old(self)@),
        ensures
            final(self)@ == (OpenAIModel { calls: apply_delta(old(self)@.calls, *delta), ..old(self)@ }),
            openai_wf(final(self)@),
    {
        let ghost m = self@;
        proof {
            lemma_lower_bound(m.calls, delta.index, 0);
            lemma_apply_delta_sorted(m.calls, *delta);
        }
        let mut p: usize = 0;
        while p < self.tool_calls.len() && self.tool_calls[p].0 < delta.index
            invariant
                p <= self.tool_calls.len(),
                self@ == m,
                lower_bound(m.calls, delta.index, 0) == lower_bound(m.calls, delta.index, p as int),
            decreases self.tool_calls.len() - p,
        {
            p = p + 1;
        }
        assert(p as int == lower_bound(m.calls, delta.index, 0));
        if !(p < self.tool_calls.len() && self.tool_calls[p].0 == delta.index) {
            self.tool_calls.insert(
                p,
                (delta.index, ToolCallBuilder { id: String::new(), name: String::new(), arguments: String::new() }),
            );
            assert(calls_view(self.tool_calls@) =~= m.calls.insert(p as int, (delta.index, empty_call())));
        }
        let ghost base = calls_view(self.tool_calls@);
        let old_entry = &self.tool_calls[p].1;
        let id = match &delta.id {
            Some(x) => x.clone(),
            None => old_entry.id.clone(),
        };
        let (name, arguments) = match &delta.function {
            Some(f) => (
                match &f.name {
                    Some(n) => n.clone(),
                    None => old_entry.name.clone(),
                },
                append_opt(&old_entry.arguments, &f.arguments),
            ),
            None => (old_entry.name.clone(), old_entry.arguments.clone()),
        };
        let ghost entry = (delta.index, ToolCallModel { id: id@, name: name@, arguments: arguments@ });
        self.tool_calls.set(p, (delta.index, ToolCallBuilder { id, name, arguments }));
        assert(calls_view(self.tool_calls@) =~= base.update(p as int, entry));
    }

    /// Applies one decoded chunk.
    pub fn process_event(&mut self, chunk: OpenAIStreamChunk)
        requires
            openai_wf(old(self)@),
        ensures
            final(self)@ == chunk_step(old(self)@, chunk),
            openai_wf(final(self)@),
    {
        if self.id.is_none() {
            self.id = Some(chunk.id.clone());
        }
        if self.model.is_none() {
            self.model = Some(chunk.model.clone());
        }
        if self.created.is_none() {
            self.created = Some(chunk.created);
        }
        if chunk.usage.is_some() {
            self.usage = chunk.usage;
        }
        if chunk.choices.len() > 0 {
            let ch = &chunk.choices[0];
            let d = &ch.delta;
            self.text_content = append_opt(&self.text_content, &d.content);
            match &d.reasoning {
                Some(r) => {
                    let prev = match &self.thinking_content {
                        Some(t) => t.clone(),
                        None => String::new(),
                    };
                    self.thinking_content = Some(append_opt(&prev, &d.reasoning));
                },
                None => {},
            }
            match &d.tool_calls {
                Some(v) => {
                    let ghost start = self@;
                    let mut i: usize = 0;
                    while i < v.len()
                        invariant
                            i <= v.len(),
                            openai_wf(self@),
                            self@ == (OpenAIModel { calls: apply_deltas(start.calls, v@.take(i as int)), ..start }),
                        decreases v.len() - i,
                    {
                        assert(v@.take(i + 1).drop_last() =~= v@.take(i as int));
                        self.process_tool_call_delta(&v[i]);
                        i = i + 1;
                    }
                    assert(v@.take(v.len() as int) =~= v@);
                },
                None => {},
            }
            match &ch.finish_reason {
                Some(f) => {
                    self.finish_reason = Some(f.clone());
                },
                None => {},
            }
        }
    }

    /// The assembled message. Fails with `MalformedPayload` when an argument
    /// text is not JSON (empty text stands for `{}`), and with
    /// `IncompleteStream` when no id or no model arrived.
    pub fn get_message(&self) -> (r: Result<Message, KodeError>)
        requires
            openai_wf(self@),
        ensures
            match openai_message(self@) {
                Ok(mm) => r matches Ok(msg) && msg@ == mm,
                Err(FinalizeFailure::BadArguments) => r matches Err(e) && e is MalformedPayload,
                Err(_) => r matches Err(e) && e is IncompleteStream,
            },
    {
        let mut content: Vec<ContentBlock> = Vec::new();
        let tc = chars_len(&self.text_content);
        if tc > 0 {
            content.push(ContentBlock::Text { text: self.text_content.clone() });
        }
        match &self.thinking_content {
            Some(t) => content.push(ContentBlock::Thinking { thinking: t.clone() }),
            None => {},
        }
        let ghost lead = blocks_view(content@);
        assert(lead =~= (if self@.text.len() > 0 { seq![BlockModel::Text { text: self@.text }] } else { Seq::empty() }) + (
        match self@.thinking {
            Some(t) => seq![BlockModel::Thinking { thinking: t }],
            None => Seq::empty(),
        }));
        let mut i: usize = 0;
        assert(self@.calls.take(0) =~= Seq::<(usize, ToolCallModel)>::empty());
        assert(lead + Seq::<BlockModel>::empty() =~= lead);
        while i < self.tool_calls.len()
            invariant
                i <= self.tool_calls.len(),
                call_blocks(self@.calls.take(i as int)) matches Some(bs) && blocks_view(content@) == lead + bs,
            decreases self.tool_calls.len() - i,
        {
            let ghost prev = blocks_view(content@);
            let ghost cs = self@.calls.take(i + 1);
            assert(cs.drop_last() =~= self@.calls.take(i as int));
            let entry = &self.tool_calls[i].1;
            assert(cs.last().1 == self@.calls[i as int].1);
            let n = chars_len(&entry.arguments);
            let input = if n == 0 {
                empty_object()
            } else {
                match decode_json(entry.arguments.as_str()) {
                    Some(v) => v,
                    None => {
                        proof {
                            lemma_call_blocks_none(self@.calls, i + 1);
                        }
                        return Err(KodeError::MalformedPayload { message: String::from_str("tool arguments are not valid JSON") });
                    },
                }
            };
            content.push(ContentBlock::ToolUse { id: entry.id.clone(), name: entry.name.clone(), input });
            i = i + 1;
            assert(blocks_view(content@) =~= prev.push(BlockModel::ToolUse { id: cs.last().1.id, name: cs.last().1.name, input }));
            assert(call_blocks(self@.calls.take(i as int)) matches Some(bs) && blocks_view(content@) =~= lead + bs);
        }
        assert(self@.calls.take(self.tool_calls.len() as int) =~= self@.calls);
        let id = match &self.id {
            Some(x) => x.clone(),
            None => {
                return Err(KodeError::IncompleteStream { message: String::from_str("No message ID received") });
            },
        };
        if self.model.is_none() {
            return Err(KodeError::IncompleteStream { message: String::from_str("No model received") });
        }
        Ok(Message { role: Role::Assistant, content, uuid: Some(id) })
    }

    /// The text so far.
    pub fn get_current_text(&self) -> (r: &String)
        ensures
            r@ == self@.text,
    {
        &self.text_content
    }
}

fn chars_len(s: &String) -> (r: usize)
    ensures
        r == s@.len(),
{
    crate::text::chars_of(s.as_str()).len()
}

} // verus!
