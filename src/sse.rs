//! Server-Sent-Events framing.
//!
//! The parser is modelled one character at a time: `step` says what a single
//! character does to the parser, and `run` folds it over a text. Because the
//! model has no notion of chunks, splitting a stream anywhere cannot change
//! what comes out (`lemma_chunks_equal_whole`).

use vstd::prelude::*;
use crate::text::{chars_of, string_of, push_char, str_is, copy_chars};

verus! {

/// One complete record of an event stream.
#[derive(Debug, Clone, PartialEq, Eq)]
pub struct SseEvent {
    /// The `event:` field, if any.
    pub event_type: Option<String>,
    /// The `data:` lines, joined by a line feed.
    pub data: String,
    /// The `id:` field, if any.
    pub id: Option<String>,
    /// The `retry:` field, when it was a valid number.
    pub retry: Option<u64>,
}

/// The mathematical content of an [`SseEvent`].
pub struct EventModel {
    pub event_type: Option<Seq<char>>,
    pub data: Seq<char>,
    pub id: Option<Seq<char>>,
    pub retry: Option<u64>,
}

pub open spec fn opt_chars(o: Option<String>) -> Option<Seq<char>> {
    match o {
        Some(s) => Some(s@),
        None => None,
    }
}

impl View for SseEvent {
    type V = EventModel;

    open spec fn view(&self) -> EventModel {
        EventModel {
            event_type: opt_chars(self.event_type),
            data: self.data@,
            id: opt_chars(self.id),
            retry: self.retry,
        }
    }
}

pub open spec fn empty_event() -> EventModel {
    EventModel { event_type: None, data: Seq::empty(), id: None, retry: None }
}

pub open spec fn events_view(v: Seq<SseEvent>) -> Seq<EventModel> {
    v.map_values(|e: SseEvent| e@)
}

/// The sentinel payload that ends a stream of the chunk-accumulation dialect.
pub open spec fn done_payload() -> Seq<char> {
    seq!['[', 'D', 'O', 'N', 'E', ']']
}

// ---------------------------------------------------------------------------
// The model of one line.

/// `s` without its trailing carriage returns.
pub open spec fn trim_cr(s: Seq<char>) -> Seq<char>
    decreases s.len(),
{
    if s.len() > 0 && s.last() == '\r' {
        trim_cr(s.drop_last())
    } else {
        s
    }
}

/// The position of the first `c` in `s` at or after `i`, or `s.len()`.
pub open spec fn find_from(s: Seq<char>, c: char, i: int) -> int
    decreases s.len() - i,
{
    if i < 0 || i >= s.len() {
        s.len() as int
    } else if s[i] == c {
        i
    } else {
        find_from(s, c, i + 1)
    }
}

/// A field line split into its name and its value; one space after the
/// colon is not part of the value. A line without a colon is a bare name.
pub open spec fn split_field(line: Seq<char>) -> (Seq<char>, Seq<char>) {
    let p = find_from(line, ':', 0);
    if p < line.len() {
        let v = line.subrange(p + 1, line.len() as int);
        let v2 = if v.len() > 0 && v[0] == ' ' { v.drop_first() } else { v };
        (line.subrange(0, p), v2)
    } else {
        (line, Seq::empty())
    }
}

pub open spec fn is_digit(c: char) -> bool {
    '0' <= c && c <= '9'
}

pub open spec fn all_digits(s: Seq<char>) -> bool {
    forall|i: int| 0 <= i < s.len() ==> is_digit(#[trigger] s[i])
}

/// The number that a string of decimal digits denotes.
pub open spec fn digits_value(s: Seq<char>) -> int
    decreases s.len(),
{
    if s.len() == 0 {
        0
    } else {
        digits_value(s.drop_last()) * 10 + (s.last() as int - '0' as int)
    }
}

/// The digits of a number, after an optional `+`.
pub open spec fn unsigned_part(s: Seq<char>) -> Seq<char> {
    if s.len() > 0 && s[0] == '+' { s.drop_first() } else { s }
}

/// A decimal `u64`: an optional `+`, then at least one digit, and no more
/// than `u64::MAX`.
pub open spec fn parse_u64_spec(s: Seq<char>) -> Option<u64> {
    let d = unsigned_part(s);
    if d.len() > 0 && all_digits(d) && digits_value(d) <= u64::MAX {
        Some(digits_value(d) as u64)
    } else {
        None
    }
}

/// What one line does to the record being assembled, and the record it
/// completes, if any.
pub open spec fn line_step(cur: EventModel, line: Seq<char>) -> (EventModel, Option<EventModel>) {
    if line.len() == 0 {
        if cur.data.len() > 0 {
            (empty_event(), Some(cur))
        } else {
            (cur, None)
        }
    } else if line[0] == ':' {
        (cur, None)
    } else {
        let (f, v) = split_field(line);
        if f == seq!['e', 'v', 'e', 'n', 't'] {
            (EventModel { event_type: Some(v), ..cur }, None)
        } else if f == seq!['d', 'a', 't', 'a'] {
            let d = if cur.data.len() == 0 { v } else { cur.data.push('\n') + v };
            (EventModel { data: d, ..cur }, None)
        } else if f == seq!['i', 'd'] {
            (EventModel { id: Some(v), ..cur }, None)
        } else if f == seq!['r', 'e', 't', 'r', 'y'] {
            match parse_u64_spec(v) {
                Some(n) => (EventModel { retry: Some(n), ..cur }, None),
                None => (cur, None),
            }
        } else {
            (cur, None)
        }
    }
}

// ---------------------------------------------------------------------------
// The model of the whole parser.

/// The parser's state: the unfinished line and the record being assembled.
pub struct ParserModel {
    pub pending: Seq<char>,
    pub current: EventModel,
}

pub open spec fn initial_parser() -> ParserModel {
    ParserModel { pending: Seq::empty(), current: empty_event() }
}

pub open spec fn opt_seq(o: Option<EventModel>) -> Seq<EventModel> {
    match o {
        Some(e) => seq![e],
        None => Seq::empty(),
    }
}

/// What one character does: a line feed ends the pending line, any other
/// character extends it.
pub open spec fn step(p: ParserModel, c: char) -> (ParserModel, Seq<EventModel>) {
    if c == '\n' {
        let (cur, out) = line_step(p.current, trim_cr(p.pending));
        (ParserModel { pending: Seq::empty(), current: cur }, opt_seq(out))
    } else {
        (ParserModel { pending: p.pending.push(c), current: p.current }, Seq::empty())
    }
}

/// The state after reading `text`, and the records completed on the way.
pub open spec fn run(p: ParserModel, text: Seq<char>) -> (ParserModel, Seq<EventModel>)
    decreases text.len(),
{
    if text.len() == 0 {
        (p, Seq::empty())
    } else {
        let (q, ev) = run(p, text.drop_last());
        let (r, ev2) = step(q, text.last());
        (r, ev + ev2)
    }
}

/// Feeding `chunks` one after another, collecting every record.
pub open spec fn run_chunks(p: ParserModel, chunks: Seq<Seq<char>>) -> (ParserModel, Seq<EventModel>)
    decreases chunks.len(),
{
    if chunks.len() == 0 {
        (p, Seq::empty())
    } else {
        let (q, ev) = run_chunks(p, chunks.drop_last());
        let (r, ev2) = run(q, chunks.last());
        (r, ev + ev2)
    }
}

/// All chunks joined together.
pub open spec fn concat_all(chunks: Seq<Seq<char>>) -> Seq<char>
    decreases chunks.len(),
{
    if chunks.len() == 0 {
        Seq::empty()
    } else {
        concat_all(chunks.drop_last()) + chunks.last()
    }
}

/// What `flush` does: the pending line is taken as a line (its carriage
/// returns kept), then a record with data is handed out.
pub open spec fn flush_spec(p: ParserModel) -> (ParserModel, Option<EventModel>) {
    let cur = if p.pending.len() > 0 { line_step(p.current, p.pending).0 } else { p.current };
    if cur.data.len() > 0 {
        (initial_parser(), Some(cur))
    } else {
        (ParserModel { pending: Seq::empty(), current: cur }, None)
    }
}

/// Reading `a` and then `b` is reading `a + b`.
pub proof fn lemma_run_append(p: ParserModel, a: Seq<char>, b: Seq<char>)
    ensures
        run(p, a + b) == ({
            let (q, ev1) = run(p, a);
            let (r, ev2) = run(q, b);
            (r, ev1 + ev2)
        }),
    decreases b.len(),
{
    if b.len() == 0 {
        assert(a + b =~= a);
        assert(run(p, a).1 + Seq::<EventModel>::empty() =~= run(p, a).1);
    } else {
        lemma_run_append(p, a, b.drop_last());
        assert((a + b).drop_last() =~= a + b.drop_last());
        assert((a + b).last() == b.last());
        let (q, ev1) = run(p, a);
        let (r, ev2) = run(q, b.drop_last());
        let (s, ev3) = step(r, b.last());
        assert(ev1 + ev2 + ev3 =~= ev1 + (ev2 + ev3));
    }
}

/// Framing does not depend on chunk boundaries: feeding a stream to the
/// parser in any number of pieces yields the same state and the same
/// ordered records as feeding it whole.
pub proof fn lemma_chunks_equal_whole(p: ParserModel, chunks: Seq<Seq<char>>)
    ensures
        run_chunks(p, chunks) == run(p, concat_all(chunks)),
    decreases chunks.len(),
{
    if chunks.len() > 0 {
        lemma_chunks_equal_whole(p, chunks.drop_last());
        lemma_run_append(p, concat_all(chunks.drop_last()), chunks.last());
    }
}

// ---------------------------------------------------------------------------
// Executable code.

impl SseEvent {
    /// A record with no fields.
    pub fn new() -> (r: Self)
        ensures
            r@ == empty_event(),
    {
        SseEvent { event_type: None, data: String::new(), id: None, retry: None }
    }

    /// Whether the record carries data.
    pub fn is_complete(&self) -> (r: bool)
        ensures
            r == (self.data@.len() > 0),
    {
        let d = chars_of(self.data.as_str());
        d.len() > 0
    }

    /// Whether this is the literal `[DONE]` sentinel; the data is not decoded.
    pub fn is_done_marker(&self) -> (r: bool)
        ensures
            r == (self.data@ == done_payload()),
    {
        let d = chars_of(self.data.as_str());
        proof {
            reveal_strlit("[DONE]");
        }
        assert("[DONE]"@ =~= done_payload());
        str_is(d.as_slice(), "[DONE]")
    }
}

impl Default for SseEvent {
    fn default() -> (r: Self)
        ensures
            r@ == empty_event(),
    {
        SseEvent::new()
    }
}

/// Incremental parser of an event stream.
pub struct SseParser {
    current: SseEvent,
    pending: Vec<char>,
}

impl View for SseParser {
    type V = ParserModel;

    closed spec fn view(&self) -> ParserModel {
        ParserModel { pending: self.pending@, current: self.current@ }
    }
}

/// `s` with its trailing carriage returns removed.
fn trim_cr_exec(s: &[char]) -> (r: Vec<char>)
    ensures
        r@ == trim_cr(s@),
{
    let mut n: usize = s.len();
    assert(s@.take(s.len() as int) =~= s@);
    while n > 0 && s[n - 1] == '\r'
        invariant
            n <= s.len(),
            trim_cr(s@) == trim_cr(s@.take(n as int)),
        decreases n,
    {
        assert(s@.take(n as int).last() == s@[n - 1]);
        assert(s@.take(n as int).drop_last() =~= s@.take(n - 1));
        n = n - 1;
    }
    assert(trim_cr(s@.take(n as int)) == s@.take(n as int));
    copy_chars(&s[0..n])
}

/// Position of the first `c` in `s`, or `s.len()`.
fn find_char(s: &[char], c: char) -> (r: usize)
    ensures
        r as int == find_from(s@, c, 0),
{
    let mut i: usize = 0;
    while i < s.len()
        invariant
            i <= s.len(),
            find_from(s@, c, 0) == find_from(s@, c, i as int),
        decreases s.len() - i,
    {
        if s[i] == c {
            return i;
        }
        i = i + 1;
    }
    i
}

/// Splits a field line into its name and value.
fn split_field_exec(line: &[char]) -> (r: (Vec<char>, Vec<char>))
    ensures
        (r.0@, r.1@) == split_field(line@),
{
    let p = find_char(line, ':');
    if p < line.len() {
        let f = copy_chars(&line[0..p]);
        let v: &[char] = &line[p + 1..line.len()];
        assert(v@ =~= line@.subrange(p + 1, line@.len() as int));
        if v.len() > 0 && v[0] == ' ' {
            let v2 = copy_chars(&v[1..v.len()]);
            assert(v2@ =~= v@.drop_first());
            assert(f@ =~= line@.subrange(0, p as int));
            (f, v2)
        } else {
            let v2 = copy_chars(v);
            assert(f@ =~= line@.subrange(0, p as int));
            (f, v2)
        }
    } else {
        (copy_chars(line), Vec::new())
    }
}

proof fn lemma_digits_value_nonneg(s: Seq<char>)
    requires
        all_digits(s),
    ensures
        digits_value(s) >= 0,
    decreases s.len(),
{
    if s.len() > 0 {
        assert(all_digits(s.drop_last())) by {
            assert forall|i: int| 0 <= i < s.drop_last().len() implies is_digit(
                #[trigger] s.drop_last()[i],
            ) by {
                assert(is_digit(s[i]));
            }
        }
        lemma_digits_value_nonneg(s.drop_last());
        assert(is_digit(s[s.len() - 1]));
    }
}

proof fn lemma_digits_value_prefix(s: Seq<char>, i: int)
    requires
        all_digits(s),
        0 <= i <= s.len(),
    ensures
        digits_value(s) >= digits_value(s.take(i)),
    decreases s.len(),
{
    if i < s.len() {
        let t = s.drop_last();
        assert(all_digits(t)) by {
            assert forall|j: int| 0 <= j < t.len() implies is_digit(#[trigger] t[j]) by {
                assert(is_digit(s[j]));
            }
        }
        lemma_digits_value_prefix(t, i);
        assert(t.take(i) =~= s.take(i));
        lemma_digits_value_nonneg(t);
        assert(is_digit(s[s.len() - 1]));
    } else {
        assert(s.take(i) =~= s);
    }
}

/// Reads a decimal `u64`.
fn parse_u64(s: &[char]) -> (r: Option<u64>)
    ensures
        r == parse_u64_spec(s@),
{
    let start: usize = if s.len() > 0 && s[0] == '+' { 1 } else { 0 };
    let d: &[char] = &s[start..s.len()];
    assert(d@ =~= unsigned_part(s@));
    if d.len() == 0 {
        return None;
    }
    let mut acc: u64 = 0;
    let mut i: usize = 0;
    while i < d.len()
        invariant
            i <= d.len(),
            d@ == unsigned_part(s@),
            d.len() > 0,
            all_digits(d@.take(i as int)),
            acc as int == digits_value(d@.take(i as int)),
        decreases d.len() - i,
    {
        let c = d[i];
        assert(d@.take(i + 1).drop_last() =~= d@.take(i as int));
        assert(d@.take(i + 1).last() == c);
        if !('0' <= c && c <= '9') {
            assert(!all_digits(d@)) by {
                assert(!is_digit(d@[i as int]));
            }
            assert(parse_u64_spec(s@).is_none());
            return None;
        }
        assert(all_digits(d@.take(i + 1))) by {
            assert forall|j: int| 0 <= j < i + 1 implies is_digit(#[trigger] d@.take(i + 1)[j]) by {
                if j < i {
                    assert(d@.take(i + 1)[j] == d@.take(i as int)[j]);
                }
            }
        }
        let dig: u64 = (c as u32 - '0' as u32) as u64;
        assert(digits_value(d@.take(i + 1)) == acc * 10 + dig);
        let next = acc.checked_mul(10);
        match next {
            None => {
                proof {
                    if all_digits(d@) {
                        lemma_digits_value_prefix(d@, i + 1);
                    }
                }
                return None;
            }
            Some(m) => match m.checked_add(dig) {
                None => {
                    proof {
                        if all_digits(d@) {
                            lemma_digits_value_prefix(d@, i + 1);
                        }
                    }
                    return None;
                }
                Some(a) => {
                    acc = a;
                }
            },
        }
        i = i + 1;
    }
    assert(d@.take(d.len() as int) =~= d@);
    Some(acc)
}

/// Copies an optional string.
fn copy_opt(o: &Option<String>) -> (r: Option<String>)
    ensures
        opt_chars(r) == opt_chars(*o),
{
    match o {
        Some(s) => Some(s.clone()),
        None => None,
    }
}

impl SseParser {
    /// A parser with nothing buffered.
    pub fn new() -> (r: Self)
        ensures
            r@ == initial_parser(),
    {
        SseParser { current: SseEvent::new(), pending: Vec::new() }
    }

    /// Hands out the record being assembled and starts a new one.
    fn take_current(&mut self) -> (r: SseEvent)
        ensures
            r@ == old(self)@.current,
            final(self)@ == (ParserModel { pending: old(self)@.pending, current: empty_event() }),
    {
        let e = SseEvent {
            event_type: copy_opt(&self.current.event_type),
            data: self.current.data.clone(),
            id: copy_opt(&self.current.id),
            retry: self.current.retry,
        };
        self.current = SseEvent::new();
        e
    }

    /// Applies one line to the record being assembled.
    fn process_line(&mut self, line: &[char]) -> (r: Option<SseEvent>)
        ensures
            final(self)@.pending == old(self)@.pending,
            (final(self)@.current, match r {
                Some(e) => Some(e@),
                None => None,
            }) == line_step(old(self)@.current, line@),
    {
        if line.len() == 0 {
            let d = chars_of(self.current.data.as_str());
            if d.len() > 0 {
                return Some(self.take_current());
            }
            return None;
        }
        if line[0] == ':' {
            return None;
        }
        let (f, v) = split_field_exec(line);
        proof {
            reveal_strlit("event");
            reveal_strlit("data");
            reveal_strlit("id");
            reveal_strlit("retry");
        }
        assert("event"@ =~= seq!['e', 'v', 'e', 'n', 't']);
        assert("data"@ =~= seq!['d', 'a', 't', 'a']);
        assert("id"@ =~= seq!['i', 'd']);
        assert("retry"@ =~= seq!['r', 'e', 't', 'r', 'y']);
        if str_is(f.as_slice(), "event") {
            self.current.event_type = Some(string_of(v.as_slice()));
        } else if str_is(f.as_slice(), "data") {
            let d = chars_of(self.current.data.as_str());
            if d.len() > 0 {
                push_char(&mut self.current.data, '\n');
            }
            let vs = string_of(v.as_slice());
            self.current.data.append(vs.as_str());
        } else if str_is(f.as_slice(), "id") {
            self.current.id = Some(string_of(v.as_slice()));
        } else if str_is(f.as_slice(), "retry") {
            match parse_u64(v.as_slice()) {
                Some(n) => {
                    self.current.retry = Some(n);
                },
                None => {},
            }
        }
        None
    }

    /// Feeds a piece of the stream and returns the records it completes, in
    /// order. An unfinished line is kept for the next call.
    pub fn parse_chunk(&mut self, chunk: &str) -> (r: Vec<SseEvent>)
        ensures
            (final(self)@, events_view(r@)) == run(old(self)@, chunk@),
    {
        let cs = chars_of(chunk);
        let mut events: Vec<SseEvent> = Vec::new();
        let mut i: usize = 0;
        assert(cs@.take(0) =~= Seq::<char>::empty());
        assert(events_view(events@) =~= Seq::<EventModel>::empty());
        while i < cs.len()
            invariant
                i <= cs.len(),
                cs@ == chunk@,
                (self@, events_view(events@)) == run(old(self)@, cs@.take(i as int)),
            decreases cs.len() - i,
        {
            let c = cs[i];
            let ghost before = events@;
            assert(cs@.take(i + 1).drop_last() =~= cs@.take(i as int));
            assert(cs@.take(i + 1).last() == c);
            if c == '\n' {
                let line = trim_cr_exec(self.pending.as_slice());
                self.pending = Vec::new();
                let out = self.process_line(line.as_slice());
                match out {
                    Some(e) => {
                        events.push(e);
                        assert(events_view(events@) =~= events_view(before) + seq![e@]);
                    },
                    None => {
                        assert(events_view(events@) =~= events_view(before) + Seq::<EventModel>::empty());
                    },
                }
            } else {
                self.pending.push(c);
                assert(events_view(events@) =~= events_view(before) + Seq::<EventModel>::empty());
            }
            i = i + 1;
        }
        assert(cs@.take(cs.len() as int) =~= cs@);
        events
    }

    /// Ends the stream: the unfinished line, if any, is applied, and a record
    /// that has data is handed out even without its closing blank line.
    pub fn flush(&mut self) -> (r: Option<SseEvent>)
        ensures
            (final(self)@, match r {
                Some(e) => Some(e@),
                None => None,
            }) == flush_spec(old(self)@),
    {
        if self.pending.len() > 0 {
            let line = copy_chars(self.pending.as_slice());
            self.pending = Vec::new();
            let _ = self.process_line(line.as_slice());
        }
        assert(self@.pending =~= Seq::<char>::empty());
        let d = chars_of(self.current.data.as_str());
        if d.len() > 0 {
            let e = self.take_current();
            assert(self@.pending =~= Seq::<char>::empty());
            Some(e)
        } else {
            None
        }
    }
}

impl Default for SseParser {
    fn default() -> (r: Self)
        ensures
            r@ == initial_parser(),
    {
        SseParser::new()
    }
}

} // verus!
