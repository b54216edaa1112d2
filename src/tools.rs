//! What every tool shares: the execution context with its read-timestamp
//! ledger, the validation result, and the concurrency classes.

use vstd::prelude::*;
use crate::messages::Message;
use crate::text::chars_of;

verus! {

/// When each file was last read, by absolute path (milliseconds since the
/// epoch). A later record for a path replaces an earlier one.
#[derive(Debug, Clone)]
pub struct ReadLedger {
    entries: Vec<(String, u64)>,
}

pub open spec fn ledger_map(s: Seq<(String, u64)>) -> Map<Seq<char>, u64>
    decreases s.len(),
{
    if s.len() == 0 {
        Map::empty()
    } else {
        ledger_map(s.drop_last()).insert(s.last().0@, s.last().1)
    }
}

impl View for ReadLedger {
    type V = Map<Seq<char>, u64>;

    closed spec fn view(&self) -> Map<Seq<char>, u64> {
        ledger_map(self.entries@)
    }
}

pub open spec fn stamp_of(m: Map<Seq<char>, u64>, path: Seq<char>) -> Option<u64> {
    if m.contains_key(path) { Some(m[path]) } else { None }
}

impl ReadLedger {
    /// A ledger with no reads.
    pub fn new() -> (r: Self)
        ensures
            r@ == Map::<Seq<char>, u64>::empty(),
    {
        ReadLedger { entries: Vec::new() }
    }

    /// When `path` was last read, if ever.
    pub fn get(&self, path: &str) -> (r: Option<u64>)
        ensures
            r == stamp_of(self@, path@),
    {
        let mut i: usize = self.entries.len();
        assert(self.entries@.take(i as int) =~= self.entries@);
        while i > 0
            invariant
                i <= self.entries.len(),
                stamp_of(ledger_map(self.entries@), path@) == stamp_of(ledger_map(self.entries@.take(i as int)), path@),
            decreases i,
        {
            let ghost t = self.entries@.take(i as int);
            assert(t.drop_last() =~= self.entries@.take(i - 1));
            let k = chars_of(self.entries[i - 1].0.as_str());
            if crate::text::str_is(k.as_slice(), path) {
                return Some(self.entries[i - 1].1);
            }
            i = i - 1;
        }
        assert(self.entries@.take(0) =~= Seq::<(String, u64)>::empty());
        None
    }

    /// Records that `path` was read, or written, at `stamp`.
    pub fn record(&mut self, path: &str, stamp: u64)
        ensures
            final(self)@ == old(self)@.insert(path@, stamp),
    {
        let ghost before = self.entries@;
        self.entries.push((crate::text::owned(path), stamp));
        assert(self.entries@.drop_last() =~= before);
    }
}

/// The context one execution flow hands to its tools.
#[derive(Debug, Clone)]
pub struct ToolContext {
    pub message_id: Option<String>,
    pub agent_id: Option<String>,
    pub safe_mode: bool,
    pub read_file_timestamps: ReadLedger,
    pub verbose: bool,
}

impl Default for ToolContext {
    fn default() -> (r: Self)
        ensures
            r.message_id.is_none(),
            r.agent_id.is_none(),
            !r.safe_mode,
            r.read_file_timestamps@ == Map::<Seq<char>, u64>::empty(),
            !r.verbose,
    {
        ToolContext {
            message_id: None,
            agent_id: None,
            safe_mode: false,
            read_file_timestamps: ReadLedger::new(),
            verbose: false,
        }
    }
}

/// The verdict of a tool's validation; only a valid input is executed.
#[derive(Debug, Clone, PartialEq, Eq)]
pub struct ValidationResult {
    pub is_valid: bool,
    pub message: Option<String>,
}

impl ValidationResult {
    /// Acceptance.
    pub fn ok() -> (r: Self)
        ensures
            r.is_valid,
            r.message.is_none(),
    {
        ValidationResult { is_valid: true, message: None }
    }

    /// Acceptance; the same as `ok`.
    pub fn valid() -> (r: Self)
        ensures
            r.is_valid,
            r.message.is_none(),
    {
        ValidationResult::ok()
    }

    /// Rejection with a reason; the same as `error`.
    pub fn invalid(message: String) -> (r: Self)
        ensures
            !r.is_valid,
            r.message matches Some(m) && m@ == message@,
    {
        ValidationResult::error(message)
    }

    /// Rejection with a reason.
    pub fn error(message: String) -> (r: Self)
        ensures
            !r.is_valid,
            r.message matches Some(m) && m@ == message@,
    {
        ValidationResult { is_valid: false, message: Some(message) }
    }
}

/// What a tool's execution yields: progress, then one result.
#[derive(Debug, Clone)]
pub enum ToolStreamItem<T> {
    Progress { content: String, normalized_messages: Option<Vec<Message>> },
    Result { data: T, result_for_assistant: Option<String> },
}

/// Options a tool sees about its caller.
#[derive(Debug, Clone)]
pub struct ToolOptions {
    pub commands: Vec<String>,
    pub tools: Vec<String>,
    pub verbose: bool,
    pub slow_and_capable_model: Option<String>,
}

/// Identifiers that chain successive responses.
#[derive(Debug, Clone)]
pub struct ResponseState {
    pub previous_response_id: Option<String>,
    pub conversation_id: Option<String>,
}

/// The tools of the engine.
#[derive(Debug, Clone, Copy, PartialEq, Eq, Structural)]
pub enum ToolKind {
    Bash,
    FileEdit,
    FileWrite,
    FileRead,
    Glob,
    Grep,
    MemoryRead,
    MemoryWrite,
    Think,
    TodoWrite,
    UrlFetcher,
}

pub open spec fn kind_read_only(k: ToolKind) -> bool {
    match k {
        ToolKind::FileRead | ToolKind::Glob | ToolKind::Grep | ToolKind::MemoryRead | ToolKind::Think
        | ToolKind::UrlFetcher => true,
        _ => false,
    }
}

pub open spec fn kind_concurrency_safe(k: ToolKind) -> bool {
    match k {
        ToolKind::Bash | ToolKind::FileEdit | ToolKind::FileWrite => false,
        _ => true,
    }
}

pub open spec fn kind_name(k: ToolKind) -> Seq<char> {
    match k {
        ToolKind::Bash => "Bash"@,
        ToolKind::FileEdit => "Edit"@,
        ToolKind::FileWrite => "Write"@,
        ToolKind::FileRead => "View"@,
        ToolKind::Glob => "Glob"@,
        ToolKind::Grep => "Grep"@,
        ToolKind::MemoryRead => "MemoryRead"@,
        ToolKind::MemoryWrite => "MemoryWrite"@,
        ToolKind::Think => "Think"@,
        ToolKind::TodoWrite => "TodoWrite"@,
        ToolKind::UrlFetcher => "WebFetch"@,
    }
}

impl ToolKind {
    /// The stable name the model calls the tool by.
    pub fn name(&self) -> (r: &'static str)
        ensures
            r@ == kind_name(*self),
    {
        match self {
            ToolKind::Bash => "Bash",
            ToolKind::FileEdit => "Edit",
            ToolKind::FileWrite => "Write",
            ToolKind::FileRead => "View",
            ToolKind::Glob => "Glob",
            ToolKind::Grep => "Grep",
            ToolKind::MemoryRead => "MemoryRead",
            ToolKind::MemoryWrite => "MemoryWrite",
            ToolKind::Think => "Think",
            ToolKind::TodoWrite => "TodoWrite",
            ToolKind::UrlFetcher => "WebFetch",
        }
    }

    /// Whether the tool leaves the file system as it is.
    pub fn is_read_only(&self) -> (r: bool)
        ensures
            r == kind_read_only(*self),
    {
        match self {
            ToolKind::FileRead | ToolKind::Glob | ToolKind::Grep | ToolKind::MemoryRead | ToolKind::Think
            | ToolKind::UrlFetcher => true,
            _ => false,
        }
    }

    /// Whether invocations of the tool may overlap with others.
    pub fn is_concurrency_safe(&self) -> (r: bool)
        ensures
            r == kind_concurrency_safe(*self),
    {
        match self {
            ToolKind::Bash | ToolKind::FileEdit | ToolKind::FileWrite => false,
            _ => true,
        }
    }

    /// Whether running the tool needs the user's permission: every tool
    /// that changes something does.
    pub fn needs_permissions(&self) -> (r: bool)
        ensures
            r == !kind_read_only(*self),
    {
        !self.is_read_only()
    }

    /// Looks a tool up by its stable name; unknown names have none.
    pub fn from_name(name: &str) -> (r: Option<ToolKind>)
        ensures
            r matches Some(k) ==> kind_name(k) == name@,
            r is None ==> forall|k: ToolKind| kind_name(k) != name@,
    {
        let n = chars_of(name);
        let kinds = [
            ToolKind::Bash, ToolKind::FileEdit, ToolKind::FileWrite, ToolKind::FileRead, ToolKind::Glob,
            ToolKind::Grep, ToolKind::MemoryRead, ToolKind::MemoryWrite, ToolKind::Think,
            ToolKind::TodoWrite, ToolKind::UrlFetcher,
        ];
        let mut i: usize = 0;
        while i < 11
            invariant
                i <= 11,
                kinds@ == seq![
                    ToolKind::Bash, ToolKind::FileEdit, ToolKind::FileWrite, ToolKind::FileRead, ToolKind::Glob,
                    ToolKind::Grep, ToolKind::MemoryRead, ToolKind::MemoryWrite, ToolKind::Think,
                    ToolKind::TodoWrite, ToolKind::UrlFetcher,
                ],
                n@ == name@,
                forall|j: int| 0 <= j < i ==> kind_name(#[trigger] kinds@[j]) != name@,
            decreases 11 - i,
        {
            let k = kinds[i];
            if crate::text::str_is(n.as_slice(), k.name()) {
                return Some(k);
            }
            i = i + 1;
        }
        assert forall|k: ToolKind| kind_name(k) != name@ by {
            let j: int = match k {
                ToolKind::Bash => 0,
                ToolKind::FileEdit => 1,
                ToolKind::FileWrite => 2,
                ToolKind::FileRead => 3,
                ToolKind::Glob => 4,
                ToolKind::Grep => 5,
                ToolKind::MemoryRead => 6,
                ToolKind::MemoryWrite => 7,
                ToolKind::Think => 8,
                ToolKind::TodoWrite => 9,
                ToolKind::UrlFetcher => 10,
            };
            assert(kinds@[j] == k);
        }
        None
    }
}

/// Two invocations must be serialized exactly when neither tool is
/// concurrency-safe.
pub open spec fn must_serialize(a: ToolKind, b: ToolKind) -> bool {
    !kind_concurrency_safe(a) && !kind_concurrency_safe(b)
}

/// Whether invocations of `a` and `b` within one context may overlap.
pub fn may_overlap(a: ToolKind, b: ToolKind) -> (r: bool)
    ensures
        r == !must_serialize(a, b),
{
    a.is_concurrency_safe() || b.is_concurrency_safe()
}

} // verus!
