//! Rules shared by the tools that change files: absolute paths, the
//! read-before-write check, and line-ending conventions.

use vstd::prelude::*;
use crate::text::{chars_of, contains_seq, contains_chars, replace_all, replace_all_exec, string_of};
use crate::tools::{stamp_of, ToolContext};

verus! {

pub open spec fn is_absolute_path(p: Seq<char>) -> bool {
    p.len() > 0 && p[0] == '/'
}

/// Whether a path is absolute.
pub fn is_absolute(p: &str) -> (r: bool)
    ensures
        r == is_absolute_path(p@),
{
    let cs = chars_of(p);
    cs.len() > 0 && cs[0] == '/'
}

/// Why a change to an existing file is refused by the ledger.
#[derive(Debug, Clone, Copy, PartialEq, Eq, Structural)]
pub enum Staleness {
    /// The file was never read in this context.
    NotReadYet,
    /// The file changed on disk after it was read.
    ModifiedSinceRead,
}

/// The read-before-write rule: an existing file may be changed only if it
/// was read, and not modified on disk since (`mtime`, when it can be
/// known, is not newer than the recorded read).
pub open spec fn freshness(stamp: Option<u64>, mtime: Option<u64>) -> Option<Staleness> {
    match stamp {
        None => Some(Staleness::NotReadYet),
        Some(t) => match mtime {
            Some(m) => if m > t { Some(Staleness::ModifiedSinceRead) } else { None },
            None => None,
        },
    }
}

/// Applies the read-before-write rule to `path` as the context's ledger
/// records it.
pub fn check_freshness(ctx: &ToolContext, path: &str, mtime: Option<u64>) -> (r: Option<Staleness>)
    ensures
        r == freshness(stamp_of(ctx.read_file_timestamps@, path@), mtime),
{
    match ctx.read_file_timestamps.get(path) {
        None => Some(Staleness::NotReadYet),
        Some(t) => match mtime {
            Some(m) => if m > t { Some(Staleness::ModifiedSinceRead) } else { None },
            None => None,
        },
    }
}

/// Records a successful change: the ledger takes the file's new
/// modification time, so that a further change in the same context passes.
pub fn record_change(ctx: &mut ToolContext, path: &str, new_mtime: u64)
    ensures
        final(ctx).read_file_timestamps@ == old(ctx).read_file_timestamps@.insert(path@, new_mtime),
        final(ctx).agent_id == old(ctx).agent_id,
        final(ctx).safe_mode == old(ctx).safe_mode,
{
    ctx.read_file_timestamps.record(path, new_mtime);
}

/// Reading and then writing: an existing file that the ledger has never seen
/// is refused as not read; once read at `t`, a change passes while the file's
/// modification time is `t`; once the file is modified later on disk, the
/// change is refused as stale until it is read again.
pub proof fn lemma_read_before_write(
    ledger: Map<Seq<char>, u64>,
    path: Seq<char>,
    t: u64,
    later: u64,
)
    requires
        !ledger.contains_key(path),
        later > t,
    ensures
        freshness(stamp_of(ledger, path), Some(t)) == Some(Staleness::NotReadYet),
        freshness(stamp_of(ledger.insert(path, t), path), Some(t)) is None,
        freshness(stamp_of(ledger.insert(path, t), path), Some(later)) == Some(Staleness::ModifiedSinceRead),
        freshness(stamp_of(ledger.insert(path, t).insert(path, later), path), Some(later)) is None,
{
}

pub open spec fn crlf() -> Seq<char> {
    seq!['\r', '\n']
}

pub open spec fn lf() -> Seq<char> {
    seq!['\n']
}

/// A text uses CRLF line endings when it holds at least one.
pub open spec fn uses_crlf(content: Seq<char>) -> bool {
    contains_seq(content, crlf())
}

/// `s` with every bare line feed (one not already after a carriage return)
/// preceded by a carriage return; CRLF pairs stay as they are.
pub open spec fn bare_lf_to_crlf(s: Seq<char>) -> Seq<char>
    decreases s.len(),
{
    if s.len() == 0 {
        Seq::empty()
    } else {
        let prev = bare_lf_to_crlf(s.drop_last());
        if s.last() == '\n' && !(s.len() >= 2 && s[s.len() - 2] == '\r') {
            prev + crlf()
        } else {
            prev.push(s.last())
        }
    }
}

/// `content` converted to the chosen line-ending convention.
pub open spec fn with_line_endings(content: Seq<char>, to_crlf: bool) -> Seq<char> {
    if to_crlf {
        bare_lf_to_crlf(content)
    } else {
        replace_all(content, crlf(), lf())
    }
}

/// Whether a text uses CRLF line endings.
pub fn detect_crlf(content: &str) -> (r: bool)
    ensures
        r == uses_crlf(content@),
{
    let c = chars_of(content);
    let pat: Vec<char> = vec!['\r', '\n'];
    assert(pat@ =~= crlf());
    contains_chars(c.as_slice(), pat.as_slice())
}

/// Converts a text to a line-ending convention.
pub fn convert_line_endings(content: &str, to_crlf: bool) -> (r: String)
    ensures
        r@ == with_line_endings(content@, to_crlf),
{
    let c = chars_of(content);
    if to_crlf {
        let mut out: Vec<char> = Vec::new();
        let mut i: usize = 0;
        assert(c@.take(0) =~= Seq::<char>::empty());
        while i < c.len()
            invariant
                i <= c.len(),
                c@ == content@,
                out@ == bare_lf_to_crlf(c@.take(i as int)),
            decreases c.len() - i,
        {
            let ghost t = c@.take(i + 1);
            assert(t.drop_last() =~= c@.take(i as int));
            assert(t.last() == c@[i as int]);
            if i >= 1 {
                assert(t[t.len() - 2] == c@[i - 1]);
            }
            if c[i] == '\n' && !(i >= 1 && c[i - 1] == '\r') {
                let ghost before = out@;
                out.push('\r');
                out.push('\n');
                assert(out@ =~= before + crlf());
            } else {
                out.push(c[i]);
            }
            i = i + 1;
        }
        assert(c@.take(c.len() as int) =~= c@);
        string_of(out.as_slice())
    } else {
        let a: Vec<char> = vec!['\n'];
        let b: Vec<char> = vec!['\r', '\n'];
        assert(a@ =~= lf());
        assert(b@ =~= crlf());
        let out = replace_all_exec(c.as_slice(), b.as_slice(), a.as_slice());
        string_of(out.as_slice())
    }
}

/// How many times `c` occurs in `s`.
pub open spec fn count_char(s: Seq<char>, c: char) -> nat
    decreases s.len(),
{
    if s.len() == 0 {
        0
    } else {
        count_char(s.drop_last(), c) + if s.last() == c { 1nat } else { 0nat }
    }
}

/// The number of lines of a text: a final line feed ends the last line
/// rather than starting a new one.
pub open spec fn line_count(s: Seq<char>) -> nat {
    count_char(s, '\n') + if s.len() > 0 && s.last() != '\n' { 1nat } else { 0nat }
}

/// Counts the lines of a text.
pub fn count_lines(s: &str) -> (r: usize)
    ensures
        r == line_count(s@),
{
    let c = chars_of(s);
    let mut n: usize = 0;
    let mut i: usize = 0;
    while i < c.len()
        invariant
            i <= c.len(),
            c@ == s@,
            n == count_char(c@.take(i as int), '\n'),
            n <= i,
            i > 0 && c@[i - 1] != '\n' ==> n < i,
        decreases c.len() - i,
    {
        assert(c@.take(i + 1).drop_last() =~= c@.take(i as int));
        if c[i] == '\n' {
            n = n + 1;
        }
        i = i + 1;
    }
    assert(c@.take(c.len() as int) =~= c@);
    if c.len() > 0 && c[c.len() - 1] != '\n' {
        n + 1
    } else {
        n
    }
}

} // verus!
