//! The search tools: selection and ordering of the files they report.
//!
//! Walking the tree and running the content search happen outside; the
//! library decides which files match a name pattern and in what order
//! results come.

use vstd::prelude::*;
use crate::text::{chars_of, decimal, decimal_exec, owned};
use crate::tools::ValidationResult;
use crate::file_rules::{is_absolute, is_absolute_path};
use crate::lines::{join_lf, join_slice, strings_view};

verus! {

broadcast use vstd::seq_lib::to_multiset_insert;

/// The most files a search reports.
pub const MAX_RESULTS: usize = 100;

/// Wildcard matching of a whole text: `*` matches any run of characters,
/// `?` any one character, every other character itself.
pub open spec fn wild_match(p: Seq<char>, s: Seq<char>) -> bool
    decreases p.len() + s.len(),
{
    if p.len() == 0 {
        s.len() == 0
    } else if p[0] == '*' {
        wild_match(p.drop_first(), s) || (s.len() > 0 && wild_match(p, s.drop_first()))
    } else if s.len() == 0 {
        false
    } else if p[0] == '?' || p[0] == s[0] {
        wild_match(p.drop_first(), s.drop_first())
    } else {
        false
    }
}

/// Relies on `wildmatch::WildMatch::new(pattern).matches(text)`: `*` and
/// `?` wildcards, every other character literal, matched against the whole
/// text.
#[verifier::external_body]
fn wildcard_matches(pattern: &str, text: &str) -> (r: bool)
    ensures
        r == wild_match(pattern@, text@),
{
    wildmatch::WildMatch::new(pattern).matches(text)
}

/// A file met while walking the tree.
#[derive(Debug, Clone, PartialEq, Eq)]
pub struct FileEntry {
    /// The full path.
    pub path: String,
    /// The path relative to the searched directory.
    pub relative_path: String,
    /// Modification time, in milliseconds since the epoch.
    pub mtime: u64,
}

pub open spec fn entry_selected(pattern: Seq<char>, e: FileEntry) -> bool {
    wild_match(pattern, e.relative_path@) || wild_match(pattern, e.path@)
}

/// Oldest first.
pub open spec fn sorted_by_age(s: Seq<(String, u64)>) -> bool {
    forall|i: int, j: int| 0 <= i < j < s.len() ==> s[i].1 <= s[j].1
}

pub open spec fn paths_of(s: Seq<(String, u64)>) -> Seq<Seq<char>> {
    s.map_values(|e: (String, u64)| e.0@)
}

/// The files whose relative or full path matches the pattern, with their
/// modification times, in walk order.
pub open spec fn glob_matches(pattern: Seq<char>, entries: Seq<FileEntry>) -> Seq<(String, u64)> {
    entries.filter(|e: FileEntry| entry_selected(pattern, e)).map_values(|e: FileEntry| (e.path, e.mtime))
}

/// Search input of the file-name search.
#[derive(Debug, Clone, PartialEq, Eq)]
pub struct GlobInput {
    pub pattern: String,
    pub path: Option<String>,
}

/// What the file-name search reports.
#[derive(Debug, Clone, PartialEq, Eq)]
pub struct GlobOutput {
    pub duration_ms: u64,
    pub num_files: usize,
    pub filenames: Vec<String>,
    pub truncated: bool,
}

/// The file-name search.
#[derive(Debug, Clone, Copy)]
pub struct GlobTool;

/// Where an item with time `k` goes in `t` (searching its first `n`
/// entries from the end): after every entry that is not newer.
pub open spec fn age_slot(t: Seq<(String, u64)>, k: u64, n: int) -> int
    decreases n,
{
    if n <= 0 || n > t.len() {
        0
    } else if t[n - 1].1 > k {
        age_slot(t, k, n - 1)
    } else {
        n
    }
}

/// The stable sort by age: items inserted one by one, each after all that
/// are not newer, so that equal times keep their walk order.
pub open spec fn stable_by_age(s: Seq<(String, u64)>) -> Seq<(String, u64)>
    decreases s.len(),
{
    if s.len() == 0 {
        Seq::empty()
    } else {
        let t = stable_by_age(s.drop_last());
        t.insert(age_slot(t, s.last().1, t.len() as int), s.last())
    }
}

/// Sorts files oldest first, keeping the walk order among equal times.
pub fn order_oldest_first(v: Vec<(String, u64)>) -> (r: Vec<(String, u64)>)
    ensures
        r@ == stable_by_age(v@),
        sorted_by_age(r@),
        r@.to_multiset() == v@.to_multiset(),
{
    let mut r: Vec<(String, u64)> = Vec::new();
    let mut i: usize = 0;
    let mut v = v;
    let ghost orig = v@;
    assert(r@ =~= orig.take(0));
    while i < v.len()
        invariant
            i <= v.len(),
            v@ == orig,
            sorted_by_age(r@),
            r@.to_multiset() == orig.take(i as int).to_multiset(),
            r@ == stable_by_age(orig.take(i as int)),
        decreases v.len() - i,
    {
        let key = v[i].1;
        let mut p: usize = r.len();
        while p > 0 && r[p - 1].1 > key
            invariant
                p <= r.len(),
                forall|j: int| p <= j < r.len() ==> r@[j].1 > key,
                age_slot(r@, key, r@.len() as int) == age_slot(r@, key, p as int),
            decreases p,
        {
            p = p - 1;
        }
        let item = (v[i].0.clone(), key);
        let ghost before = r@;
        r.insert(p, item);
        proof {
            assert(orig.take(i + 1) =~= orig.take(i as int).push(orig[i as int]));
            assert(orig.take(i + 1).drop_last() =~= orig.take(i as int));
            vstd::seq_lib::to_multiset_build(orig.take(i as int), orig[i as int]);
            assert(item == orig[i as int]) by {
                assert(v@[i as int].0 == item.0);
            }
            assert forall|a: int, b: int| 0 <= a < b < r@.len() implies r@[a].1 <= r@[b].1 by {
                if b < p {
                } else if b == p {
                    if p > 0 && a < p {
                        assert(before[p - 1].1 <= key);
                        if a < p - 1 {
                            assert(before[a].1 <= before[p - 1].1);
                        }
                    }
                } else if a < p {
                    assert(before[b - 1].1 > key);
                    if p > 0 {
                        assert(before[p - 1].1 <= key);
                    }
                    assert(before[a].1 <= before[b - 1].1);
                } else if a == p {
                } else {
                    assert(before[a - 1].1 <= before[b - 1].1);
                }
            }
        }
        i = i + 1;
    }
    assert(orig.take(v.len() as int) =~= orig);
    r
}


impl GlobTool {
    pub fn new() -> (r: Self) {
        GlobTool
    }

    /// The entries whose relative or full path matches the pattern, in walk
    /// order.
    pub fn matching_entries(pattern: &str, entries: &Vec<FileEntry>) -> (r: Vec<(String, u64)>)
        ensures
            r@ == glob_matches(pattern@, entries@),
    {
        let mut r: Vec<(String, u64)> = Vec::new();
        let mut i: usize = 0;
        while i < entries.len()
            invariant
                i <= entries.len(),
                r@ == glob_matches(pattern@, entries@.take(i as int)),
            decreases entries.len() - i,
        {
            let e = &entries[i];
            let ghost before = r@;
            let ghost pre = entries@.take(i as int);
            assert(entries@.take(i + 1).drop_last() =~= pre);
            assert(entries@.take(i + 1).last() == *e);
            reveal(Seq::filter);
            let keep = wildcard_matches(pattern, e.relative_path.as_str()) || wildcard_matches(pattern, e.path.as_str());
            if keep {
                r.push((e.path.clone(), e.mtime));
                assert(r@ =~= glob_matches(pattern@, entries@.take(i + 1)));
            } else {
                assert(r@ =~= glob_matches(pattern@, entries@.take(i + 1)));
            }
            i = i + 1;
        }
        assert(entries@.take(entries.len() as int) =~= entries@);
        r
    }

    /// The first `limit` paths, and whether any were left out.
    pub fn limit_results(sorted: Vec<(String, u64)>, limit: usize) -> (r: (Vec<String>, bool))
        ensures
            r.1 == (sorted@.len() > limit),
            r.0@.map_values(|s: String| s@) == paths_of(sorted@.take(if sorted@.len() > limit { limit as int } else { sorted@.len() as int })),
    {
        let n: usize = if sorted.len() > limit { limit } else { sorted.len() };
        let mut r: Vec<String> = Vec::new();
        let mut i: usize = 0;
        while i < n
            invariant
                i <= n,
                n <= sorted.len(),
                r@.map_values(|s: String| s@) == paths_of(sorted@.take(i as int)),
            decreases n - i,
        {
            let ghost before = r@;
            r.push(sorted[i].0.clone());
            assert(r@.map_values(|s: String| s@) =~= before.map_values(|s: String| s@).push(sorted@[i as int].0@));
            assert(paths_of(sorted@.take(i + 1)) =~= paths_of(sorted@.take(i as int)).push(sorted@[i as int].0@));
            i = i + 1;
        }
        (r, sorted.len() > limit)
    }

    /// The file-name search over the walked entries: the matching files,
    /// oldest first (equal times in walk order), at most `limit` of them,
    /// and whether any were left out.
    pub fn glob_search(pattern: &str, entries: &Vec<FileEntry>, limit: usize) -> (r: (Vec<String>, bool))
        ensures
            ({
                let s = stable_by_age(glob_matches(pattern@, entries@));
                &&& r.1 == (glob_matches(pattern@, entries@).len() > limit)
                &&& r.0@.map_values(|x: String| x@) == paths_of(s.take(if s.len() > limit { limit as int } else { s.len() as int }))
                &&& sorted_by_age(s)
            }),
    {
        let m = GlobTool::matching_entries(pattern, entries);
        let ghost mm = m@;
        let sorted = order_oldest_first(m);
        proof {
            vstd::seq_lib::to_multiset_len(sorted@);
            vstd::seq_lib::to_multiset_len(mm);
        }
        GlobTool::limit_results(sorted, limit)
    }
}

/// `a` comes before `b` in character order.
pub open spec fn lex_lt(a: Seq<char>, b: Seq<char>) -> bool
    decreases a.len(),
{
    if a.len() == 0 {
        b.len() > 0
    } else if b.len() == 0 {
        false
    } else if a[0] < b[0] {
        true
    } else if a[0] == b[0] {
        lex_lt(a.drop_first(), b.drop_first())
    } else {
        false
    }
}

proof fn lemma_lex_lt_asym(a: Seq<char>, b: Seq<char>)
    ensures
        !(lex_lt(a, b) && lex_lt(b, a)),
    decreases a.len(),
{
    if a.len() > 0 && b.len() > 0 && a[0] == b[0] {
        lemma_lex_lt_asym(a.drop_first(), b.drop_first());
    }
}

proof fn lemma_lex_lt_trans(a: Seq<char>, b: Seq<char>, c: Seq<char>)
    requires
        lex_lt(a, b),
        lex_lt(b, c),
    ensures
        lex_lt(a, c),
    decreases a.len(),
{
    if a.len() > 0 && b.len() > 0 && c.len() > 0 && a[0] == b[0] && b[0] == c[0] {
        lemma_lex_lt_trans(a.drop_first(), b.drop_first(), c.drop_first());
    }
}

proof fn lemma_lex_total(a: Seq<char>, b: Seq<char>)
    ensures
        lex_lt(a, b) || lex_lt(b, a) || a == b,
    decreases a.len(),
{
    if a.len() > 0 && b.len() > 0 && a[0] == b[0] {
        lemma_lex_total(a.drop_first(), b.drop_first());
        if a.drop_first() == b.drop_first() {
            assert(a =~= seq![a[0]] + a.drop_first());
            assert(b =~= seq![b[0]] + b.drop_first());
        }
    } else if a.len() == 0 && b.len() == 0 {
        assert(a =~= b);
    }
}

/// Whether `a` comes before `b` in character order.
pub fn lex_less(a: &str, b: &str) -> (r: bool)
    ensures
        r == lex_lt(a@, b@),
{
    let x = chars_of(a);
    let y = chars_of(b);
    let mut i: usize = 0;
    assert(x@.subrange(0, x@.len() as int) =~= x@);
    assert(y@.subrange(0, y@.len() as int) =~= y@);
    while i < x.len() && i < y.len() && x[i] == y[i]
        invariant
            i <= x.len(),
            i <= y.len(),
            lex_lt(x@, y@) == lex_lt(x@.subrange(i as int, x@.len() as int), y@.subrange(i as int, y@.len() as int)),
        decreases x.len() - i,
    {
        assert(x@.subrange(i as int, x@.len() as int).drop_first() =~= x@.subrange(i + 1, x@.len() as int));
        assert(y@.subrange(i as int, y@.len() as int).drop_first() =~= y@.subrange(i + 1, y@.len() as int));
        i = i + 1;
    }
    proof {
        assert(x@.subrange(0, x@.len() as int) =~= x@);
        assert(y@.subrange(0, y@.len() as int) =~= y@);
    }
    if i == x.len() {
        i < y.len()
    } else if i == y.len() {
        false
    } else {
        x[i] < y[i]
    }
}

/// `a` is reported before `b`: newer first, then by name.
pub open spec fn newer_first(a: (String, u64), b: (String, u64)) -> bool {
    a.1 > b.1 || (a.1 == b.1 && lex_lt(a.0@, b.0@))
}

pub open spec fn sorted_newest_first(s: Seq<(String, u64)>) -> bool {
    forall|i: int, j: int| 0 <= i < j < s.len() ==> !newer_first(#[trigger] s[j], #[trigger] s[i])
}

/// Search input of the content search.
#[derive(Debug, Clone, PartialEq, Eq)]
pub struct GrepInput {
    pub pattern: String,
    pub path: Option<String>,
    pub glob: Option<String>,
}

/// What the content search reports.
#[derive(Debug, Clone, PartialEq, Eq)]
pub struct GrepOutput {
    pub duration_ms: u64,
    pub num_files: usize,
    pub filenames: Vec<String>,
    /// Whether more files matched than are reported.
    pub truncated: bool,
}

/// The content search.
#[derive(Debug, Clone, Copy)]
pub struct GrepTool;

impl GrepTool {
    pub fn new() -> (r: Self) {
        GrepTool
    }

    /// The output of a content search over the matching files with their
    /// modification times: newest first (equal times by name), at most
    /// `MAX_RESULTS` of them, and whether any were left out.
    pub fn collect_results(files: Vec<(String, u64)>, duration_ms: u64) -> (r: GrepOutput)
        ensures
            r.duration_ms == duration_ms,
            r.truncated == (files@.len() > MAX_RESULTS),
            r.num_files == r.filenames@.len(),
            r.num_files == if files@.len() > MAX_RESULTS { MAX_RESULTS as int } else { files@.len() as int },
            exists|s: Seq<(String, u64)>| #[trigger] sorted_newest_first(s) && s.to_multiset() == files@.to_multiset()
                && r.filenames@.map_values(|x: String| x@) == paths_of(s.take(r.num_files as int)),
    {
        let ghost f = files@;
        let sorted = GrepTool::sort_by_mtime(files);
        proof {
            vstd::seq_lib::to_multiset_len(sorted@);
            vstd::seq_lib::to_multiset_len(f);
        }
        let ghost s = sorted@;
        let (filenames, truncated) = GlobTool::limit_results(sorted, MAX_RESULTS);
        proof {
            assert(filenames@.map_values(|x: String| x@).len() == filenames@.len());
        }
        let n = filenames.len();
        assert(sorted_newest_first(s) && s.to_multiset() == f.to_multiset()
            && filenames@.map_values(|x: String| x@) == paths_of(s.take(n as int)));
        GrepOutput { duration_ms, num_files: n, filenames, truncated }
    }

    /// Orders matching files newest first, equal times by name.
    pub fn sort_by_mtime(v: Vec<(String, u64)>) -> (r: Vec<(String, u64)>)
        ensures
            sorted_newest_first(r@),
            r@.to_multiset() == v@.to_multiset(),
    {
        let mut r: Vec<(String, u64)> = Vec::new();
        let mut i: usize = 0;
        let v = v;
        let ghost orig = v@;
        assert(r@ =~= orig.take(0));
        while i < v.len()
            invariant
                i <= v.len(),
                v@ == orig,
                sorted_newest_first(r@),
                r@.to_multiset() == orig.take(i as int).to_multiset(),
            decreases v.len() - i,
        {
            let item = (v[i].0.clone(), v[i].1);
            assert(item == orig[i as int]);
            let mut p: usize = r.len();
            while p > 0 && (item.1 > r[p - 1].1 || (item.1 == r[p - 1].1 && lex_less(item.0.as_str(), r[p - 1].0.as_str())))
                invariant
                    p <= r.len(),
                    forall|j: int| p <= j < r.len() ==> newer_first(item, #[trigger] r@[j]),
                decreases p,
            {
                p = p - 1;
            }
            let ghost before = r@;
            r.insert(p, item);
            proof {
                assert(orig.take(i + 1) =~= orig.take(i as int).push(orig[i as int]));
                vstd::seq_lib::to_multiset_build(orig.take(i as int), orig[i as int]);
                assert forall|a: int, b: int| 0 <= a < b < r@.len() implies !newer_first(#[trigger] r@[b], #[trigger] r@[a]) by {
                    if b < p {
                        assert(!newer_first(before[b], before[a]));
                    } else if b == p {
                        // item is not newer than before[p - 1], nor than anything before it
                        assert(!newer_first(item, before[p - 1]));
                        if a < p - 1 {
                            assert(!newer_first(before[p - 1], before[a]));
                            lemma_lex_total(before[p - 1].0@, before[a].0@);
                            if newer_first(item, before[a]) {
                                lemma_lex_total(item.0@, before[p - 1].0@);
                                if item.1 == before[a].1 && before[a].1 == before[p - 1].1 {
                                    if lex_lt(before[a].0@, before[p - 1].0@) {
                                        lemma_lex_lt_trans(item.0@, before[a].0@, before[p - 1].0@);
                                    }
                                }
                            }
                        }
                    } else if a < p {
                        assert(newer_first(item, before[b - 1]));
                        if p > 0 {
                            assert(!newer_first(item, before[p - 1]));
                        }
                        if newer_first(before[b - 1], before[a]) {
                            if a == p - 1 {
                                lemma_lex_total(item.0@, before[a].0@);
                                if item.1 == before[a].1 && before[b - 1].1 == item.1 {
                                    lemma_lex_lt_trans(before[b - 1].0@, item.0@, before[a].0@);
                                    lemma_lex_lt_asym(before[b - 1].0@, item.0@);
                                } else if item.1 == before[a].1 && item.0@ == before[a].0@ {
                                    lemma_lex_lt_asym(before[b - 1].0@, item.0@);
                                }
                            } else {
                                assert(!newer_first(before[p - 1], before[a]));
                                if item.1 == before[b - 1].1 && before[b - 1].1 == before[a].1 {
                                    lemma_lex_lt_trans(item.0@, before[b - 1].0@, before[a].0@);
                                    lemma_lex_total(item.0@, before[p - 1].0@);
                                    lemma_lex_total(before[p - 1].0@, before[a].0@);
                                    if lex_lt(before[a].0@, before[p - 1].0@) {
                                        lemma_lex_lt_trans(item.0@, before[a].0@, before[p - 1].0@);
                                    }
                                    if lex_lt(before[p - 1].0@, item.0@) && before[p - 1].1 == item.1 {
                                        lemma_lex_lt_trans(before[p - 1].0@, item.0@, before[a].0@);
                                        lemma_lex_lt_asym(before[p - 1].0@, before[a].0@);
                                    }
                                } else {
                                    lemma_lex_total(item.0@, before[p - 1].0@);
                                    lemma_lex_total(before[p - 1].0@, before[a].0@);
                                }
                            }
                        }
                    } else if a == p {
                        assert(newer_first(item, before[b - 1]));
                        if newer_first(before[b - 1], item) {
                            lemma_lex_lt_asym(item.0@, before[b - 1].0@);
                        }
                    } else {
                        assert(!newer_first(before[b - 1], before[a - 1]));
                    }
                }
            }
            i = i + 1;
        }
        assert(orig.take(v.len() as int) =~= orig);
        r
    }
}


/// The note that follows a cut list of files.
pub open spec fn truncation_note() -> Seq<char> {
    "\n(Results are truncated. Consider using a more specific path or pattern.)"@
}

pub open spec fn min_nat(a: nat, b: nat) -> nat {
    if a < b { a } else { b }
}

/// What the content search shows: the count, then at most `MAX_RESULTS`
/// names, then a note where some were left out (the flag says so, or the
/// count exceeds what is shown).
pub open spec fn grep_report(o: GrepOutput) -> Seq<char> {
    let n = o.num_files as nat;
    if n == 0 {
        "No files found"@
    } else {
        let k = min_nat(min_nat(n, MAX_RESULTS as nat), o.filenames@.len());
        "Found "@ + decimal(n) + " file"@ + (if n == 1 { Seq::empty() } else { "s"@ }) + "\n"@
            + join_lf(strings_view(o.filenames@).take(k as int)) + (if n > MAX_RESULTS || o.truncated { truncation_note() } else { Seq::empty() })
    }
}

/// What the file-name search shows: the names, then a note where some were
/// left out.
pub open spec fn glob_report(o: GlobOutput) -> Seq<char> {
    if o.num_files == 0 {
        "No files found"@
    } else {
        join_lf(strings_view(o.filenames@)) + (if o.truncated { truncation_note() } else { Seq::empty() })
    }
}

impl GrepTool {
    /// The text shown for a content search.
    pub fn render_result(output: &GrepOutput) -> (r: String)
        ensures
            r@ == grep_report(*output),
    {
        let n = output.num_files;
        if n == 0 {
            return owned("No files found");
        }
        let mut r = owned("Found ");
        r.append(decimal_exec(n).as_str());
        r.append(" file");
        if n != 1 {
            r.append("s");
        }
        r.append("\n");
        let k1 = if n < MAX_RESULTS { n } else { MAX_RESULTS };
        let k = if k1 < output.filenames.len() { k1 } else { output.filenames.len() };
        let shown = join_slice(&output.filenames.as_slice()[0..k]);
        assert(strings_view(output.filenames@.subrange(0, k as int)) =~= strings_view(output.filenames@).take(k as int));
        r.append(shown.as_str());
        if n > MAX_RESULTS || output.truncated {
            r.append("\n(Results are truncated. Consider using a more specific path or pattern.)");
        }
        assert(r@ =~= grep_report(*output));
        r
    }
}

impl GlobTool {
    /// The text shown for a file-name search.
    pub fn render_result(output: &GlobOutput) -> (r: String)
        ensures
            r@ == glob_report(*output),
    {
        if output.num_files == 0 {
            return owned("No files found");
        }
        let mut r = join_slice(output.filenames.as_slice());
        if output.truncated {
            r.append("\n(Results are truncated. Consider using a more specific path or pattern.)");
        }
        assert(r@ =~= glob_report(*output));
        r
    }
}


/// `p` resolved against `base`: an absolute `p` stands as it is, a relative
/// one is appended to `base` with one separating slash.
pub open spec fn joined_path(base: Seq<char>, p: Seq<char>) -> Seq<char> {
    if is_absolute_path(p) {
        p
    } else if base.len() > 0 && base.last() == '/' {
        base + p
    } else {
        base + seq!['/'] + p
    }
}

/// The directory a search runs in: the given path resolved against the
/// working directory, or the working directory itself.
pub open spec fn search_root_spec(path: Option<String>, cwd: Seq<char>) -> Seq<char> {
    match path {
        Some(p) => joined_path(cwd, p@),
        None => cwd,
    }
}

/// The directory a search runs in.
pub fn search_root(path: &Option<String>, cwd: &str) -> (r: String)
    ensures
        r@ == search_root_spec(*path, cwd@),
{
    match path {
        None => owned(cwd),
        Some(p) => {
            if is_absolute(p.as_str()) {
                p.clone()
            } else {
                let c = chars_of(cwd);
                let mut r = owned(cwd);
                if !(c.len() > 0 && c[c.len() - 1] == '/') {
                    crate::text::push_char(&mut r, '/');
                }
                r.append(p.as_str());
                r
            }
        },
    }
}

impl GlobTool {
    /// The validation verdict for a file-name search: its directory must
    /// exist and be a directory.
    pub fn validate_input(input: &GlobInput, cwd: &str, exists: bool, is_dir: bool) -> (r: ValidationResult)
        ensures
            r.is_valid == (exists && is_dir),
            !exists ==> (r.message matches Some(m) && m@ == "Path does not exist: "@ + search_root_spec(input.path, cwd@)),
            exists && !is_dir ==> (r.message matches Some(m) && m@ == "Path is not a directory: "@ + search_root_spec(
                input.path,
                cwd@,
            )),
    {
        let root = search_root(&input.path, cwd);
        if !exists {
            let mut m = owned("Path does not exist: ");
            m.append(root.as_str());
            return ValidationResult::error(m);
        }
        if !is_dir {
            let mut m = owned("Path is not a directory: ");
            m.append(root.as_str());
            return ValidationResult::error(m);
        }
        ValidationResult::ok()
    }
}

impl GrepTool {
    /// The validation verdict for a content search: its directory must
    /// exist.
    pub fn validate_input(input: &GrepInput, cwd: &str, exists: bool) -> (r: ValidationResult)
        ensures
            r.is_valid == exists,
            !exists ==> (r.message matches Some(m) && m@ == "Path does not exist: "@ + search_root_spec(input.path, cwd@)),
    {
        if !exists {
            let root = search_root(&input.path, cwd);
            let mut m = owned("Path does not exist: ");
            m.append(root.as_str());
            return ValidationResult::error(m);
        }
        ValidationResult::ok()
    }
}

} // verus!
