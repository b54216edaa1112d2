//! The edit tool: replaces exactly one occurrence of a search string.

use vstd::prelude::*;
use crate::file_rules::{
    check_freshness, convert_line_endings, detect_crlf, freshness, is_absolute, is_absolute_path,
    uses_crlf, with_line_endings, Staleness,
};
use crate::text::{
    chars_of, count_exec, count_from, decimal, decimal_exec, find_exec, find_seq, occurs_at, owned,
    replace_first, replace_first_exec, string_of, str_is,
};
use crate::tools::{stamp_of, ToolContext, ValidationResult};
use crate::lines::{join_lf, join_slice, lines_of, number_lines, numbered, split_lines, strings_view};
use crate::text::contains_seq;

verus! {

/// What the model asks the edit tool to do.
#[derive(Debug, Clone, PartialEq, Eq)]
pub struct FileEditInput {
    pub file_path: String,
    pub old_string: String,
    pub new_string: String,
}

/// What an edit reports.
#[derive(Debug, Clone, PartialEq, Eq)]
pub struct FileEditOutput {
    pub file_path: String,
    pub old_string: String,
    pub new_string: String,
    pub original_file: String,
    pub snippet: String,
    pub start_line: usize,
}

/// The edit tool.
#[derive(Debug, Clone, Copy)]
pub struct FileEditTool;

/// Why an edit is refused before it runs.
#[derive(Debug, Clone, PartialEq, Eq)]
pub enum EditRejection {
    NoChange,
    NotAbsolute,
    AlreadyExists,
    Missing,
    Notebook,
    Stale(Staleness),
    NotFound,
    Ambiguous { count: usize },
    Unreadable { reason: String },
}

/// The position of the last `c` in the first `n` characters of `s`, or -1.
pub open spec fn rfind(s: Seq<char>, c: char, n: int) -> int
    decreases n,
{
    if n <= 0 || n > s.len() {
        -1
    } else if s[n - 1] == c {
        n - 1
    } else {
        rfind(s, c, n - 1)
    }
}

/// Whether the file name's extension (after its last dot, where the dot is
/// not the name's first character) is `ipynb`.
pub open spec fn is_notebook_path(p: Seq<char>) -> bool {
    let name_start = rfind(p, '/', p.len() as int) + 1;
    let dot = rfind(p, '.', p.len() as int);
    dot > name_start && p.subrange(dot + 1, p.len() as int) == "ipynb"@
}

fn rfind_exec(s: &[char], c: char) -> (r: Option<usize>)
    ensures
        match r {
            Some(i) => rfind(s@, c, s@.len() as int) == i && i < s@.len(),
            None => rfind(s@, c, s@.len() as int) == -1,
        },
{
    let mut n: usize = s.len();
    while n > 0
        invariant
            n <= s.len(),
            rfind(s@, c, s@.len() as int) == rfind(s@, c, n as int),
        decreases n,
    {
        if s[n - 1] == c {
            return Some(n - 1);
        }
        n = n - 1;
    }
    None
}

/// Whether a path names a notebook.
pub fn is_notebook(p: &str) -> (r: bool)
    ensures
        r == is_notebook_path(p@),
{
    let c = chars_of(p);
    let name_start: usize = match rfind_exec(c.as_slice(), '/') {
        Some(i) => {
            assert(i < c.len());
            i + 1
        },
        None => 0,
    };
    match rfind_exec(c.as_slice(), '.') {
        Some(d) => {
            if d > name_start {
                assert(d < c.len());
                let ext = &c[d + 1..c.len()];
                assert(ext@ =~= c@.subrange(d + 1, c@.len() as int));
                str_is(ext, "ipynb")
            } else {
                false
            }
        },
        None => false,
    }
}

/// The check that runs before an edit. `exists`, `mtime` and `content` are
/// what the file system says of the target: whether it exists, its
/// modification time in milliseconds where known, and its text or the
/// reason it could not be read.
pub open spec fn edit_check(
    path: Seq<char>,
    old_s: Seq<char>,
    new_s: Seq<char>,
    exists: bool,
    stamp: Option<u64>,
    mtime: Option<u64>,
    content: Result<Seq<char>, Seq<char>>,
) -> Option<EditRejectionKind> {
    if old_s == new_s {
        Some(EditRejectionKind::NoChange)
    } else if !is_absolute_path(path) {
        Some(EditRejectionKind::NotAbsolute)
    } else if old_s.len() == 0 {
        if exists { Some(EditRejectionKind::AlreadyExists) } else { None }
    } else if !exists {
        Some(EditRejectionKind::Missing)
    } else if is_notebook_path(path) {
        Some(EditRejectionKind::Notebook)
    } else if freshness(stamp, mtime) is Some {
        Some(EditRejectionKind::Stale(freshness(stamp, mtime).unwrap()))
    } else {
        match content {
            Err(_) => Some(EditRejectionKind::Unreadable),
            Ok(c) => {
                let n = count_from(c, old_s, 0);
                if n == 0 {
                    Some(EditRejectionKind::NotFound)
                } else if n > 1 {
                    Some(EditRejectionKind::Ambiguous(n))
                } else {
                    None
                }
            },
        }
    }
}

/// The kind of an [`EditRejection`], without its text.
pub enum EditRejectionKind {
    NoChange,
    NotAbsolute,
    AlreadyExists,
    Missing,
    Notebook,
    Stale(Staleness),
    NotFound,
    Ambiguous(nat),
    Unreadable,
}

/// The text shown for a refused edit of `path`; `reason` is why the file
/// could not be read, where that is the refusal.
pub open spec fn edit_text(k: EditRejectionKind, path: Seq<char>, reason: Seq<char>) -> Seq<char> {
    match k {
        EditRejectionKind::NoChange => "No changes to make: old_string and new_string are exactly the same."@,
        EditRejectionKind::NotAbsolute => "file_path must be an absolute path, not relative"@,
        EditRejectionKind::AlreadyExists => "Cannot create new file - file already exists."@,
        EditRejectionKind::Missing => "File does not exist: "@ + path,
        EditRejectionKind::Notebook => "File is a Jupyter Notebook. Use the NotebookEdit tool to edit this file."@,
        EditRejectionKind::Stale(Staleness::NotReadYet) => "File has not been read yet. Read it first before writing to it."@,
        EditRejectionKind::Stale(Staleness::ModifiedSinceRead) => "File has been modified since read, either by the user or by a linter. Read it again before attempting to write it."@,
        EditRejectionKind::NotFound => "String to replace not found in file."@,
        EditRejectionKind::Ambiguous(n) => "Found "@ + decimal(n)
            + " matches of the string to replace. For safety, this tool only supports replacing exactly one occurrence at a time. Add more lines of context to your edit and try again."@,
        EditRejectionKind::Unreadable => "Failed to read file: "@ + reason,
    }
}

/// Why a file could not be read, as its read result says; empty where it
/// was read.
pub open spec fn read_failure(content: Result<Seq<char>, Seq<char>>) -> Seq<char> {
    match content {
        Err(e) => e,
        Ok(_) => Seq::empty(),
    }
}

impl EditRejection {
    pub open spec fn reason(&self) -> Seq<char> {
        match self {
            EditRejection::Unreadable { reason } => reason@,
            _ => Seq::empty(),
        }
    }

    pub open spec fn kind(&self) -> EditRejectionKind {
        match self {
            EditRejection::NoChange => EditRejectionKind::NoChange,
            EditRejection::NotAbsolute => EditRejectionKind::NotAbsolute,
            EditRejection::AlreadyExists => EditRejectionKind::AlreadyExists,
            EditRejection::Missing => EditRejectionKind::Missing,
            EditRejection::Notebook => EditRejectionKind::Notebook,
            EditRejection::Stale(s) => EditRejectionKind::Stale(*s),
            EditRejection::NotFound => EditRejectionKind::NotFound,
            EditRejection::Ambiguous { count } => EditRejectionKind::Ambiguous(*count as nat),
            EditRejection::Unreadable { .. } => EditRejectionKind::Unreadable,
        }
    }

    /// The text shown for the refusal.
    pub fn message(&self, path: &str) -> (r: String)
        ensures
            r@ == edit_text(self.kind(), path@, self.reason()),
    {
        match self {
            EditRejection::NoChange => owned("No changes to make: old_string and new_string are exactly the same."),
            EditRejection::NotAbsolute => owned("file_path must be an absolute path, not relative"),
            EditRejection::AlreadyExists => owned("Cannot create new file - file already exists."),
            EditRejection::Missing => {
                let mut m = owned("File does not exist: ");
                m.append(path);
                m
            },
            EditRejection::Notebook => owned("File is a Jupyter Notebook. Use the NotebookEdit tool to edit this file."),
            EditRejection::Stale(Staleness::NotReadYet) => owned("File has not been read yet. Read it first before writing to it."),
            EditRejection::Stale(Staleness::ModifiedSinceRead) => owned(
                "File has been modified since read, either by the user or by a linter. Read it again before attempting to write it.",
            ),
            EditRejection::NotFound => owned("String to replace not found in file."),
            EditRejection::Ambiguous { count } => {
                let mut m = owned("Found ");
                let n = decimal_exec(*count);
                m.append(n.as_str());
                m.append(
                    " matches of the string to replace. For safety, this tool only supports replacing exactly one occurrence at a time. Add more lines of context to your edit and try again.",
                );
                m
            },
            EditRejection::Unreadable { reason } => {
                let mut m = owned("Failed to read file: ");
                m.append(reason.as_str());
                m
            },
        }
    }
}

pub open spec fn content_view(c: &Result<String, String>) -> Result<Seq<char>, Seq<char>> {
    match c {
        Ok(s) => Ok(s@),
        Err(e) => Err(e@),
    }
}

/// Why applying an edit failed.
#[derive(Debug, Clone, Copy, PartialEq, Eq, Structural)]
pub enum ApplyFailure {
    NotFound,
    Unchanged,
}

/// The text an edit produces. An empty search string stands for the whole
/// new file. When the replacement is empty and the search string does not
/// end a line, the line feed after it goes too, where there is one.
pub open spec fn apply_edit_spec(original: Seq<char>, old_s: Seq<char>, new_s: Seq<char>) -> Result<Seq<char>, ApplyFailure> {
    if old_s.len() == 0 {
        Ok(new_s)
    } else if find_seq(original, old_s, 0) < 0 {
        Err(ApplyFailure::NotFound)
    } else {
        let with_lf = old_s.push('\n');
        let target = if new_s.len() == 0 && old_s.last() != '\n' && find_seq(original, with_lf, 0) >= 0 {
            with_lf
        } else {
            old_s
        };
        let updated = replace_first(original, target, new_s);
        if updated == original {
            Err(ApplyFailure::Unchanged)
        } else {
            Ok(updated)
        }
    }
}

/// The text an edit writes: the edit applied and put in the original's
/// line-ending convention; refused as unchanged when that equals the
/// original.
pub open spec fn edited_spec(original: Seq<char>, old_s: Seq<char>, new_s: Seq<char>) -> Result<Seq<char>, ApplyFailure> {
    match apply_edit_spec(original, old_s, new_s) {
        Err(f) => Err(f),
        Ok(u) => {
            let n = with_line_endings(u, original.len() > 0 && uses_crlf(original));
            if n == original { Err(ApplyFailure::Unchanged) } else { Ok(n) }
        },
    }
}

impl FileEditTool {
    /// Decides whether an edit may run.
    pub fn check_edit(
        input: &FileEditInput,
        exists: bool,
        mtime: Option<u64>,
        content: &Result<String, String>,
        ctx: &ToolContext,
    ) -> (r: Option<EditRejection>)
        ensures
            match r {
                None => edit_check(input.file_path@, input.old_string@, input.new_string@, exists,
                    stamp_of(ctx.read_file_timestamps@, input.file_path@), mtime, content_view(content)) is None,
                Some(e) => edit_check(input.file_path@, input.old_string@, input.new_string@, exists,
                    stamp_of(ctx.read_file_timestamps@, input.file_path@), mtime, content_view(content)) == Some(e.kind())
                    && (e is Unreadable ==> e.reason() == read_failure(content_view(content))),
            },
    {
        let old_c = chars_of(input.old_string.as_str());
        let new_c = chars_of(input.new_string.as_str());
        if crate::text::chars_eq(old_c.as_slice(), new_c.as_slice()) {
            return Some(EditRejection::NoChange);
        }
        if !is_absolute(input.file_path.as_str()) {
            return Some(EditRejection::NotAbsolute);
        }
        if old_c.len() == 0 {
            if exists {
                return Some(EditRejection::AlreadyExists);
            }
            return None;
        }
        if !exists {
            return Some(EditRejection::Missing);
        }
        if is_notebook(input.file_path.as_str()) {
            return Some(EditRejection::Notebook);
        }
        match check_freshness(ctx, input.file_path.as_str(), mtime) {
            Some(s) => {
                return Some(EditRejection::Stale(s));
            },
            None => {},
        }
        match content {
            Err(e) => Some(EditRejection::Unreadable { reason: e.clone() }),
            Ok(c) => {
                let cc = chars_of(c.as_str());
                let n = count_exec(cc.as_slice(), old_c.as_slice());
                if n == 0 {
                    Some(EditRejection::NotFound)
                } else if n > 1 {
                    Some(EditRejection::Ambiguous { count: n })
                } else {
                    None
                }
            },
        }
    }

    /// The validation verdict for an edit, with the refusal's text.
    pub fn validate_input(
        input: &FileEditInput,
        exists: bool,
        mtime: Option<u64>,
        content: &Result<String, String>,
        ctx: &ToolContext,
    ) -> (r: ValidationResult)
        ensures
            r.is_valid == (edit_check(input.file_path@, input.old_string@, input.new_string@, exists,
                stamp_of(ctx.read_file_timestamps@, input.file_path@), mtime, content_view(content)) is None),
            r.is_valid <==> r.message is None,
            match edit_check(input.file_path@, input.old_string@, input.new_string@, exists,
                stamp_of(ctx.read_file_timestamps@, input.file_path@), mtime, content_view(content)) {
                Some(k) => r.message matches Some(m) && m@ == edit_text(k, input.file_path@, read_failure(content_view(content))),
                None => r.message is None,
            },
    {
        match FileEditTool::check_edit(input, exists, mtime, content, ctx) {
            None => ValidationResult::ok(),
            Some(e) => ValidationResult::error(e.message(input.file_path.as_str())),
        }
    }

    /// Applies an edit to a file's text.
    pub fn apply_edit(original: &str, old_string: &str, new_string: &str) -> (r: Result<String, ApplyFailure>)
        ensures
            match apply_edit_spec(original@, old_string@, new_string@) {
                Ok(u) => r matches Ok(s) && s@ == u,
                Err(f) => r == Err::<String, ApplyFailure>(f),
            },
    {
        let o = chars_of(original);
        let p = chars_of(old_string);
        let n = chars_of(new_string);
        if p.len() == 0 {
            return Ok(owned(new_string));
        }
        if find_exec(o.as_slice(), p.as_slice(), 0).is_none() {
            return Err(ApplyFailure::NotFound);
        }
        let mut with_lf = crate::text::copy_chars(p.as_slice());
        with_lf.push('\n');
        let target = if n.len() == 0 && p[p.len() - 1] != '\n' && find_exec(o.as_slice(), with_lf.as_slice(), 0).is_some() {
            with_lf
        } else {
            p
        };
        let updated = replace_first_exec(o.as_slice(), target.as_slice(), n.as_slice());
        if crate::text::chars_eq(updated.as_slice(), o.as_slice()) {
            return Err(ApplyFailure::Unchanged);
        }
        Ok(string_of(updated.as_slice()))
    }

    /// The text to write: the edit applied, in the original's line-ending
    /// convention (line feeds for a new or empty file). An edit that the
    /// convention undoes, leaving the file as it was, is refused as
    /// unchanged.
    pub fn edited_content(original: &str, old_string: &str, new_string: &str) -> (r: Result<String, ApplyFailure>)
        ensures
            match edited_spec(original@, old_string@, new_string@) {
                Ok(t) => r matches Ok(s) && s@ == t,
                Err(f) => r == Err::<String, ApplyFailure>(f),
            },
    {
        match FileEditTool::apply_edit(original, old_string, new_string) {
            Err(f) => Err(f),
            Ok(u) => {
                let nonempty = chars_of(original).len() > 0;
                let to_crlf = nonempty && detect_crlf(original);
                let n = convert_line_endings(u.as_str(), to_crlf);
                let nc = chars_of(n.as_str());
                let oc = chars_of(original);
                if crate::text::chars_eq(nc.as_slice(), oc.as_slice()) {
                    Err(ApplyFailure::Unchanged)
                } else {
                    Ok(n)
                }
            },
        }
    }
}

/// Lines of context shown around an edit.
pub const N_LINES_SNIPPET: usize = 4;

/// The `k` lines from `i`, joined.
pub open spec fn window_text(ls: Seq<Seq<char>>, i: int, k: int) -> Seq<char> {
    join_lf(ls.subrange(i, i + k))
}

/// The first window of `k` lines, at or after `i`, whose text holds `p`;
/// 0 when none does.
pub open spec fn first_window(ls: Seq<Seq<char>>, p: Seq<char>, k: int, i: int) -> int
    decreases ls.len() + 1 - i,
{
    if i < 0 || i > ls.len() || i + k > ls.len() {
        0
    } else if contains_seq(window_text(ls, i, k), p) {
        i
    } else {
        first_window(ls, p, k, i + 1)
    }
}

pub open spec fn min_int(a: int, b: int) -> int {
    if a < b { a } else { b }
}

/// The snippet shown after an edit, with its first line number: a few
/// lines around the place of the edit, taken from the edited text (or the
/// original, where the edit does not apply); for a new file, its first
/// lines.
pub open spec fn snippet_spec(original: Seq<char>, old_s: Seq<char>, new_s: Seq<char>) -> (Seq<char>, int) {
    if old_s.len() == 0 {
        let nl = lines_of(new_s);
        (join_lf(nl.take(min_int(2 * N_LINES_SNIPPET, nl.len() as int))), 1)
    } else {
        let ol = lines_of(original);
        let k = lines_of(old_s).len() as int;
        let start = first_window(ol, old_s, k, 0);
        let cs = if start >= N_LINES_SNIPPET { start - N_LINES_SNIPPET } else { 0 };
        let ce = min_int(start + k + N_LINES_SNIPPET, ol.len() as int);
        let src = match apply_edit_spec(original, old_s, new_s) {
            Ok(u) => lines_of(u),
            Err(_) => ol,
        };
        let count = if ce >= cs { ce - cs } else { 0 };
        let a = min_int(cs, src.len() as int);
        let b = min_int(cs + count, src.len() as int);
        (join_lf(src.subrange(a, b)), cs + 1)
    }
}

fn first_window_exec(ls: &Vec<String>, p: &str, k: usize) -> (r: usize)
    ensures
        r == first_window(strings_view(ls@), p@, k as int, 0),
{
    let ghost sv = strings_view(ls@);
    let mut i: usize = 0;
    while k <= ls.len() && i <= ls.len() - k
        invariant
            sv == strings_view(ls@),
            first_window(sv, p@, k as int, 0) == first_window(sv, p@, k as int, i as int),
        decreases ls.len() + 1 - i,
    {
        let w = join_slice(&ls.as_slice()[i..i + k]);
        assert(strings_view(ls@.subrange(i as int, i + k)) =~= sv.subrange(i as int, i + k));
        if crate::text::str_contains(w.as_str(), p) {
            return i;
        }
        if i == ls.len() {
            assert(first_window(sv, p@, k as int, i + 1) == 0);
            return 0;
        }
        i = i + 1;
    }
    0
}

fn join_range(ls: &Vec<String>, a: usize, b: usize) -> (r: String)
    requires
        a <= b <= ls.len(),
    ensures
        r@ == join_lf(strings_view(ls@).subrange(a as int, b as int)),
{
    let r = join_slice(&ls.as_slice()[a..b]);
    assert(strings_view(ls@.subrange(a as int, b as int)) =~= strings_view(ls@).subrange(a as int, b as int));
    r
}

impl FileEditTool {
    /// The snippet shown after an edit, and the number of its first line.
    pub fn get_snippet(original: &str, old_string: &str, new_string: &str) -> (r: (String, usize))
        ensures
            r.0@ == snippet_spec(original@, old_string@, new_string@).0,
            r.1 == snippet_spec(original@, old_string@, new_string@).1,
    {
        if chars_of(old_string).len() == 0 {
            let nl = split_lines(new_string);
            let n = if nl.len() < 2 * N_LINES_SNIPPET { nl.len() } else { 2 * N_LINES_SNIPPET };
            let t = join_range(&nl, 0, n);
            assert(strings_view(nl@).subrange(0, n as int) =~= strings_view(nl@).take(n as int));
            return (t, 1);
        }
        let ol = split_lines(original);
        let k = split_lines(old_string).len();
        let start = first_window_exec(&ol, old_string, k);
        proof {
            lemma_first_window_bound(strings_view(ol@), old_string@, k as int, 0);
        }
        let cs: usize = if start >= N_LINES_SNIPPET { start - N_LINES_SNIPPET } else { 0 };
        let ce: usize = if k <= ol.len() && start <= ol.len() - k && N_LINES_SNIPPET <= ol.len() - k - start {
            start + k + N_LINES_SNIPPET
        } else {
            ol.len()
        };
        let count: usize = if ce >= cs { ce - cs } else { 0 };
        let src = match FileEditTool::apply_edit(original, old_string, new_string) {
            Ok(u) => split_lines(u.as_str()),
            Err(_) => ol,
        };
        let a: usize = if cs < src.len() { cs } else { src.len() };
        let b: usize = if count <= src.len() - a && cs == a { cs + count } else { src.len() };
        let t = join_range(&src, a, b);
        (t, cs + 1)
    }

    /// The short line shown for an edit; lengths are in bytes.
    pub fn render_result(output: &FileEditOutput) -> (r: String)
        ensures
            r@ == "Edited file "@ + output.file_path@ + " (replaced "@ + decimal(crate::text::utf8_len(output.old_string@))
                + " chars with "@ + decimal(crate::text::utf8_len(output.new_string@)) + " chars)"@,
    {
        let mut m = owned("Edited file ");
        m.append(output.file_path.as_str());
        m.append(" (replaced ");
        m.append(crate::text::decimal_wide(crate::text::utf8_byte_len(output.old_string.as_str())).as_str());
        m.append(" chars with ");
        m.append(crate::text::decimal_wide(crate::text::utf8_byte_len(output.new_string.as_str())).as_str());
        m.append(" chars)");
        m
    }

    /// The snippet numbered for display, in six columns.
    pub fn add_line_numbers(content: &str, start_line: usize) -> (r: String)
        ensures
            r@ == numbered(lines_of(content@), start_line as nat, 6),
    {
        number_lines(content, start_line, 6)
    }

    /// What the model is told after an edit.
    pub fn result_for_assistant(file_path: &str, snippet: &str, start_line: usize) -> (r: String)
        ensures
            r@ == "The file "@ + file_path@
                + " has been updated. Here's the result of running `cat -n` on a snippet of the edited file:\n"@
                + numbered(lines_of(snippet@), start_line as nat, 6),
    {
        let mut m = owned("The file ");
        m.append(file_path);
        m.append(" has been updated. Here's the result of running `cat -n` on a snippet of the edited file:\n");
        m.append(FileEditTool::add_line_numbers(snippet, start_line).as_str());
        m
    }
}

proof fn lemma_first_window_bound(ls: Seq<Seq<char>>, p: Seq<char>, k: int, i: int)
    requires
        i >= 0,
        k >= 0,
    ensures
        first_window(ls, p, k, i) == 0 || (i <= first_window(ls, p, k, i) && first_window(ls, p, k, i) + k <= ls.len()),
    decreases ls.len() + 1 - i,
{
    if !(i > ls.len() || i + k > ls.len()) && !contains_seq(window_text(ls, i, k), p) {
        lemma_first_window_bound(ls, p, k, i + 1);
    }
}

proof fn lemma_count_positive_found(s: Seq<char>, p: Seq<char>, i: int)
    requires
        count_from(s, p, i) > 0,
        i >= 0,
    ensures
        find_seq(s, p, i) >= 0,
    decreases s.len() - i,
{
    if !occurs_at(s, p, i) {
        lemma_count_positive_found(s, p, i + 1);
    }
}

proof fn lemma_find_occurs(s: Seq<char>, p: Seq<char>, i: int)
    requires
        i >= 0,
    ensures
        find_seq(s, p, i) >= 0 ==> occurs_at(s, p, find_seq(s, p, i)),
    decreases s.len() + 1 - i,
{
    if !(i + p.len() > s.len()) && !occurs_at(s, p, i) {
        lemma_find_occurs(s, p, i + 1);
    }
}

/// Edits are unique: a search string that occurs twice is refused, with the
/// count of two; one that occurs exactly once passes the check, and the
/// edited text differs from the original.
pub proof fn lemma_edit_uniqueness(
    path: Seq<char>,
    old_s: Seq<char>,
    new_s: Seq<char>,
    stamp: u64,
    mtime: u64,
    content: Seq<char>,
)
    requires
        is_absolute_path(path),
        !is_notebook_path(path),
        old_s.len() > 0,
        old_s != new_s,
        mtime <= stamp,
    ensures
        count_from(content, old_s, 0) == 2 ==> edit_check(path, old_s, new_s, true, Some(stamp), Some(mtime), Ok(content))
            == Some(EditRejectionKind::Ambiguous(2)),
        count_from(content, old_s, 0) == 1 ==> edit_check(path, old_s, new_s, true, Some(stamp), Some(mtime), Ok(content)) is None,
        count_from(content, old_s, 0) == 1 ==> (apply_edit_spec(content, old_s, new_s) matches Ok(u) && u != content),
        edited_spec(content, old_s, new_s) matches Ok(n) ==> n != content,
{
    if count_from(content, old_s, 0) == 1 {
        lemma_count_positive_found(content, old_s, 0);
        let with_lf = old_s.push('\n');
        let target = if new_s.len() == 0 && old_s.last() != '\n' && find_seq(content, with_lf, 0) >= 0 {
            with_lf
        } else {
            old_s
        };
        lemma_find_occurs(content, target, 0);
        lemma_find_occurs(content, old_s, 0);
        let i = find_seq(content, target, 0);
        let u = replace_first(content, target, new_s);
        if u == content {
            if new_s.len() == 0 {
                assert(u.len() < content.len());
            } else {
                assert(target == old_s);
                if new_s.len() != old_s.len() {
                    assert(u.len() != content.len());
                } else {
                    assert(u.subrange(i, i + new_s.len()) =~= new_s);
                    assert(content.subrange(i, i + old_s.len()) == old_s);
                }
            }
        }
    }
}

} // verus!
