//! The read tool: which files are images, which lines are returned, and
//! how they are numbered.

use vstd::prelude::*;
use base64::Engine;
use crate::file_edit::rfind;
use crate::lines::{lines_of, number_lines, numbered, split_lines, strings_view};
use crate::text::{chars_of, decimal_exec, lower_of, lowercase, owned, str_is, string_of};
use crate::tools::ValidationResult;

verus! {

/// The most lines returned when no limit is given.
pub const MAX_LINES_TO_READ: usize = 2000;

/// The most characters of one line that are returned.
pub const MAX_LINE_LENGTH: usize = 2000;

/// The largest text returned without an offset or limit, in bytes.
pub const MAX_OUTPUT_SIZE: usize = 262144;

/// What the model asks to read; `offset` is the first line, from 1.
#[derive(Debug, Clone, PartialEq, Eq)]
pub struct FileReadInput {
    pub file_path: String,
    pub offset: Option<usize>,
    pub limit: Option<usize>,
}

/// Lines of a text file.
#[derive(Debug, Clone, PartialEq, Eq)]
pub struct TextFileContent {
    pub file_path: String,
    pub content: String,
    pub num_lines: usize,
    pub start_line: usize,
    pub total_lines: usize,
}

/// An image, encoded.
#[derive(Debug, Clone, PartialEq, Eq)]
pub struct ImageFileContent {
    pub base64: String,
    pub media_type: String,
}

/// What a read returns.
#[derive(Debug, Clone, PartialEq, Eq)]
pub enum FileReadOutput {
    Text { file: TextFileContent },
    Image { file: ImageFileContent },
}

/// The read tool.
#[derive(Debug, Clone, Copy)]
pub struct FileReadTool;

/// The extension of the path's file name: what follows its last dot,
/// where that dot is not the name's first character.
pub open spec fn extension_of(p: Seq<char>) -> Option<Seq<char>> {
    let name_start = rfind(p, '/', p.len() as int) + 1;
    let dot = rfind(p, '.', p.len() as int);
    if dot > name_start { Some(p.subrange(dot + 1, p.len() as int)) } else { None }
}

pub open spec fn is_image_extension(e: Seq<char>) -> bool {
    e == "png"@ || e == "jpg"@ || e == "jpeg"@ || e == "gif"@ || e == "bmp"@ || e == "webp"@
}

/// A file is an image when its extension, in any case, is an image type.
pub open spec fn is_image_path(p: Seq<char>) -> bool {
    extension_of(p) matches Some(e) && is_image_extension(lower_of(e))
}

/// The media type given for an image, by its extension as written.
pub open spec fn media_type_of(p: Seq<char>) -> Seq<char> {
    match extension_of(p) {
        Some(e) => if e == "jpg"@ || e == "jpeg"@ {
            "image/jpeg"@
        } else if e == "gif"@ {
            "image/gif"@
        } else if e == "bmp"@ {
            "image/bmp"@
        } else if e == "webp"@ {
            "image/webp"@
        } else {
            "image/png"@
        },
        None => "image/png"@,
    }
}

/// The standard base64 text of some bytes.
pub uninterp spec fn base64_of(b: Seq<u8>) -> Seq<char>;

/// Relies on `base64::engine::general_purpose::STANDARD.encode`: the text
/// depends on the bytes alone.
#[verifier::external_body]
fn encode_base64(b: &[u8]) -> (r: String)
    ensures
        r@ == base64_of(b@),
{
    base64::engine::general_purpose::STANDARD.encode(b)
}

fn rfind_char(s: &[char], c: char) -> (r: Option<usize>)
    ensures
        match r {
            Some(i) => rfind(s@, c, s@.len() as int) == i && i < s@.len(),
            None => rfind(s@, c, s@.len() as int) == -1,
        },
{
    let mut n: usize = s.len();
    while n > 0
        invariant
            n <= s.len(),
            rfind(s@, c, s@.len() as int) == rfind(s@, c, n as int),
        decreases n,
    {
        if s[n - 1] == c {
            return Some(n - 1);
        }
        n = n - 1;
    }
    None
}

/// The extension of a path's file name.
pub fn extension(p: &str) -> (r: Option<String>)
    ensures
        match r {
            Some(e) => extension_of(p@) == Some(e@),
            None => extension_of(p@) is None,
        },
{
    let c = chars_of(p);
    let name_start: usize = match rfind_char(c.as_slice(), '/') {
        Some(i) => {
            assert(i < c.len());
            i + 1
        },
        None => 0,
    };
    match rfind_char(c.as_slice(), '.') {
        Some(d) => {
            if d > name_start {
                assert(d < c.len());
                let e = &c[d + 1..c.len()];
                assert(e@ =~= c@.subrange(d + 1, c@.len() as int));
                Some(string_of(e))
            } else {
                None
            }
        },
        None => None,
    }
}

/// The lines returned: from `start`, at most `limit` (at most
/// `MAX_LINES_TO_READ` without a limit), each cut after `MAX_LINE_LENGTH`
/// characters with a marker.
pub open spec fn cut_line(l: Seq<char>) -> Seq<char> {
    if l.len() > MAX_LINE_LENGTH { l.take(MAX_LINE_LENGTH as int) + "... [truncated]"@ } else { l }
}

pub open spec fn window_end(total: nat, start: nat, limit: Option<usize>) -> nat {
    let want = match limit {
        Some(l) => start + l,
        None => start + MAX_LINES_TO_READ,
    };
    if want < total { want as nat } else { total }
}

/// Lines `start .. end` of `ls`, cut, joined by line feeds.
pub open spec fn joined_window(ls: Seq<Seq<char>>, start: int, end: int) -> Seq<char>
    decreases end - start,
{
    if end <= start {
        Seq::empty()
    } else if end == start + 1 {
        cut_line(ls[start])
    } else {
        joined_window(ls, start, end - 1) + seq!['\n'] + cut_line(ls[end - 1])
    }
}

/// A text file too large to read whole without an offset or a limit.
pub open spec fn too_large(p: Seq<char>, size: Option<u64>, offset: Option<usize>, limit: Option<usize>) -> bool {
    !is_image_path(p) && (size matches Some(n) && n > MAX_OUTPUT_SIZE) && offset is None && limit is None
}

impl FileReadTool {
    /// Whether a path names an image.
    pub fn is_image(path: &str) -> (r: bool)
        ensures
            r == is_image_path(path@),
    {
        match extension(path) {
            None => false,
            Some(e) => {
                let l = lowercase(e.as_str());
                let c = chars_of(l.as_str());
                str_is(c.as_slice(), "png") || str_is(c.as_slice(), "jpg") || str_is(c.as_slice(), "jpeg")
                    || str_is(c.as_slice(), "gif") || str_is(c.as_slice(), "bmp") || str_is(c.as_slice(), "webp")
            },
        }
    }

    /// An image's encoded content.
    pub fn read_image_content(path: &str, data: &Vec<u8>) -> (r: ImageFileContent)
        ensures
            r.base64@ == base64_of(data@),
            r.media_type@ == media_type_of(path@),
    {
        let base64 = encode_base64(data.as_slice());
        let media = match extension(path) {
            Some(e) => {
                let c = chars_of(e.as_str());
                if str_is(c.as_slice(), "jpg") || str_is(c.as_slice(), "jpeg") {
                    "image/jpeg"
                } else if str_is(c.as_slice(), "gif") {
                    "image/gif"
                } else if str_is(c.as_slice(), "bmp") {
                    "image/bmp"
                } else if str_is(c.as_slice(), "webp") {
                    "image/webp"
                } else {
                    "image/png"
                }
            },
            None => "image/png",
        };
        ImageFileContent { base64, media_type: owned(media) }
    }

    /// The 0-based first line for a 1-based offset (1 when none is given).
    pub fn line_offset(offset: Option<usize>) -> (r: usize)
        ensures
            r == match offset {
                Some(o) => if o == 0 { 0 } else { (o - 1) as usize },
                None => 0,
            },
    {
        match offset {
            Some(o) => if o == 0 { 0 } else { o - 1 },
            None => 0,
        }
    }

    /// The lines of a text file that a read returns, from line `start`
    /// (0-based). A start past the end returns no lines.
    pub fn read_text_content(path: &str, content: &str, start: usize, limit: Option<usize>) -> (r: TextFileContent)
        requires
            start < usize::MAX,
        ensures
            r.file_path@ == path@,
            r.total_lines == lines_of(content@).len(),
            r.start_line == start + 1,
            ({
                let total = lines_of(content@).len();
                let first = if start < total { start as nat } else { total };
                let end = window_end(total, first, limit);
                &&& r.num_lines == end - first
                &&& r.content@ == joined_window(lines_of(content@), first as int, end as int)
            }),
    {
        let lines = split_lines(content);
        let ghost ls = lines_of(content@);
        let total = lines.len();
        let first = if start < total { start } else { total };
        let want: usize = match limit {
            Some(l) => if l > total - first { total } else { first + l },
            None => if MAX_LINES_TO_READ > total - first { total } else { first + MAX_LINES_TO_READ },
        };
        let end = want;
        assert(end == window_end(total as nat, first as nat, limit));
        let mut out = String::new();
        let mut i: usize = first;
        while i < end
            invariant
                first <= i <= end,
                end <= lines@.len(),
                strings_view(lines@) == ls,
                out@ == joined_window(ls, first as int, i as int),
            decreases end - i,
        {
            if i > first {
                crate::text::push_char(&mut out, '\n');
            }
            let c = chars_of(lines[i].as_str());
            if c.len() > MAX_LINE_LENGTH {
                let head = string_of(&c[0..MAX_LINE_LENGTH]);
                assert(c@.subrange(0, MAX_LINE_LENGTH as int) =~= c@.take(MAX_LINE_LENGTH as int));
                out.append(head.as_str());
                out.append("... [truncated]");
            } else {
                out.append(lines[i].as_str());
            }
            assert(ls[i as int] == lines@[i as int]@);
            i = i + 1;
        }
        TextFileContent {
            file_path: owned(path),
            content: out,
            num_lines: end - first,
            start_line: start + 1,
            total_lines: total,
        }
    }

    /// The returned lines numbered for display, from the first line's
    /// number, in five columns.
    pub fn add_line_numbers(file: &TextFileContent) -> (r: String)
        ensures
            r@ == numbered(lines_of(file.content@), file.start_line as nat, 5),
    {
        number_lines(file.content.as_str(), file.start_line, 5)
    }

    /// The validation verdict for a read: the target must exist and be a
    /// file, and a large text file needs an offset or a limit.
    pub fn validate_input(input: &FileReadInput, exists: bool, is_file: bool, size: Option<u64>) -> (r: ValidationResult)
        ensures
            r.is_valid == (exists && is_file && !too_large(input.file_path@, size, input.offset, input.limit)),
            !exists ==> (r.message matches Some(m) && m@ == "File does not exist: "@ + input.file_path@),
    {
        if !exists {
            let mut m = owned("File does not exist: ");
            m.append(input.file_path.as_str());
            return ValidationResult::error(m);
        }
        if !is_file {
            let mut m = owned("Path is not a file: ");
            m.append(input.file_path.as_str());
            return ValidationResult::error(m);
        }
        if !FileReadTool::is_image(input.file_path.as_str()) {
            match size {
                Some(n) => {
                    if n > MAX_OUTPUT_SIZE as u64 && input.offset.is_none() && input.limit.is_none() {
                        let mut m = owned("File content (");
                        m.append(decimal_exec((n / 1024) as usize).as_str());
                        m.append(
                            "KB) exceeds maximum allowed size (256KB). Please use offset and limit parameters to read specific portions of the file.",
                        );
                        return ValidationResult::error(m);
                    }
                },
                None => {},
            }
        }
        ValidationResult::ok()
    }
}

} // verus!
