//! The write tool: creates a file or replaces one that was read.

use vstd::prelude::*;
use crate::file_rules::{
    check_freshness, convert_line_endings, count_lines, detect_crlf, freshness, is_absolute,
    is_absolute_path, line_count, uses_crlf, with_line_endings, Staleness,
};
use crate::text::owned;
use crate::lines::{join_lf, join_slice, lines_of, number_lines, numbered, split_lines, strings_view};
use crate::tools::{stamp_of, ToolContext, ValidationResult};

verus! {

/// What the model asks the write tool to do.
#[derive(Debug, Clone, PartialEq, Eq)]
pub struct FileWriteInput {
    pub file_path: String,
    pub content: String,
}

/// Whether a write made a new file or replaced one.
#[derive(Debug, Clone, Copy, PartialEq, Eq, Structural)]
pub enum OperationType {
    Create,
    Update,
}

/// What a write reports.
#[derive(Debug, Clone, PartialEq, Eq)]
pub struct FileWriteOutput {
    pub operation_type: OperationType,
    pub file_path: String,
    pub content: String,
    pub lines_written: usize,
}

/// The write tool.
#[derive(Debug, Clone, Copy)]
pub struct FileWriteTool;

/// Why a write is refused before it runs.
#[derive(Debug, Clone, Copy, PartialEq, Eq, Structural)]
pub enum WriteRejection {
    NotAbsolute,
    Stale(Staleness),
}

/// The check that runs before a write: the path must be absolute, and an
/// existing target must have been read and not changed since.
pub open spec fn write_check(path: Seq<char>, exists: bool, stamp: Option<u64>, mtime: Option<u64>) -> Option<WriteRejection> {
    if !is_absolute_path(path) {
        Some(WriteRejection::NotAbsolute)
    } else if exists && freshness(stamp, mtime) is Some {
        Some(WriteRejection::Stale(freshness(stamp, mtime).unwrap()))
    } else {
        None
    }
}

/// The file's text as written: the original's line-ending convention where
/// there was an original, line feeds otherwise.
pub open spec fn written_text(content: Seq<char>, old: Option<Seq<char>>) -> Seq<char> {
    match old {
        Some(o) => with_line_endings(content, uses_crlf(o)),
        None => with_line_endings(content, false),
    }
}

/// The text shown for a refused write.
pub open spec fn write_text(w: WriteRejection) -> Seq<char> {
    match w {
        WriteRejection::NotAbsolute => "file_path must be an absolute path, not relative"@,
        WriteRejection::Stale(Staleness::NotReadYet) => "File has not been read yet. Read it first before writing to it."@,
        WriteRejection::Stale(Staleness::ModifiedSinceRead) => "File has been modified since read, either by the user or by a linter. Read it again before attempting to write it."@,
    }
}

impl WriteRejection {
    /// The text shown for the refusal.
    pub fn message(&self) -> (r: String)
        ensures
            r@ == write_text(*self),
    {
        match self {
            WriteRejection::NotAbsolute => owned("file_path must be an absolute path, not relative"),
            WriteRejection::Stale(Staleness::NotReadYet) => owned("File has not been read yet. Read it first before writing to it."),
            WriteRejection::Stale(Staleness::ModifiedSinceRead) => owned(
                "File has been modified since read, either by the user or by a linter. Read it again before attempting to write it.",
            ),
        }
    }
}

impl FileWriteTool {
    /// Decides whether a write may run; `exists` and `mtime` are what the
    /// file system says of the target.
    pub fn check_write(input: &FileWriteInput, exists: bool, mtime: Option<u64>, ctx: &ToolContext) -> (r: Option<WriteRejection>)
        ensures
            r == write_check(input.file_path@, exists, stamp_of(ctx.read_file_timestamps@, input.file_path@), mtime),
    {
        if !is_absolute(input.file_path.as_str()) {
            return Some(WriteRejection::NotAbsolute);
        }
        if exists {
            match check_freshness(ctx, input.file_path.as_str(), mtime) {
                Some(s) => {
                    return Some(WriteRejection::Stale(s));
                },
                None => {},
            }
        }
        None
    }

    /// The validation verdict for a write, with the refusal's text.
    pub fn validate_input(input: &FileWriteInput, exists: bool, mtime: Option<u64>, ctx: &ToolContext) -> (r: ValidationResult)
        ensures
            r.is_valid == (write_check(input.file_path@, exists, stamp_of(ctx.read_file_timestamps@, input.file_path@), mtime) is None),
            r.is_valid <==> r.message is None,
            match write_check(input.file_path@, exists, stamp_of(ctx.read_file_timestamps@, input.file_path@), mtime) {
                Some(w) => r.message matches Some(m) && m@ == write_text(w),
                None => r.message is None,
            },
    {
        match FileWriteTool::check_write(input, exists, mtime, ctx) {
            None => ValidationResult::ok(),
            Some(e) => ValidationResult::error(e.message()),
        }
    }

    /// What a write puts on disk and reports, given the target's previous
    /// text (`None` where there was no file).
    pub fn plan_write(input: &FileWriteInput, old_content: &Option<String>) -> (r: FileWriteOutput)
        ensures
            r.operation_type == (if old_content is Some { OperationType::Update } else { OperationType::Create }),
            r.file_path@ == input.file_path@,
            r.content@ == written_text(input.content@, match old_content {
                Some(o) => Some(o@),
                None => None,
            }),
            r.lines_written == line_count(r.content@),
    {
        let to_crlf = match old_content {
            Some(o) => detect_crlf(o.as_str()),
            None => false,
        };
        let content = convert_line_endings(input.content.as_str(), to_crlf);
        let lines_written = count_lines(content.as_str());
        let operation_type = match old_content {
            Some(_) => OperationType::Update,
            None => OperationType::Create,
        };
        FileWriteOutput { operation_type, file_path: input.file_path.clone(), content, lines_written }
    }
}


/// The most lines of an updated file shown back to the model.
pub const MAX_LINES_TO_RENDER_FOR_ASSISTANT: usize = 16000;

/// The note that follows a clipped file.
pub open spec fn clipped_note() -> Seq<char> {
    "<response clipped><NOTE>To save on context only part of this file has been shown to you. You should retry this tool after you have searched inside the file with Grep in order to find the line numbers of what you are looking for.</NOTE>"@
}

/// What the model is told after a write: where a file was created, or the
/// updated text numbered from 1 in six columns, clipped after a number of
/// lines.
pub open spec fn write_report(o: FileWriteOutput) -> Seq<char> {
    match o.operation_type {
        OperationType::Create => "File created successfully at: "@ + o.file_path@,
        OperationType::Update => {
            let ls = lines_of(o.content@);
            let shown = if ls.len() > MAX_LINES_TO_RENDER_FOR_ASSISTANT {
                join_lf(ls.take(MAX_LINES_TO_RENDER_FOR_ASSISTANT as int)) + seq!['\n'] + clipped_note()
            } else {
                o.content@
            };
            "The file "@ + o.file_path@
                + " has been updated. Here's the result of running `cat -n` on a snippet of the edited file:\n"@
                + numbered(lines_of(shown), 1, 6)
        },
    }
}

impl FileWriteTool {
    /// The short line shown for a write.
    pub fn render_result(output: &FileWriteOutput) -> (r: String)
        ensures
            r@ == "Wrote "@ + crate::text::decimal(output.lines_written as nat) + " lines to "@ + output.file_path@,
    {
        let mut m = owned("Wrote ");
        m.append(crate::text::decimal_exec(output.lines_written).as_str());
        m.append(" lines to ");
        m.append(output.file_path.as_str());
        m
    }

    /// What the model is told after a write.
    pub fn render_result_for_assistant(output: &FileWriteOutput) -> (r: String)
        ensures
            r@ == write_report(*output),
    {
        match output.operation_type {
            OperationType::Create => {
                let mut m = owned("File created successfully at: ");
                m.append(output.file_path.as_str());
                m
            },
            OperationType::Update => {
                let lines = split_lines(output.content.as_str());
                let ghost ls = lines_of(output.content@);
                let shown = if lines.len() > MAX_LINES_TO_RENDER_FOR_ASSISTANT {
                    let head = &lines.as_slice()[0..MAX_LINES_TO_RENDER_FOR_ASSISTANT];
                    assert(head@ =~= lines@.subrange(0, MAX_LINES_TO_RENDER_FOR_ASSISTANT as int));
                    let mut t = join_slice(head);
                    assert(strings_view(lines@.subrange(0, MAX_LINES_TO_RENDER_FOR_ASSISTANT as int)) =~= strings_view(lines@).take(
                        MAX_LINES_TO_RENDER_FOR_ASSISTANT as int,
                    ));
                    crate::text::push_char(&mut t, '\n');
                    t.append(
                        "<response clipped><NOTE>To save on context only part of this file has been shown to you. You should retry this tool after you have searched inside the file with Grep in order to find the line numbers of what you are looking for.</NOTE>",
                    );
                    assert(t@ == join_lf(ls.take(MAX_LINES_TO_RENDER_FOR_ASSISTANT as int)) + seq!['\n'] + clipped_note());
                    t
                } else {
                    output.content.clone()
                };
                assert(shown@ == if ls.len() > MAX_LINES_TO_RENDER_FOR_ASSISTANT {
                    join_lf(ls.take(MAX_LINES_TO_RENDER_FOR_ASSISTANT as int)) + seq!['\n'] + clipped_note()
                } else {
                    output.content@
                });
                let mut m = owned("The file ");
                m.append(output.file_path.as_str());
                m.append(" has been updated. Here's the result of running `cat -n` on a snippet of the edited file:\n");
                m.append(number_lines(shown.as_str(), 1, 6).as_str());
                m
            },
        }
    }
}

} // verus!
