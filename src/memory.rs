//! The scratch-memory tools: files under a per-agent directory.

use vstd::prelude::*;
use crate::text::{contains_seq, occurs_at, owned, str_contains, str_starts_with};
use crate::tools::{ToolContext, ValidationResult};
use crate::lines::{join_lf, strings_view};

verus! {

/// What the model asks to read: one file, or the list when none is named.
#[derive(Debug, Clone, PartialEq, Eq)]
pub struct MemoryReadInput {
    pub file_path: Option<String>,
}

/// What a memory read returns.
#[derive(Debug, Clone, PartialEq, Eq)]
pub struct MemoryReadOutput {
    pub content: String,
}

/// The memory-read tool.
#[derive(Debug, Clone, Copy)]
pub struct MemoryReadTool;

/// What the model asks to write.
#[derive(Debug, Clone, PartialEq, Eq)]
pub struct MemoryWriteInput {
    pub file_path: String,
    pub content: String,
}

/// What a memory write reports.
#[derive(Debug, Clone, PartialEq, Eq)]
pub struct MemoryWriteOutput {
    pub message: String,
}

/// The memory-write tool.
#[derive(Debug, Clone, Copy)]
pub struct MemoryWriteTool;

/// A memory path stays inside the agent's directory only if it holds no
/// parent-directory reference and is not absolute.
pub open spec fn memory_path_allowed(p: Seq<char>) -> bool {
    !contains_seq(p, ".."@) && !occurs_at(p, "/"@, 0)
}

/// The agent whose memory a context uses: its own, or `default`.
pub open spec fn memory_agent(agent_id: Option<String>) -> Seq<char> {
    match agent_id {
        Some(a) => a@,
        None => "default"@,
    }
}

/// Checks a memory path before any file-system access.
pub fn is_allowed_memory_path(p: &str) -> (r: bool)
    ensures
        r == memory_path_allowed(p@),
{
    !str_contains(p, "..") && !str_starts_with(p, "/")
}

/// The agent whose memory a context uses.
pub fn memory_agent_of(ctx: &ToolContext) -> (r: String)
    ensures
        r@ == memory_agent(ctx.agent_id),
{
    match &ctx.agent_id {
        Some(a) => a.clone(),
        None => owned("default"),
    }
}

/// The file list of a memory listing: one `- path` line per file, or a
/// note that there are none.
pub open spec fn file_list_text(files: Seq<Seq<char>>) -> Seq<char> {
    if files.len() == 0 {
        "No memory files found."@
    } else {
        join_lf(files.map_values(|f: Seq<char>| "- "@ + f))
    }
}

/// The listing shown when no memory file is named: the index file's text,
/// then the files of the agent's directory.
pub open spec fn listing_text(index_path: Seq<char>, index: Seq<char>, files: Seq<Seq<char>>) -> Seq<char> {
    "Here are the contents of the agent memory file, `"@ + index_path + "`:\n```\n"@ + index
        + "\n```\n\nFiles in the agent memory directory:\n"@ + file_list_text(files)
}

impl MemoryReadTool {
    /// The listing shown when no memory file is named.
    pub fn listing(index_path: &str, index: &str, files: &Vec<String>) -> (r: String)
        ensures
            r@ == listing_text(index_path@, index@, strings_view(files@)),
    {
        let mut r = owned("Here are the contents of the agent memory file, `");
        r.append(index_path);
        r.append("`:\n```\n");
        r.append(index);
        r.append("\n```\n\nFiles in the agent memory directory:\n");
        if files.len() == 0 {
            r.append("No memory files found.");
            return r;
        }
        let ghost fv = strings_view(files@);
        let mut list = String::new();
        let mut i: usize = 0;
        while i < files.len()
            invariant
                i <= files.len(),
                fv == strings_view(files@),
                list@ == join_lf(fv.take(i as int).map_values(|f: Seq<char>| "- "@ + f)),
            decreases files.len() - i,
        {
            let ghost m = fv.take(i + 1).map_values(|f: Seq<char>| "- "@ + f);
            assert(m.drop_last() =~= fv.take(i as int).map_values(|f: Seq<char>| "- "@ + f));
            assert(m.last() == "- "@ + files@[i as int]@);
            if i > 0 {
                crate::text::push_char(&mut list, '\n');
            }
            list.append("- ");
            list.append(files[i].as_str());
            i = i + 1;
        }
        assert(fv.take(files.len() as int) =~= fv);
        r.append(list.as_str());
        r
    }

    /// The validation verdict for a read. `escapes` says whether the
    /// resolved path leaves the agent's directory, `exists` whether it
    /// exists; neither is consulted for a path that is refused by its text.
    pub fn validate_input(input: &MemoryReadInput, escapes: bool, exists: bool) -> (r: ValidationResult)
        ensures
            r.is_valid == match input.file_path {
                None => true,
                Some(p) => memory_path_allowed(p@) && !escapes && exists,
            },
            input.file_path matches Some(p) && !memory_path_allowed(p@) ==> (r.message matches Some(m)
                && m@ == "Invalid memory file path"@),
    {
        match &input.file_path {
            None => ValidationResult::ok(),
            Some(p) => {
                if !is_allowed_memory_path(p.as_str()) || escapes {
                    ValidationResult::error(owned("Invalid memory file path"))
                } else if !exists {
                    ValidationResult::error(owned("Memory file does not exist"))
                } else {
                    ValidationResult::ok()
                }
            },
        }
    }
}

impl MemoryWriteTool {
    /// The validation verdict for a write; `escapes` says whether the
    /// resolved parent directory leaves the agent's directory.
    pub fn validate_input(input: &MemoryWriteInput, escapes: bool) -> (r: ValidationResult)
        ensures
            r.is_valid == (memory_path_allowed(input.file_path@) && !escapes),
            !memory_path_allowed(input.file_path@) ==> (r.message matches Some(m) && m@ == "Invalid memory file path"@),
    {
        if !is_allowed_memory_path(input.file_path.as_str()) || escapes {
            ValidationResult::error(owned("Invalid memory file path"))
        } else {
            ValidationResult::ok()
        }
    }
}

} // verus!
