//! Agent definitions: which tools an agent may use and where it was found.

use vstd::prelude::*;
use crate::text::{chars_of, owned, str_is};

verus! {

/// The tools an agent may use.
#[derive(Debug, Clone, PartialEq, Eq)]
pub enum ToolPermissions {
    All,
    Specific(Vec<String>),
}

/// Where an agent definition was found; later places take precedence.
#[derive(Debug, Clone, Copy, PartialEq, Eq, Structural)]
pub enum AgentLocation {
    BuiltIn,
    UserClaude,
    UserKode,
    ProjectClaude,
    ProjectKode,
}

/// An agent definition.
#[derive(Debug, Clone, PartialEq, Eq)]
pub struct AgentConfig {
    pub agent_type: String,
    pub when_to_use: String,
    pub tools: ToolPermissions,
    pub system_prompt: String,
    pub location: AgentLocation,
    pub color: Option<String>,
    pub model_name: Option<String>,
}

pub open spec fn lists_tool(v: Seq<String>, tool: Seq<char>) -> bool {
    exists|i: int| 0 <= i < v.len() && (#[trigger] v[i])@ == tool
}

pub open spec fn permits(p: ToolPermissions, tool: Seq<char>) -> bool {
    match p {
        ToolPermissions::All => true,
        ToolPermissions::Specific(v) => lists_tool(v@, tool),
    }
}

fn lists_exec(tools: &Vec<String>, tool_name: &str) -> (r: bool)
    ensures
        r == lists_tool(tools@, tool_name@),
{
    let mut i: usize = 0;
    while i < tools.len()
        invariant
            i <= tools.len(),
            forall|j: int| 0 <= j < i ==> (#[trigger] tools@[j])@ != tool_name@,
        decreases tools.len() - i,
    {
        let t = chars_of(tools[i].as_str());
        if str_is(t.as_slice(), tool_name) {
            assert(tools@[i as int]@ == tool_name@);
            return true;
        }
        i = i + 1;
    }
    false
}

impl ToolPermissions {
    /// Whether the agent may use the tool.
    pub fn allows(&self, tool_name: &str) -> (r: bool)
        ensures
            r == permits(*self, tool_name@),
    {
        match self {
            ToolPermissions::All => true,
            ToolPermissions::Specific(tools) => lists_exec(tools, tool_name),
        }
    }
}

pub open spec fn location_priority(l: AgentLocation) -> u8 {
    match l {
        AgentLocation::BuiltIn => 0,
        AgentLocation::UserClaude => 1,
        AgentLocation::UserKode => 2,
        AgentLocation::ProjectClaude => 3,
        AgentLocation::ProjectKode => 4,
    }
}

impl AgentLocation {
    /// The precedence of the place: higher wins.
    pub fn priority(self) -> (r: u8)
        ensures
            r == location_priority(self),
    {
        match self {
            AgentLocation::BuiltIn => 0,
            AgentLocation::UserClaude => 1,
            AgentLocation::UserKode => 2,
            AgentLocation::ProjectClaude => 3,
            AgentLocation::ProjectKode => 4,
        }
    }
}

/// Which of two definitions of one agent type is kept: the one from the
/// place of higher precedence, the newer one on a tie.
pub fn prefer_definition(existing: AgentConfig, candidate: AgentConfig) -> (r: AgentConfig)
    ensures
        r == if location_priority(candidate.location) >= location_priority(existing.location) { candidate } else { existing },
{
    if candidate.location.priority() >= existing.location.priority() {
        candidate
    } else {
        existing
    }
}

/// Every tool.
pub fn default_all_tools() -> (r: ToolPermissions)
    ensures
        r == ToolPermissions::All,
{
    ToolPermissions::All
}

/// Definitions read from files are placed with the lowest precedence until
/// their place is known.
pub fn default_location() -> (r: AgentLocation)
    ensures
        r == AgentLocation::BuiltIn,
{
    AgentLocation::BuiltIn
}

/// The built-in general-purpose agent.
pub fn builtin_general_purpose() -> (r: AgentConfig)
    ensures
        r.agent_type@ == "general-purpose"@,
        r.tools == ToolPermissions::All,
        r.location == AgentLocation::BuiltIn,
        r.color.is_none(),
        r.model_name.is_none(),
{
    AgentConfig {
        agent_type: owned("general-purpose"),
        when_to_use: owned(
            "General-purpose agent for researching complex questions, searching for code, and executing multi-step tasks",
        ),
        tools: ToolPermissions::All,
        system_prompt: owned(
            "You are a general-purpose agent. Given the user's task, use the tools available to complete it efficiently and thoroughly.\n\nWhen to use your capabilities:\n- Searching for code, configurations, and patterns across large codebases\n- Analyzing multiple files to understand system architecture\n- Investigating complex questions that require exploring many files\n- Performing multi-step research tasks\n\nGuidelines:\n- For file searches: Use Grep or Glob when you need to search broadly. Use FileRead when you know the specific file path.\n- For analysis: Start broad and narrow down. Use multiple search strategies if the first doesn't yield results.\n- Be thorough: Check multiple locations, consider different naming conventions, look for related files.\n- Complete tasks directly using your capabilities.",
        ),
        location: AgentLocation::BuiltIn,
        color: None,
        model_name: None,
    }
}

} // verus!
