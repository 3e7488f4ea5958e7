//! The profiles of the tool surface: which tools an assistant is offered.

use vstd::prelude::*;
use crate::strings::str_eq;

verus! {

/// MCP profile: which tools are available.
#[derive(Debug, Clone, Copy, PartialEq, Eq, Structural)]
pub enum McpProfile {
    /// Minimal: only `process_run` (1 tool).
    Executor,
    /// Development: the process and the basic file operations (6 tools).
    Developer,
    /// Full: all tools (14 tools).
    Full,
}

impl Default for McpProfile {
    fn default() -> (profile: Self)
        ensures
            profile == McpProfile::Developer,
    {
        McpProfile::Developer
    }
}

/// The text in lower case, as the standard library puts it.
pub uninterp spec fn lowercase_of(text: Seq<char>) -> Seq<char>;

/// `str::to_lowercase`: the text with every character in lower case, by the
/// rules of Unicode.
#[verifier::external_body]
fn to_lowercase(text: &str) -> (lower: String)
    ensures
        lower@ == lowercase_of(text@),
{
    text.to_lowercase()
}

impl McpProfile {
    /// The profile that a name in lower case stands for; a name that is none
    /// of the known ones stands for the developer profile.
    pub open spec fn named(name: Seq<char>) -> McpProfile {
        if name == "executor"@ || name == "exec"@ || name == "minimal"@ {
            McpProfile::Executor
        } else if name == "developer"@ || name == "dev"@ {
            McpProfile::Developer
        } else if name == "full"@ || name == "all"@ || name == "complete"@ {
            McpProfile::Full
        } else {
            McpProfile::Developer
        }
    }

    /// The number of tools of a profile.
    pub open spec fn tools(self) -> nat {
        match self {
            McpProfile::Executor => 1,
            McpProfile::Developer => 6,
            McpProfile::Full => 14,
        }
    }

    /// The profile that a name stands for, whatever its case.
    pub fn from_str(s: &str) -> (profile: Self)
        ensures
            profile == Self::named(lowercase_of(s@)),
    {
        let lower = to_lowercase(s);
        Self::from_lowercase(lower.as_str())
    }

    /// The profile that a name in lower case stands for.
    pub fn from_lowercase(name: &str) -> (profile: Self)
        ensures
            profile == Self::named(name@),
    {
        if str_eq(name, "executor") || str_eq(name, "exec") || str_eq(name, "minimal") {
            McpProfile::Executor
        } else if str_eq(name, "developer") || str_eq(name, "dev") {
            McpProfile::Developer
        } else if str_eq(name, "full") || str_eq(name, "all") || str_eq(name, "complete") {
            McpProfile::Full
        } else {
            McpProfile::Developer
        }
    }

    pub fn tool_count(&self) -> (count: usize)
        ensures
            count == self.tools(),
    {
        match self {
            McpProfile::Executor => 1,
            McpProfile::Developer => 6,
            McpProfile::Full => 14,
        }
    }

    pub fn description(&self) -> (text: &'static str)
        ensures
            text@ == (match self {
                McpProfile::Executor => "Executor (1 tool: process_run)"@,
                McpProfile::Developer => "Developer (6 tools: process_run, file_read/write/list/mkdir/remove)"@,
                McpProfile::Full => "Full (14 tools: sandbox_*, process_*, file_*)"@,
            }),
    {
        match self {
            McpProfile::Executor => "Executor (1 tool: process_run)",
            McpProfile::Developer => "Developer (6 tools: process_run, file_read/write/list/mkdir/remove)",
            McpProfile::Full => "Full (14 tools: sandbox_*, process_*, file_*)",
        }
    }
}

/// Each profile offers all the tools of the profile below it, and more: the
/// executor is the smallest, the full profile the largest.
pub proof fn lemma_profiles_grow()
    ensures
        McpProfile::Executor.tools() < McpProfile::Developer.tools() < McpProfile::Full.tools(),
{
}

} // verus!
