//! Parameters of the tools.

use vstd::prelude::*;
use crate::process::{RunCommandOptions, DEFAULT_KILL_SIGNAL};
use crate::sandbox::{opt_pairs, opt_text, CreateSandboxParams};
use crate::string_map::StringMap;
use crate::strings::texts;

verus! {

#[derive(Debug, Clone, PartialEq, Eq)]
pub struct SandboxCreateParams {
    /// ID of the workspace to bind to.
    pub workspace_id: String,
    /// Image to use; the base image where none is named.
    pub template: Option<String>,
    /// Human-readable name for the sandbox.
    pub name: Option<String>,
    /// Environment variables to set in the sandbox.
    pub env: Option<StringMap>,
    /// Custom metadata for the sandbox.
    pub metadata: Option<StringMap>,
    /// Timeout in seconds for the sandbox.
    pub timeout: Option<u64>,
}

#[derive(Debug, Clone, PartialEq, Eq)]
pub struct SandboxGetParams {
    /// ID of the sandbox to retrieve.
    pub sandbox_id: String,
}

#[derive(Debug, Clone, PartialEq, Eq)]
pub struct SandboxListParams {
    /// Filter by sandbox state: starting, running, stopping, stopped, error.
    pub state: Option<String>,
}

#[derive(Debug, Clone, PartialEq, Eq)]
pub struct SandboxDeleteParams {
    /// ID of the sandbox to delete.
    pub sandbox_id: String,
    /// Force delete even if sandbox is running.
    pub force: Option<bool>,
}

#[derive(Debug, Clone, PartialEq, Eq)]
pub struct ProcessRunParams {
    /// ID of the sandbox to run command in.
    pub sandbox_id: String,
    /// Command to execute.
    pub command: String,
    /// Command arguments.
    pub args: Option<Vec<String>>,
    /// Environment variables.
    pub env: Option<StringMap>,
    /// Working directory.
    pub cwd: Option<String>,
    /// Timeout in seconds.
    pub timeout: Option<i64>,
}

#[derive(Debug, Clone, PartialEq, Eq)]
pub struct ProcessKillParams {
    /// ID of the sandbox.
    pub sandbox_id: String,
    /// Process ID to kill.
    pub pid: u32,
    /// Signal to send; SIGTERM where none is named.
    pub signal: Option<i32>,
}

#[derive(Debug, Clone, PartialEq, Eq)]
pub struct FileReadParams {
    pub sandbox_id: String,
    pub path: String,
}

#[derive(Debug, Clone, PartialEq, Eq)]
pub struct FileWriteParams {
    pub sandbox_id: String,
    pub path: String,
    pub content: String,
}

#[derive(Debug, Clone, PartialEq, Eq)]
pub struct FileListParams {
    pub sandbox_id: String,
    pub path: String,
}

#[derive(Debug, Clone, PartialEq, Eq)]
pub struct FileMkdirParams {
    pub sandbox_id: String,
    pub path: String,
    /// Create the parents too; they are created where nothing is said.
    pub recursive: Option<bool>,
}

#[derive(Debug, Clone, PartialEq, Eq)]
pub struct FileRemoveParams {
    pub sandbox_id: String,
    pub path: String,
    /// Remove directories with what is in them; not where nothing is said.
    pub recursive: Option<bool>,
}

#[derive(Debug, Clone, PartialEq, Eq)]
pub struct FileMoveParams {
    pub sandbox_id: String,
    pub src: String,
    pub dst: String,
}

#[derive(Debug, Clone, PartialEq, Eq)]
pub struct FileCopyParams {
    pub sandbox_id: String,
    pub src: String,
    pub dst: String,
}

#[derive(Debug, Clone, PartialEq, Eq)]
pub struct FileInfoParams {
    pub sandbox_id: String,
    pub path: String,
}

/// The milliseconds of a timeout in seconds: none, or one that is not
/// positive, is the default, written 0; one that is too long for the
/// counter is the longest.
pub open spec fn timeout_ms_of(timeout: Option<i64>) -> u64 {
    match timeout {
        Some(t) => if t <= 0 {
            0
        } else if t * 1000 <= u64::MAX {
            (t * 1000) as u64
        } else {
            u64::MAX
        },
        None => 0,
    }
}

/// The milliseconds of a timeout in seconds.
pub fn timeout_ms(timeout: Option<i64>) -> (ms: u64)
    ensures
        ms == timeout_ms_of(timeout),
{
    match timeout {
        Some(t) => {
            if t <= 0 {
                0
            } else {
                let wide: u128 = (t as u128) * 1000;
                if wide <= u64::MAX as u128 {
                    wide as u64
                } else {
                    u64::MAX
                }
            }
        },
        None => 0,
    }
}

impl SandboxCreateParams {
    /// The parameters of the creation that the tool asks for.
    pub fn into_params(self) -> (params: CreateSandboxParams)
        ensures
            params.workspace_id == self.workspace_id,
            params.template == self.template,
            params.name == self.name,
            params.env == self.env,
            params.metadata == self.metadata,
            params.timeout == self.timeout,
    {
        CreateSandboxParams {
            workspace_id: self.workspace_id,
            template: self.template,
            name: self.name,
            env: self.env,
            metadata: self.metadata,
            timeout: self.timeout,
        }
    }
}

impl SandboxDeleteParams {
    /// Whether the deletion is forced; it is not where nothing is said.
    pub fn is_forced(&self) -> (force: bool)
        ensures
            force == (match self.force {
                Some(f) => f,
                None => false,
            }),
    {
        match self.force {
            Some(f) => f,
            None => false,
        }
    }
}

impl ProcessRunParams {
    /// The options of the command that the tool asks for.
    pub fn into_options(self) -> (opts: RunCommandOptions)
        ensures
            opts.command@ == self.command@,
            texts(opts.args@) == crate::api::http::process::opt_args(self.args),
            opts.env.pairs() == opt_pairs(self.env),
            opt_text(opts.cwd) == opt_text(self.cwd),
            opts.timeout_ms == timeout_ms_of(self.timeout),
    {
        let args = match self.args {
            Some(a) => a,
            None => Vec::new(),
        };
        let env = match self.env {
            Some(e) => e,
            None => StringMap::new(),
        };
        let opts = RunCommandOptions {
            command: self.command,
            args,
            env,
            cwd: self.cwd,
            timeout_ms: timeout_ms(self.timeout),
        };
        assert(texts(opts.args@) =~= crate::api::http::process::opt_args(self.args));
        opts
    }
}

impl ProcessKillParams {
    /// The signal that the tool asks for: SIGTERM where it names none.
    pub fn signal_or_default(&self) -> (signal: i32)
        ensures
            signal == (match self.signal {
                Some(s) => s,
                None => DEFAULT_KILL_SIGNAL,
            }),
    {
        match self.signal {
            Some(s) => s,
            None => DEFAULT_KILL_SIGNAL,
        }
    }
}

} // verus!
