//! Requests and replies of the process operations.

use vstd::prelude::*;
use crate::error::Error;
use crate::numbers::{parse_decimal, parse_decimal_spec};
use crate::process::{RunCommandOptions, DEFAULT_KILL_SIGNAL};
use crate::sandbox::{opt_pairs, opt_text};
use crate::string_map::StringMap;
use crate::strings::texts;
use crate::types::{CommandResult, ProcessEvent, ProcessEventView};

verus! {

/// Run command request.
#[derive(Debug, Clone, PartialEq, Eq)]
pub struct RunCommandRequest {
    pub command: String,
    pub args: Option<Vec<String>>,
    pub env: Option<StringMap>,
    pub cwd: Option<String>,
    pub timeout: Option<u64>,
}

/// Command result response.
#[derive(Debug, Clone, PartialEq, Eq)]
pub struct CommandResultResponse {
    pub exit_code: i32,
    pub stdout: String,
    pub stderr: String,
}

/// Process event for streaming.
#[derive(Debug, Clone, PartialEq, Eq)]
pub enum ProcessEventResponse {
    Stdout { data: String },
    Stderr { data: String },
    Exit { code: i32 },
    Error { message: String },
}

impl View for ProcessEventResponse {
    type V = ProcessEventView;

    open spec fn view(&self) -> ProcessEventView {
        match self {
            ProcessEventResponse::Stdout { data } => ProcessEventView::Stdout { data: data@ },
            ProcessEventResponse::Stderr { data } => ProcessEventView::Stderr { data: data@ },
            ProcessEventResponse::Exit { code } => ProcessEventView::Exit { code: *code },
            ProcessEventResponse::Error { message } => ProcessEventView::Error {
                message: message@,
            },
        }
    }
}

/// Kill process request.
#[derive(Debug, Clone, PartialEq, Eq)]
pub struct KillProcessRequest {
    pub signal: Option<i32>,
}

/// The arguments of a request: none where it names none.
pub open spec fn opt_args(args: Option<Vec<String>>) -> Seq<Seq<char>> {
    match args {
        Some(a) => texts(a@),
        None => Seq::empty(),
    }
}

impl RunCommandRequest {
    /// The options that the request stands for: no arguments, no variables
    /// and the default timeout where it names none.
    pub fn into_options(self) -> (opts: RunCommandOptions)
        ensures
            opts.command@ == self.command@,
            texts(opts.args@) == opt_args(self.args),
            opts.env.pairs() == opt_pairs(self.env),
            opt_text(opts.cwd) == opt_text(self.cwd),
            opts.timeout_ms == (match self.timeout {
                Some(t) => t,
                None => 0,
            }),
    {
        let args = match self.args {
            Some(a) => a,
            None => Vec::new(),
        };
        let env = match self.env {
            Some(e) => e,
            None => StringMap::new(),
        };
        let opts = RunCommandOptions {
            command: self.command,
            args,
            env,
            cwd: self.cwd,
            timeout_ms: match self.timeout {
                Some(t) => t,
                None => 0,
            },
        };
        assert(texts(opts.args@) =~= opt_args(self.args));
        opts
    }
}

impl CommandResultResponse {
    /// The reply for a result.
    pub fn from_result(result: CommandResult) -> (reply: Self)
        ensures
            reply.exit_code == result.exit_code,
            reply.stdout@ == result.stdout@,
            reply.stderr@ == result.stderr@,
    {
        CommandResultResponse {
            exit_code: result.exit_code,
            stdout: result.stdout,
            stderr: result.stderr,
        }
    }
}

impl ProcessEventResponse {
    /// The reply for an event.
    pub fn from_event(event: ProcessEvent) -> (reply: Self)
        ensures
            reply@ == event@,
    {
        match event {
            ProcessEvent::Stdout { data } => ProcessEventResponse::Stdout { data },
            ProcessEvent::Stderr { data } => ProcessEventResponse::Stderr { data },
            ProcessEvent::Exit { code } => ProcessEventResponse::Exit { code },
            ProcessEvent::Error { message } => ProcessEventResponse::Error { message },
        }
    }
}

impl KillProcessRequest {
    /// The signal that the request asks for: SIGTERM where it names none.
    pub fn signal_or_default(&self) -> (signal: i32)
        ensures
            signal == (match self.signal {
                Some(s) => s,
                None => DEFAULT_KILL_SIGNAL,
            }),
    {
        match self.signal {
            Some(s) => s,
            None => DEFAULT_KILL_SIGNAL,
        }
    }
}

/// The process id that a path segment names. A segment that is no number of
/// 32 bits is an invalid parameter.
pub fn parse_pid(segment: &str) -> (result: Result<u32, Error>)
    ensures
        match parse_decimal_spec(segment@, 0xffff_ffff) {
            Some(pid) => result == Ok::<u32, Error>(pid as u32),
            None => result matches Err(Error::InvalidParameter(m)) && m@
                == "pid must be a number"@,
        },
{
    match parse_decimal(segment, 0xffff_ffff) {
        Some(pid) => Ok(pid as u32),
        None => Err(Error::InvalidParameter("pid must be a number".to_owned())),
    }
}

} // verus!
