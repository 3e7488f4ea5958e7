//! Process service: the checks that guard each call into a sandbox, and the
//! running of commands through the agent of the sandbox.

use vstd::prelude::*;
use crate::agent_pool::{
    effective_timeout, queues_took, queues_untouched, AgentCommandResponse, AgentConnPool,
    PendingCommand, ResponseView, WaitOutcome,
};
use crate::error::Error;
use crate::ids::is_uuid_text;
use crate::proto::ServerMessageView;
use crate::sandbox::{opt_text, Sandbox, SandboxState};
use crate::strings::texts;
use crate::string_map::StringMap;
use crate::types::{CommandResult, ProcessEvent, ProcessEventView};

verus! {

/// The signal that ends a process where the caller names none: SIGTERM.
pub const DEFAULT_KILL_SIGNAL: i32 = 15;

/// Options for running a command.
#[derive(Debug, Clone, PartialEq, Eq)]
pub struct RunCommandOptions {
    /// Command to execute.
    pub command: String,
    /// Command arguments.
    pub args: Vec<String>,
    /// Environment variables.
    pub env: StringMap,
    /// Working directory.
    pub cwd: Option<String>,
    /// Timeout in milliseconds (0 = the default).
    pub timeout_ms: u64,
}

impl Default for RunCommandOptions {
    fn default() -> (opts: Self)
        ensures
            opts.command@.len() == 0,
            opts.args@.len() == 0,
            opts.env.pairs().len() == 0,
            opts.cwd is None,
            opts.timeout_ms == 0,
    {
        RunCommandOptions {
            command: String::new(),
            args: Vec::new(),
            env: StringMap::new(),
            cwd: None,
            timeout_ms: 0,
        }
    }
}

/// Whether a call into the sandbox may go ahead: the sandbox was found, it is
/// running, and its agent is connected.
pub open spec fn ready(lookup: Result<Sandbox, Error>, connected: bool) -> bool {
    lookup matches Ok(sandbox) && sandbox.state == SandboxState::Running && connected
}

/// Whether `e` is the error that refuses a call into the sandbox. The checks
/// come in order: a failed lookup gives its own error, a sandbox that is not
/// running an invalid state with the state it is in, and a sandbox without
/// agent the word that the agent is not connected.
pub open spec fn refusal(
    lookup: Result<Sandbox, Error>,
    connected: bool,
    sandbox_id: Seq<char>,
    e: Error,
) -> bool {
    match lookup {
        Err(cause) => e == cause,
        Ok(sandbox) => if sandbox.state != SandboxState::Running {
            (e matches Error::InvalidSandboxState { expected, actual } && expected@ == "running"@
                && actual@ == sandbox.state.name())
        } else {
            !connected && (e matches Error::AgentNotConnected(id) && id@ == sandbox_id)
        },
    }
}

/// What a caller gets for an answer of the agent: the result of the command
/// where the agent reports success, with 0 and empty texts for what the
/// answer leaves out; a failed execution with the agent's message otherwise.
pub open spec fn result_of(response: ResponseView, result: Result<CommandResult, Error>) -> bool {
    if response.success {
        result matches Ok(r) && r.exit_code == (match response.exit_code {
            Some(code) => code,
            None => 0,
        }) && r.stdout@ == (match response.stdout {
            Some(text) => text,
            None => Seq::empty(),
        }) && r.stderr@ == (match response.stderr {
            Some(text) => text,
            None => Seq::empty(),
        })
    } else {
        result matches Err(Error::ProcessExecutionFailed(m)) && m@ == (match response.error_message {
            Some(text) => text,
            None => "Unknown error"@,
        })
    }
}

/// The events that an answer of the agent stands for: what it wrote to
/// standard output, if anything, then what it wrote to standard error, if
/// anything, then its exit or its error.
pub open spec fn events_of(response: ResponseView) -> Seq<ProcessEventView> {
    let out = match response.stdout {
        Some(text) => if text.len() > 0 {
            seq![ProcessEventView::Stdout { data: text }]
        } else {
            seq![]
        },
        None => seq![],
    };
    let err = match response.stderr {
        Some(text) => if text.len() > 0 {
            seq![ProcessEventView::Stderr { data: text }]
        } else {
            seq![]
        },
        None => seq![],
    };
    let end = if response.success {
        ProcessEventView::Exit {
            code: match response.exit_code {
                Some(code) => code,
                None => 0,
            },
        }
    } else {
        ProcessEventView::Error {
            message: match response.error_message {
                Some(text) => text,
                None => "Unknown error"@,
            },
        }
    };
    out + err + seq![end]
}

/// The views of a list of events.
pub open spec fn event_views(events: Seq<ProcessEvent>) -> Seq<ProcessEventView> {
    events.map_values(|e: ProcessEvent| e@)
}

/// What the caller of `run` gets for each way its wait can end.
pub open spec fn run_result_of(outcome: WaitOutcome, result: Result<CommandResult, Error>) -> bool {
    match outcome {
        WaitOutcome::Response(response) => result_of(response@, result),
        WaitOutcome::Closed => result matches Err(Error::AgentCommunicationError(m)) && m@
            == "Response channel closed"@,
        WaitOutcome::Elapsed => result == Err::<CommandResult, Error>(Error::ProcessTimeout),
    }
}

/// The message with which a command goes to an agent: the command as the
/// options give it, under the correlation id of the request.
pub open spec fn run_message(opts: RunCommandOptions, correlation_id: Seq<char>, stream: bool) -> ServerMessageView {
    ServerMessageView::RunCommand {
        correlation_id,
        command: opts.command@,
        args: texts(opts.args@),
        env: opts.env.pairs(),
        cwd: opt_text(opts.cwd),
        timeout_ms: opts.timeout_ms,
        stream,
    }
}

/// The signal of a kill request: the one it names, else the default.
pub open spec fn signal_or_default(signal: Option<i32>) -> i32 {
    match signal {
        Some(s) => s,
        None => DEFAULT_KILL_SIGNAL,
    }
}

/// Process service for executing commands.
pub struct ProcessService {}

impl ProcessService {
    /// Create a new process service.
    pub fn new() -> Self {
        ProcessService {  }
    }

    /// The checks before every call into a sandbox, given what the store
    /// found for the sandbox.
    pub fn check_ready(pool: &AgentConnPool, lookup: Result<Sandbox, Error>, sandbox_id: &str) -> (result:
        Result<(), Error>)
        ensures
            ready(lookup, pool@.connected(sandbox_id@)) ==> result is Ok,
            !ready(lookup, pool@.connected(sandbox_id@)) ==> (result matches Err(e) && refusal(
                lookup,
                pool@.connected(sandbox_id@),
                sandbox_id@,
                e,
            )),
    {
        let sandbox = match lookup {
            Err(e) => {
                return Err(e);
            },
            Ok(sandbox) => sandbox,
        };
        if sandbox.state != SandboxState::Running {
            return Err(
                Error::InvalidSandboxState {
                    expected: "running".to_owned(),
                    actual: sandbox.state.as_str().to_owned(),
                },
            );
        }
        if !pool.is_connected(sandbox_id) {
            return Err(Error::AgentNotConnected(sandbox_id.to_owned()));
        }
        Ok(())
    }

    /// Run a command: after the checks, the command goes to the agent and the
    /// request becomes pending. The caller waits on the returned waiter for
    /// the returned time and hands the outcome to `finish_run`.
    pub fn run(
        &self,
        pool: &mut AgentConnPool,
        lookup: Result<Sandbox, Error>,
        sandbox_id: &str,
        opts: RunCommandOptions,
    ) -> (result: Result<PendingCommand, Error>)
        ensures
            final(pool)@.connections == old(pool)@.connections,
            final(pool).response_timeout() == old(pool).response_timeout(),
            !ready(lookup, old(pool)@.connected(sandbox_id@)) ==> (result matches Err(e) && refusal(
                lookup,
                old(pool)@.connected(sandbox_id@),
                sandbox_id@,
                e,
            ) && final(pool)@ == old(pool)@),
            ready(lookup, old(pool)@.connected(sandbox_id@)) ==> match result {
                Ok(pending) => pending.timeout_ms == effective_timeout(
                    opts.timeout_ms,
                    old(pool).response_timeout(),
                ) && final(pool)@ == old(pool)@.arm(pending.correlation_id@, sandbox_id@),
                Err(e) => e matches Error::AgentCommunicationError(m) && m@
                    == "Failed to send command"@ && final(pool)@.pending.submap_of(
                    old(pool)@.pending,
                ),
            },
            match result {
                Ok(pending) => is_uuid_text(pending.correlation_id@) && queues_took(
                    *old(pool),
                    *final(pool),
                    sandbox_id@,
                    seq![run_message(opts, pending.correlation_id@, false)],
                ),
                Err(_) => queues_took(*old(pool), *final(pool), sandbox_id@, Seq::empty()),
            },
    {
        Self::start(pool, lookup, sandbox_id, opts, false)
    }

    /// Run a command whose output is wanted as a stream of events. The caller
    /// hands the outcome of its wait to `finish_run_stream`.
    pub fn run_stream(
        &self,
        pool: &mut AgentConnPool,
        lookup: Result<Sandbox, Error>,
        sandbox_id: &str,
        opts: RunCommandOptions,
    ) -> (result: Result<PendingCommand, Error>)
        ensures
            final(pool)@.connections == old(pool)@.connections,
            final(pool).response_timeout() == old(pool).response_timeout(),
            !ready(lookup, old(pool)@.connected(sandbox_id@)) ==> (result matches Err(e) && refusal(
                lookup,
                old(pool)@.connected(sandbox_id@),
                sandbox_id@,
                e,
            ) && final(pool)@ == old(pool)@),
            ready(lookup, old(pool)@.connected(sandbox_id@)) ==> match result {
                Ok(pending) => pending.timeout_ms == effective_timeout(
                    opts.timeout_ms,
                    old(pool).response_timeout(),
                ) && final(pool)@ == old(pool)@.arm(pending.correlation_id@, sandbox_id@),
                Err(e) => e matches Error::AgentCommunicationError(m) && m@
                    == "Failed to send command"@ && final(pool)@.pending.submap_of(
                    old(pool)@.pending,
                ),
            },
            match result {
                Ok(pending) => is_uuid_text(pending.correlation_id@) && queues_took(
                    *old(pool),
                    *final(pool),
                    sandbox_id@,
                    seq![run_message(opts, pending.correlation_id@, true)],
                ),
                Err(_) => queues_took(*old(pool), *final(pool), sandbox_id@, Seq::empty()),
            },
    {
        Self::start(pool, lookup, sandbox_id, opts, true)
    }

    fn start(
        pool: &mut AgentConnPool,
        lookup: Result<Sandbox, Error>,
        sandbox_id: &str,
        opts: RunCommandOptions,
        stream: bool,
    ) -> (result: Result<PendingCommand, Error>)
        ensures
            final(pool)@.connections == old(pool)@.connections,
            final(pool).response_timeout() == old(pool).response_timeout(),
            !ready(lookup, old(pool)@.connected(sandbox_id@)) ==> (result matches Err(e) && refusal(
                lookup,
                old(pool)@.connected(sandbox_id@),
                sandbox_id@,
                e,
            ) && final(pool)@ == old(pool)@),
            ready(lookup, old(pool)@.connected(sandbox_id@)) ==> match result {
                Ok(pending) => pending.timeout_ms == effective_timeout(
                    opts.timeout_ms,
                    old(pool).response_timeout(),
                ) && final(pool)@ == old(pool)@.arm(pending.correlation_id@, sandbox_id@),
                Err(e) => e matches Error::AgentCommunicationError(m) && m@
                    == "Failed to send command"@ && final(pool)@.pending.submap_of(
                    old(pool)@.pending,
                ),
            },
            match result {
                Ok(pending) => is_uuid_text(pending.correlation_id@) && queues_took(
                    *old(pool),
                    *final(pool),
                    sandbox_id@,
                    seq![run_message(opts, pending.correlation_id@, stream)],
                ),
                Err(_) => queues_took(*old(pool), *final(pool), sandbox_id@, Seq::empty()),
            },
    {
        match Self::check_ready(pool, lookup, sandbox_id) {
            Err(e) => Err(e),
            Ok(()) => pool.run_command(
                sandbox_id,
                opts.command,
                opts.args,
                opts.env,
                opts.cwd,
                opts.timeout_ms,
                stream,
            ),
        }
    }

    /// Ends a `run`: the request is no longer pending, and the caller gets the
    /// result of the command, or the error that the outcome of its wait
    /// stands for.
    pub fn finish_run(&self, pool: &mut AgentConnPool, correlation_id: &str, outcome: WaitOutcome) -> (result:
        Result<CommandResult, Error>)
        ensures
            queues_untouched(*old(pool), *final(pool)),
            final(pool)@ == old(pool)@.resolve(correlation_id@),
            final(pool).response_timeout() == old(pool).response_timeout(),
            run_result_of(outcome, result),
    {
        match pool.complete_command(correlation_id, outcome) {
            Ok(response) => Self::response_to_result(response),
            Err(e) => Err(e),
        }
    }

    /// Ends a `run_stream`: the request is no longer pending, and the caller
    /// gets the events that the answer stands for.
    pub fn finish_run_stream(
        &self,
        pool: &mut AgentConnPool,
        correlation_id: &str,
        outcome: WaitOutcome,
    ) -> (result: Result<Vec<ProcessEvent>, Error>)
        ensures
            queues_untouched(*old(pool), *final(pool)),
            final(pool)@ == old(pool)@.resolve(correlation_id@),
            final(pool).response_timeout() == old(pool).response_timeout(),
            match outcome {
                WaitOutcome::Response(response) => result matches Ok(events) && event_views(events@)
                    == events_of(response@),
                WaitOutcome::Closed => result matches Err(Error::AgentCommunicationError(m)) && m@
                    == "Response channel closed"@,
                WaitOutcome::Elapsed => result == Err::<Vec<ProcessEvent>, Error>(
                    Error::ProcessTimeout,
                ),
            },
    {
        match pool.complete_command(correlation_id, outcome) {
            Ok(response) => Ok(Self::response_to_events(response)),
            Err(e) => Err(e),
        }
    }

    /// Kill a running process, with SIGTERM where no signal is named. Fire
    /// and forget: no answer is awaited.
    pub fn kill(
        &self,
        pool: &mut AgentConnPool,
        lookup: Result<Sandbox, Error>,
        sandbox_id: &str,
        pid: u32,
        signal: Option<i32>,
    ) -> (result: Result<(), Error>)
        ensures
            final(pool)@ == old(pool)@,
            final(pool).response_timeout() == old(pool).response_timeout(),
            !ready(lookup, old(pool)@.connected(sandbox_id@)) ==> (result matches Err(e) && refusal(
                lookup,
                old(pool)@.connected(sandbox_id@),
                sandbox_id@,
                e,
            )),
            ready(lookup, old(pool)@.connected(sandbox_id@)) ==> (result is Ok || (
            result matches Err(Error::AgentCommunicationError(m)) && m@
                == "Failed to send message"@)),
            result is Ok ==> (final(pool).sent_to(sandbox_id@).len() > 0 && queues_took(
                *old(pool),
                *final(pool),
                sandbox_id@,
                seq![final(pool).sent_to(sandbox_id@).last()],
            ) && (final(pool).sent_to(sandbox_id@).last() matches ServerMessageView::KillProcess {
                correlation_id,
                pid: p,
                signal: g,
            } && is_uuid_text(correlation_id) && p == pid && g == signal_or_default(signal))),
            result is Err ==> queues_took(*old(pool), *final(pool), sandbox_id@, Seq::empty()),
    {
        match Self::check_ready(pool, lookup, sandbox_id) {
            Err(e) => Err(e),
            Ok(()) => {
                let sig = match signal {
                    Some(s) => s,
                    None => DEFAULT_KILL_SIGNAL,
                };
                pool.kill_process(sandbox_id, pid, sig)
            },
        }
    }

    /// Convert agent response to CommandResult.
    pub fn response_to_result(response: AgentCommandResponse) -> (result: Result<CommandResult, Error>)
        ensures
            result_of(response@, result),
    {
        if response.success {
            Ok(
                CommandResult {
                    exit_code: match response.exit_code {
                        Some(code) => code,
                        None => 0,
                    },
                    stdout: match response.stdout {
                        Some(text) => text,
                        None => String::new(),
                    },
                    stderr: match response.stderr {
                        Some(text) => text,
                        None => String::new(),
                    },
                },
            )
        } else {
            Err(
                Error::ProcessExecutionFailed(
                    match response.error_message {
                        Some(text) => text,
                        None => "Unknown error".to_owned(),
                    },
                ),
            )
        }
    }

    /// Convert agent response to process events.
    pub fn response_to_events(response: AgentCommandResponse) -> (events: Vec<ProcessEvent>)
        ensures
            event_views(events@) == events_of(response@),
    {
        let mut events: Vec<ProcessEvent> = Vec::new();
        if let Some(stdout) = response.stdout {
            if stdout.as_str().unicode_len() > 0 {
                events.push(ProcessEvent::Stdout { data: stdout });
            }
        }
        if let Some(stderr) = response.stderr {
            if stderr.as_str().unicode_len() > 0 {
                events.push(ProcessEvent::Stderr { data: stderr });
            }
        }
        if response.success {
            events.push(
                ProcessEvent::Exit {
                    code: match response.exit_code {
                        Some(code) => code,
                        None => 0,
                    },
                },
            );
        } else {
            events.push(
                ProcessEvent::Error {
                    message: match response.error_message {
                        Some(text) => text,
                        None => "Unknown error".to_owned(),
                    },
                },
            );
        }
        assert(event_views(events@) =~= events_of(response@));
        events
    }
}

/// A request that was armed never ends silently: whatever the outcome of the
/// wait, the caller gets a result or an error. Unless the agent itself
/// reports a failure of the command, the caller gets the result of the
/// command, a timeout, or a communication error, and nothing else.
pub proof fn lemma_run_never_silent(outcome: WaitOutcome, result: Result<CommandResult, Error>)
    requires
        run_result_of(outcome, result),
        !(outcome matches WaitOutcome::Response(response) && !response.success),
    ensures
        result is Ok || result == Err::<CommandResult, Error>(Error::ProcessTimeout) || (
        result matches Err(Error::AgentCommunicationError(_))),
        result is Ok <==> outcome is Response,
        outcome is Elapsed <==> result == Err::<CommandResult, Error>(Error::ProcessTimeout),
        outcome is Closed <==> (result matches Err(Error::AgentCommunicationError(_))),
{
}

/// The events of an answer end with exactly one exit or error, and hold at
/// most three events: output before error output before the end.
pub proof fn lemma_events_shape(response: ResponseView)
    ensures
        1 <= events_of(response).len() <= 3,
        response.success ==> events_of(response).last() is Exit,
        !response.success ==> events_of(response).last() is Error,
        forall|i: int|
            0 <= i < events_of(response).len() - 1 ==> !(#[trigger] events_of(response)[i] is Exit)
                && !(events_of(response)[i] is Error),
{
}

} // verus!
