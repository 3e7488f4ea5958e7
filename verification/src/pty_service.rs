//! PTY service: interactive terminals inside a sandbox, through its agent.

use vstd::prelude::*;
use crate::agent_pool::{
    queues_took, queues_untouched, sent_if, AgentCommandResponse, AgentConnPool, PendingCommand, ResponseView,
    WaitOutcome,
};
use crate::ids::is_uuid_text;
use crate::proto::ServerMessageView;
use crate::sandbox::{opt_pairs, opt_text};
use crate::error::Error;
use crate::ids::new_id;
use crate::process::{ready, refusal, ProcessService};
use crate::sandbox::Sandbox;
use crate::string_map::StringMap;
use crate::strings::{concat2, str_eq};
use crate::types::{PtyInfo, PtyOptions, DEFAULT_PTY_COLS, DEFAULT_PTY_ROWS};

verus! {

/// The columns that the options ask for, or the default.
pub open spec fn cols_of(opts: PtyOptions) -> u16 {
    match opts.cols {
        Some(c) => c,
        None => DEFAULT_PTY_COLS,
    }
}

/// The rows that the options ask for, or the default.
pub open spec fn rows_of(opts: PtyOptions) -> u16 {
    match opts.rows {
        Some(r) => r,
        None => DEFAULT_PTY_ROWS,
    }
}

/// What the agent answered to a request about a terminal.
pub enum PtyAnswer {
    /// The request was carried out.
    Done,
    /// The agent holds as many terminals as it may.
    LimitExceeded,
    /// The agent holds no terminal under the id.
    NotFound,
    /// Anything else went wrong, with the agent's message.
    Failed(Seq<char>),
}

/// The words with which an agent refuses a terminal at capacity.
pub open spec fn limit_words() -> Seq<char> {
    "PTY limit exceeded"@
}

/// The words with which an agent reports that it holds no terminal under
/// the id.
pub open spec fn not_found_words(pty_id: Seq<char>) -> Seq<char> {
    "PTY not found: "@ + pty_id
}

/// What an answer of the agent says about a request for the terminal: an
/// answer that reports success says that it is done; a failure is told
/// apart by its message.
pub open spec fn pty_answer(response: ResponseView, pty_id: Seq<char>) -> PtyAnswer {
    if response.success {
        PtyAnswer::Done
    } else {
        match response.error_message {
            Some(message) => if message == limit_words() {
                PtyAnswer::LimitExceeded
            } else if message == not_found_words(pty_id) {
                PtyAnswer::NotFound
            } else {
                PtyAnswer::Failed(message)
            },
            None => PtyAnswer::Failed("Unknown error"@),
        }
    }
}

/// Whether the result is what the answer stands for.
pub open spec fn result_of_answer(answer: PtyAnswer, pty_id: Seq<char>, result: Result<(), Error>) -> bool {
    match answer {
        PtyAnswer::Done => result is Ok,
        PtyAnswer::LimitExceeded => result == Err::<(), Error>(Error::PtyLimitExceeded),
        PtyAnswer::NotFound => result matches Err(Error::PtyNotFound(id)) && id@ == pty_id,
        PtyAnswer::Failed(message) => result matches Err(Error::ProcessExecutionFailed(m)) && m@
            == message,
    }
}

/// What the caller of a request about a terminal gets for each way its
/// wait can end.
pub open spec fn pty_result_of(outcome: WaitOutcome, pty_id: Seq<char>, result: Result<(), Error>) -> bool {
    match outcome {
        WaitOutcome::Response(response) => result_of_answer(
            pty_answer(response@, pty_id),
            pty_id,
            result,
        ),
        WaitOutcome::Closed => result matches Err(Error::AgentCommunicationError(m)) && m@
            == "Response channel closed"@,
        WaitOutcome::Elapsed => result == Err::<(), Error>(Error::ProcessTimeout),
    }
}

/// A terminal whose creation awaits the acknowledgment of the agent.
pub struct PendingPty {
    /// The terminal as it will be.
    pub info: PtyInfo,
    /// The request that is pending.
    pub request: PendingCommand,
}

/// The message with which the creation of a terminal goes to an agent: the
/// terminal as the options give it, with the default size where they name
/// none, under the correlation id of the request.
pub open spec fn create_message(opts: PtyOptions, correlation_id: Seq<char>, pty_id: Seq<char>) -> ServerMessageView {
    ServerMessageView::CreatePty {
        correlation_id,
        pty_id,
        cols: cols_of(opts) as u32,
        rows: rows_of(opts) as u32,
        shell: opt_text(opts.shell),
        env: opt_pairs(opts.env),
    }
}

/// PTY service for managing interactive terminals.
pub struct PtyService {}

impl PtyService {
    /// Create a new PTY service.
    pub fn new() -> Self {
        PtyService {  }
    }

    /// The result of a request about a terminal, for an answer of the agent.
    pub fn response_to_result(response: AgentCommandResponse, pty_id: &str) -> (result: Result<(), Error>)
        ensures
            result_of_answer(pty_answer(response@, pty_id@), pty_id@, result),
    {
        if response.success {
            return Ok(());
        }
        match response.error_message {
            Some(message) => {
                if str_eq(message.as_str(), "PTY limit exceeded") {
                    Err(Error::PtyLimitExceeded)
                } else if str_eq(message.as_str(), concat2("PTY not found: ", pty_id).as_str()) {
                    Err(Error::PtyNotFound(pty_id.to_owned()))
                } else {
                    Err(Error::ProcessExecutionFailed(message))
                }
            },
            None => Err(Error::ProcessExecutionFailed("Unknown error".to_owned())),
        }
    }

    /// Create a new PTY under a fresh id, of 80 columns and 24 rows where the
    /// options name none. The request is pending until the agent
    /// acknowledges it: the caller waits on the returned request and hands
    /// the outcome to `finish_create`.
    pub fn create(
        &self,
        pool: &mut AgentConnPool,
        lookup: Result<Sandbox, Error>,
        sandbox_id: &str,
        opts: PtyOptions,
    ) -> (result: Result<PendingPty, Error>)
        ensures
            final(pool)@.connections == old(pool)@.connections,
            final(pool).response_timeout() == old(pool).response_timeout(),
            !ready(lookup, old(pool)@.connected(sandbox_id@)) ==> (result matches Err(e) && refusal(
                lookup,
                old(pool)@.connected(sandbox_id@),
                sandbox_id@,
                e,
            ) && final(pool)@ == old(pool)@),
            ready(lookup, old(pool)@.connected(sandbox_id@)) ==> match result {
                Ok(pending) => pending.info.sandbox_id@ == sandbox_id@ && pending.info.cols
                    == cols_of(opts) && pending.info.rows == rows_of(opts)
                    && pending.request.timeout_ms == old(pool).response_timeout() && final(pool)@
                    == old(pool)@.arm(pending.request.correlation_id@, sandbox_id@),
                Err(e) => e matches Error::AgentCommunicationError(m) && m@
                    == "Failed to send message"@ && final(pool)@.pending.submap_of(
                    old(pool)@.pending,
                ),
            },
            result matches Ok(pending) ==> is_uuid_text(pending.info.id@),
            match result {
                Ok(pending) => is_uuid_text(pending.request.correlation_id@) && queues_took(
                    *old(pool),
                    *final(pool),
                    sandbox_id@,
                    seq![
                        create_message(opts, pending.request.correlation_id@, pending.info.id@),
                    ],
                ),
                Err(_) => queues_took(*old(pool), *final(pool), sandbox_id@, Seq::empty()),
            },
    {
        self.create_with_id(pool, lookup, sandbox_id, new_id(), opts)
    }

    /// Create a new PTY under the given id.
    pub fn create_with_id(
        &self,
        pool: &mut AgentConnPool,
        lookup: Result<Sandbox, Error>,
        sandbox_id: &str,
        pty_id: String,
        opts: PtyOptions,
    ) -> (result: Result<PendingPty, Error>)
        ensures
            final(pool)@.connections == old(pool)@.connections,
            final(pool).response_timeout() == old(pool).response_timeout(),
            !ready(lookup, old(pool)@.connected(sandbox_id@)) ==> (result matches Err(e) && refusal(
                lookup,
                old(pool)@.connected(sandbox_id@),
                sandbox_id@,
                e,
            ) && final(pool)@ == old(pool)@),
            ready(lookup, old(pool)@.connected(sandbox_id@)) ==> match result {
                Ok(pending) => pending.info.id@ == pty_id@ && pending.info.sandbox_id@
                    == sandbox_id@ && pending.info.cols == cols_of(opts) && pending.info.rows
                    == rows_of(opts) && pending.request.timeout_ms == old(pool).response_timeout()
                    && final(pool)@ == old(pool)@.arm(
                    pending.request.correlation_id@,
                    sandbox_id@,
                ),
                Err(e) => e matches Error::AgentCommunicationError(m) && m@
                    == "Failed to send message"@ && final(pool)@.pending.submap_of(
                    old(pool)@.pending,
                ),
            },
            match result {
                Ok(pending) => is_uuid_text(pending.request.correlation_id@) && queues_took(
                    *old(pool),
                    *final(pool),
                    sandbox_id@,
                    seq![
                        create_message(opts, pending.request.correlation_id@, pending.info.id@),
                    ],
                ),
                Err(_) => queues_took(*old(pool), *final(pool), sandbox_id@, Seq::empty()),
            },
    {
        match ProcessService::check_ready(pool, lookup, sandbox_id) {
            Err(e) => {
                return Err(e);
            },
            Ok(()) => {},
        }
        let cols: u16 = match opts.cols {
            Some(c) => c,
            None => DEFAULT_PTY_COLS,
        };
        let rows: u16 = match opts.rows {
            Some(r) => r,
            None => DEFAULT_PTY_ROWS,
        };
        let env = match opts.env {
            Some(env) => env,
            None => StringMap::new(),
        };
        match pool.create_pty(sandbox_id, pty_id.clone(), cols as u32, rows as u32, opts.shell, env) {
            Err(e) => Err(e),
            Ok(request) => Ok(
                PendingPty {
                    info: PtyInfo { id: pty_id, sandbox_id: sandbox_id.to_owned(), cols, rows },
                    request,
                },
            ),
        }
    }

    /// Ends the creation of a terminal: the request is no longer pending,
    /// and the caller gets the terminal if the agent acknowledged it, the
    /// limit if the agent holds as many terminals as it may, or the error
    /// that the outcome of its wait stands for.
    pub fn finish_create(&self, pool: &mut AgentConnPool, correlation_id: &str, info: PtyInfo, outcome: WaitOutcome) -> (result:
        Result<PtyInfo, Error>)
        ensures
            queues_untouched(*old(pool), *final(pool)),
            final(pool)@ == old(pool)@.resolve(correlation_id@),
            final(pool).response_timeout() == old(pool).response_timeout(),
            match result {
                Ok(created) => created == info && pty_result_of(
                    outcome,
                    info.id@,
                    Ok::<(), Error>(()),
                ),
                Err(e) => pty_result_of(outcome, info.id@, Err::<(), Error>(e)),
            },
    {
        match self.finish(pool, correlation_id, info.id.as_str(), outcome) {
            Ok(()) => Ok(info),
            Err(e) => Err(e),
        }
    }

    /// Ends a request about a terminal: the request is no longer pending,
    /// and the caller learns whether the agent carried it out.
    pub fn finish(&self, pool: &mut AgentConnPool, correlation_id: &str, pty_id: &str, outcome: WaitOutcome) -> (result:
        Result<(), Error>)
        ensures
            queues_untouched(*old(pool), *final(pool)),
            final(pool)@ == old(pool)@.resolve(correlation_id@),
            final(pool).response_timeout() == old(pool).response_timeout(),
            pty_result_of(outcome, pty_id@, result),
    {
        match pool.complete_command(correlation_id, outcome) {
            Ok(response) => Self::response_to_result(response, pty_id),
            Err(e) => Err(e),
        }
    }

    /// Resize a PTY. The caller waits on the returned request and hands the
    /// outcome to `finish`.
    pub fn resize(
        &self,
        pool: &mut AgentConnPool,
        lookup: Result<Sandbox, Error>,
        sandbox_id: &str,
        pty_id: &str,
        cols: u16,
        rows: u16,
    ) -> (result: Result<PendingCommand, Error>)
        ensures
            final(pool)@.connections == old(pool)@.connections,
            final(pool).response_timeout() == old(pool).response_timeout(),
            !ready(lookup, old(pool)@.connected(sandbox_id@)) ==> (result matches Err(e) && refusal(
                lookup,
                old(pool)@.connected(sandbox_id@),
                sandbox_id@,
                e,
            ) && final(pool)@ == old(pool)@),
            ready(lookup, old(pool)@.connected(sandbox_id@)) ==> match result {
                Ok(pending) => pending.timeout_ms == old(pool).response_timeout() && final(pool)@
                    == old(pool)@.arm(pending.correlation_id@, sandbox_id@),
                Err(e) => e matches Error::AgentCommunicationError(m) && m@
                    == "Failed to send message"@ && final(pool)@.pending.submap_of(
                    old(pool)@.pending,
                ),
            },
            match result {
                Ok(pending) => is_uuid_text(pending.correlation_id@) && queues_took(
                    *old(pool),
                    *final(pool),
                    sandbox_id@,
                    seq![
                        ServerMessageView::ResizePty {
                            correlation_id: pending.correlation_id@,
                            pty_id: pty_id@,
                            cols: cols as u32,
                            rows: rows as u32,
                        },
                    ],
                ),
                Err(_) => queues_took(*old(pool), *final(pool), sandbox_id@, Seq::empty()),
            },
    {
        match ProcessService::check_ready(pool, lookup, sandbox_id) {
            Err(e) => Err(e),
            Ok(()) => pool.resize_pty(sandbox_id, pty_id, cols as u32, rows as u32),
        }
    }

    /// Kill a PTY. The caller waits on the returned request and hands the
    /// outcome to `finish`.
    pub fn kill(&self, pool: &mut AgentConnPool, lookup: Result<Sandbox, Error>, sandbox_id: &str, pty_id: &str) -> (result:
        Result<PendingCommand, Error>)
        ensures
            final(pool)@.connections == old(pool)@.connections,
            final(pool).response_timeout() == old(pool).response_timeout(),
            !ready(lookup, old(pool)@.connected(sandbox_id@)) ==> (result matches Err(e) && refusal(
                lookup,
                old(pool)@.connected(sandbox_id@),
                sandbox_id@,
                e,
            ) && final(pool)@ == old(pool)@),
            ready(lookup, old(pool)@.connected(sandbox_id@)) ==> match result {
                Ok(pending) => pending.timeout_ms == old(pool).response_timeout() && final(pool)@
                    == old(pool)@.arm(pending.correlation_id@, sandbox_id@),
                Err(e) => e matches Error::AgentCommunicationError(m) && m@
                    == "Failed to send message"@ && final(pool)@.pending.submap_of(
                    old(pool)@.pending,
                ),
            },
            match result {
                Ok(pending) => is_uuid_text(pending.correlation_id@) && queues_took(
                    *old(pool),
                    *final(pool),
                    sandbox_id@,
                    seq![
                        ServerMessageView::KillPty {
                            correlation_id: pending.correlation_id@,
                            pty_id: pty_id@,
                        },
                    ],
                ),
                Err(_) => queues_took(*old(pool), *final(pool), sandbox_id@, Seq::empty()),
            },
    {
        match ProcessService::check_ready(pool, lookup, sandbox_id) {
            Err(e) => Err(e),
            Ok(()) => pool.kill_pty(sandbox_id, pty_id),
        }
    }

    /// Send input to a PTY. Input is not held up by a look at the store: only
    /// the connection of the agent is asked for. No answer is awaited.
    pub fn send_input(&self, pool: &mut AgentConnPool, sandbox_id: &str, pty_id: &str, data: Vec<u8>) -> (result:
        Result<(), Error>)
        ensures
            final(pool)@ == old(pool)@,
            final(pool).response_timeout() == old(pool).response_timeout(),
            !old(pool)@.connected(sandbox_id@) ==> (result matches Err(Error::AgentNotConnected(id))
                && id@ == sandbox_id@),
            old(pool)@.connected(sandbox_id@) ==> (result is Ok || (result matches Err(
                Error::AgentCommunicationError(m),
            ) && m@ == "Failed to send message"@)),
            queues_took(
                *old(pool),
                *final(pool),
                sandbox_id@,
                sent_if(result is Ok, ServerMessageView::PtyInput { pty_id: pty_id@, data: data@ }),
            ),
    {
        pool.send_pty_input(sandbox_id, pty_id, data)
    }
}

/// What arrives on the socket that a client holds to a terminal.
#[derive(Debug, Clone, PartialEq, Eq)]
pub enum SocketEvent {
    /// A frame of text or of bytes, by its bytes.
    Data(Vec<u8>),
    /// A frame of another kind.
    Other,
    /// The client closes the socket.
    Close,
    /// The socket failed or ended.
    Failed,
}

/// What follows a frame of a terminal's socket.
#[derive(Debug, Clone, PartialEq, Eq)]
pub enum SocketStep {
    /// The socket is read on.
    Continue,
    /// The socket is left, with the error where input could not be sent.
    Stop(Option<Error>),
}

impl PtyService {
    /// One frame of a terminal's socket. Data is sent to the terminal as
    /// input, and the socket is left when that fails; a frame of another
    /// kind is passed over; the socket is left when the client closes it or
    /// it fails.
    pub fn socket_frame(
        &self,
        pool: &mut AgentConnPool,
        sandbox_id: &str,
        pty_id: &str,
        event: SocketEvent,
    ) -> (step: SocketStep)
        ensures
            final(pool)@ == old(pool)@,
            final(pool).response_timeout() == old(pool).response_timeout(),
            event is Other ==> step is Continue,
            (event is Close || event is Failed) ==> step matches SocketStep::Stop(None),
            (event is Data && !old(pool)@.connected(sandbox_id@)) ==> (step matches SocketStep::Stop(
                Some(Error::AgentNotConnected(id)),
            ) && id@ == sandbox_id@),
            (event is Data && old(pool)@.connected(sandbox_id@)) ==> (step is Continue || (
            step matches SocketStep::Stop(Some(Error::AgentCommunicationError(m))) && m@
                == "Failed to send message"@)),
            queues_took(
                *old(pool),
                *final(pool),
                sandbox_id@,
                match event {
                    SocketEvent::Data(bytes) => sent_if(
                        step is Continue,
                        ServerMessageView::PtyInput { pty_id: pty_id@, data: bytes@ },
                    ),
                    _ => Seq::empty(),
                },
            ),
    {
        match event {
            SocketEvent::Data(bytes) => match self.send_input(pool, sandbox_id, pty_id, bytes) {
                Ok(()) => SocketStep::Continue,
                Err(e) => SocketStep::Stop(Some(e)),
            },
            SocketEvent::Other => SocketStep::Continue,
            SocketEvent::Close => SocketStep::Stop(None),
            SocketEvent::Failed => SocketStep::Stop(None),
        }
    }
}

/// What an agent answers at capacity is read as the limit: the failure that
/// an agent reports with the words of the limit reaches the caller of the
/// service as the limit itself.
pub proof fn lemma_limit_is_told(correlation_id: Seq<char>, pty_id: Seq<char>)
    ensures
        pty_answer(
            ResponseView::of_wire(
                correlation_id,
                Some(crate::agent_connection::failed(limit_words())),
            ),
            pty_id,
        ) == PtyAnswer::LimitExceeded,
{
}

/// What an agent answers about a terminal that it does not hold is read as
/// not found: after a terminal was killed, a request to resize it reaches
/// the caller of the service as not found.
pub proof fn lemma_not_found_is_told(correlation_id: Seq<char>, pty_id: Seq<char>)
    ensures
        pty_answer(
            ResponseView::of_wire(
                correlation_id,
                Some(crate::agent_connection::failed(not_found_words(pty_id))),
            ),
            pty_id,
        ) == PtyAnswer::NotFound,
{
    reveal_strlit("PTY limit exceeded");
    reveal_strlit("PTY not found: ");
    assert(not_found_words(pty_id)[3] == ' ');
    assert(limit_words()[3] == ' ');
    assert(not_found_words(pty_id)[4] != limit_words()[4]);
}

/// An acknowledgment is read as done.
pub proof fn lemma_done_is_told(correlation_id: Seq<char>, pty_id: Seq<char>)
    ensures
        pty_answer(
            ResponseView::of_wire(correlation_id, Some(crate::agent_connection::done())),
            pty_id,
        ) == PtyAnswer::Done,
{
}

} // verus!
