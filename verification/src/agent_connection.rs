//! The agent's side of the stream: the handshake, the heartbeat, the
//! backoff between connections, and what the agent does with each frame of
//! the server.

use vstd::prelude::*;
use vstd::arithmetic::power2::{lemma2_to64, lemma_pow2_strictly_increases, pow2};
use crate::error::Error;
use crate::executor::{CollectedOutput, KillTarget};
use crate::proto::{
    AgentMessage, AgentMessageView, OutcomeView, ServerMessage, ServerMessageView, ServerPayload,
};
use crate::pty_manager::{default_shell, PtyManager, PtySpawn, PtyView, DEFAULT_MAX_PTYS};
use crate::sandbox::opt_text;
use crate::string_map::StringMap;
use crate::strings::{concat2, texts};

verus! {

/// How often the agent sends a heartbeat, in milliseconds.
pub const HEARTBEAT_INTERVAL_MS: u64 = 30000;

/// The wait before the first reconnect, in milliseconds.
pub const RECONNECT_INITIAL_DELAY_MS: u64 = 1000;

/// The longest wait between two connections, in milliseconds.
pub const RECONNECT_MAX_DELAY_MS: u64 = 60000;

/// How long the agent tries to open a stream, in milliseconds.
pub const CONNECT_TIMEOUT_MS: u64 = 30000;

/// How long the agent waits for the answer to its handshake, in
/// milliseconds.
pub const HANDSHAKE_TIMEOUT_MS: u64 = 10000;

/// The code of an error that the agent reports.
pub const AGENT_ERROR_CODE: i32 = 1;

/// The wait after so many failed connections: one second, doubled with each
/// failure, and never more than a minute.
pub open spec fn backoff(failures: nat) -> u64
    decreases failures,
{
    if failures == 0 {
        RECONNECT_INITIAL_DELAY_MS
    } else {
        next_delay(backoff((failures - 1) as nat))
    }
}

/// The wait that follows a wait: twice as long, up to the longest.
pub open spec fn next_delay(delay: u64) -> u64 {
    if delay * 2 <= RECONNECT_MAX_DELAY_MS {
        (delay * 2) as u64
    } else {
        RECONNECT_MAX_DELAY_MS
    }
}

/// The wait that follows a wait.
pub fn next_reconnect_delay(delay: u64) -> (next: u64)
    ensures
        next == next_delay(delay),
{
    if delay <= RECONNECT_MAX_DELAY_MS / 2 {
        delay * 2
    } else {
        RECONNECT_MAX_DELAY_MS
    }
}

/// What came in answer to the handshake.
#[derive(Debug)]
pub enum HandshakeReply {
    /// A frame of the server.
    Frame(ServerMessage),
    /// The stream failed, with this message.
    Failed(String),
    /// The stream ended.
    Ended,
    /// Nothing came in time.
    TimedOut,
}

/// How a connection ended.
#[derive(Debug, Clone, Copy, PartialEq, Eq, Structural)]
pub enum ConnectionEnd {
    /// The server ended the stream.
    Closed,
    /// The connection could not be made, the handshake failed, or the
    /// stream failed.
    Failed,
    /// The agent was told to shut down.
    Shutdown,
}

/// What the agent does after a connection ended.
#[derive(Debug, Clone, Copy, PartialEq, Eq, Structural)]
pub enum RunStep {
    /// Stop.
    Stop,
    /// Wait so many milliseconds, then connect again.
    Reconnect { after_ms: u64 },
}

/// What the agent does after a connection ended, when `delay` is the wait
/// that is due: only an order to shut down stops it; after any other end it
/// connects again, after the wait.
pub open spec fn run_step(delay: u64, end: ConnectionEnd) -> RunStep {
    if end == ConnectionEnd::Shutdown {
        RunStep::Stop
    } else {
        RunStep::Reconnect { after_ms: delay }
    }
}

/// The wait that is due after a connection ended, when `delay` was due
/// before: every end but an order to shut down doubles it, up to the
/// longest.
pub open spec fn run_delay(delay: u64, end: ConnectionEnd) -> u64 {
    if end == ConnectionEnd::Shutdown {
        delay
    } else {
        next_delay(delay)
    }
}

/// What was noticed about a frame that asks for nothing.
#[derive(Debug, Clone, Copy, PartialEq, Eq, Structural)]
pub enum Notice {
    /// The server answered a heartbeat.
    HeartbeatAcknowledged,
    /// A handshake acknowledgment after the handshake.
    UnexpectedHandshakeAck,
    /// A frame without payload.
    EmptyMessage,
    /// Input for a terminal that is not open.
    UnknownPty,
}

/// What the runner of the agent has to do for a frame of the server.
pub enum AgentTask {
    /// Run the command in a task of its own, collect its output, and send
    /// what `command_response` makes of the outcome.
    RunCommand {
        correlation_id: String,
        command: String,
        args: Vec<String>,
        env: StringMap,
        cwd: Option<String>,
    },
    /// Deliver the signal, whether or not the process exists, then send the
    /// reply.
    Signal { target: KillTarget, reply: AgentMessage },
    /// Open a terminal and start the shell in it with these variables, then
    /// send what `pty_opened` makes of the outcome.
    OpenPty { correlation_id: String, pty_id: String, spawn: PtySpawn, env: StringMap },
    /// Tell the master side of the terminal its new size, then send what
    /// `acknowledgment` makes of the outcome.
    ResizePty { correlation_id: String, pty_id: String, cols: u16, rows: u16 },
    /// Drop the master side of the terminal, which closes it and reaps its
    /// child, then send the reply.
    ClosePty { pty_id: String, reply: AgentMessage },
    /// Write all the bytes to the master side of the terminal.
    WritePty { pty_id: String, data: Vec<u8> },
    /// Send the reply.
    Reply(AgentMessage),
    /// Nothing to do.
    Nothing(Notice),
}

/// The frame that reports the outcome of a request.
pub open spec fn response_view(correlation_id: Seq<char>, result: OutcomeView) -> Option<
    AgentMessageView,
> {
    Some(AgentMessageView::CommandResponse { correlation_id, result: Some(result) })
}

/// The outcome that says: done.
pub open spec fn done() -> OutcomeView {
    OutcomeView::Success { exit_code: 0, stdout: Seq::empty(), stderr: Seq::empty() }
}

/// The outcome that says: failed, with this message.
pub open spec fn failed(message: Seq<char>) -> OutcomeView {
    OutcomeView::Error { code: AGENT_ERROR_CODE, message }
}

/// The low sixteen bits of a size on the wire.
pub open spec fn low16(value: u32) -> u16 {
    (value % 0x10000) as u16
}

/// The low sixteen bits of a size on the wire.
pub fn size_of(value: u32) -> (size: u16)
    ensures
        size == low16(value),
{
    (value % 0x10000) as u16
}

/// The frame that reports the outcome of a command: its exit code and its
/// output, or the failure to run it. The frame echoes the correlation id of
/// the request.
pub fn command_response(correlation_id: String, outcome: Result<CollectedOutput, String>) -> (frame:
    AgentMessage)
    ensures
        frame@ == response_view(
            correlation_id@,
            match outcome {
                Ok(out) => OutcomeView::Success {
                    exit_code: out.exit_code,
                    stdout: out.stdout@,
                    stderr: out.stderr@,
                },
                Err(message) => failed(message@),
            },
        ),
{
    match outcome {
        Ok(out) => AgentMessage::success(correlation_id, out.exit_code, out.stdout, out.stderr),
        Err(message) => AgentMessage::failure(correlation_id, AGENT_ERROR_CODE, message),
    }
}

/// The frame that reports the outcome of a request that returns nothing:
/// done, or the failure. The frame echoes the correlation id of the request.
pub fn acknowledgment(correlation_id: String, outcome: Result<(), String>) -> (frame: AgentMessage)
    ensures
        frame@ == response_view(
            correlation_id@,
            match outcome {
                Ok(()) => done(),
                Err(message) => failed(message@),
            },
        ),
{
    match outcome {
        Ok(()) => AgentMessage::success(correlation_id, 0, String::new(), String::new()),
        Err(message) => AgentMessage::failure(correlation_id, AGENT_ERROR_CODE, message),
    }
}

/// Connection manager for communicating with the server.
pub struct ConnectionManager {
    server_addr: String,
    sandbox_id: String,
    pty_manager: PtyManager,
    connected: bool,
    reconnect_delay_ms: u64,
}

impl ConnectionManager {
    /// The address of the server.
    pub closed spec fn server_addr_spec(&self) -> Seq<char> {
        self.server_addr@
    }

    /// The sandbox that the agent serves.
    pub closed spec fn sandbox_id_spec(&self) -> Seq<char> {
        self.sandbox_id@
    }

    /// Whether the agent has shaken hands on its current stream.
    pub closed spec fn connected_spec(&self) -> bool {
        self.connected
    }

    /// The wait before the next connection, in milliseconds.
    pub closed spec fn delay_spec(&self) -> u64 {
        self.reconnect_delay_ms
    }

    /// The terminals that are open.
    pub closed spec fn ptys(&self) -> Map<Seq<char>, PtyView> {
        self.pty_manager@
    }

    /// The number of terminals that are open.
    pub closed spec fn pty_count(&self) -> nat {
        self.pty_manager.count()
    }

    /// The most terminals that may be open.
    pub closed spec fn pty_capacity(&self) -> usize {
        self.pty_manager.capacity()
    }

    /// Create a new connection manager: not connected, with no terminal
    /// open and room for sixteen, and a first wait of one second.
    pub fn new(server_addr: String, sandbox_id: String) -> (manager: Self)
        ensures
            manager.server_addr_spec() == server_addr@,
            manager.sandbox_id_spec() == sandbox_id@,
            !manager.connected_spec(),
            manager.delay_spec() == backoff(0),
            manager.ptys() == Map::<Seq<char>, PtyView>::empty(),
            manager.pty_count() == 0,
            manager.pty_capacity() == DEFAULT_MAX_PTYS,
    {
        ConnectionManager {
            server_addr,
            sandbox_id,
            pty_manager: PtyManager::new(DEFAULT_MAX_PTYS),
            connected: false,
            reconnect_delay_ms: RECONNECT_INITIAL_DELAY_MS,
        }
    }

    /// The address of the server.
    pub fn server_addr(&self) -> (addr: &String)
        ensures
            addr@ == self.server_addr_spec(),
    {
        &self.server_addr
    }

    /// Whether the agent has shaken hands on its current stream.
    pub fn is_connected(&self) -> (connected: bool)
        ensures
            connected == self.connected_spec(),
    {
        self.connected
    }

    /// The frame that opens a stream: the handshake for the agent's sandbox.
    pub fn handshake(&self, version: &str) -> (frame: AgentMessage)
        ensures
            frame@ == Some(
                AgentMessageView::Handshake {
                    sandbox_id: self.sandbox_id_spec(),
                    version: version@,
                },
            ),
    {
        AgentMessage::handshake(self.sandbox_id.clone(), version.to_owned())
    }

    /// The heartbeat frame for the given time, in milliseconds.
    pub fn heartbeat(&self, now_ms: u64) -> (frame: AgentMessage)
        ensures
            frame@ == Some(AgentMessageView::Heartbeat { timestamp: now_ms }),
    {
        AgentMessage::heartbeat(now_ms)
    }

    /// Takes the answer to the handshake. Only a successful acknowledgment
    /// connects the agent; anything else closes the stream.
    pub fn handshake_reply(&mut self, reply: HandshakeReply) -> (result: Result<(), Error>)
        ensures
            final(self).sandbox_id_spec() == old(self).sandbox_id_spec(),
            final(self).server_addr_spec() == old(self).server_addr_spec(),
            final(self).delay_spec() == old(self).delay_spec(),
            final(self).ptys() == old(self).ptys(),
            final(self).connected_spec() == result is Ok,
            match reply {
                HandshakeReply::Frame(frame) => match frame@ {
                    Some(ServerMessageView::HandshakeAck { success, error }) => if success {
                        result is Ok
                    } else {
                        result matches Err(Error::AgentCommunicationError(m)) && m@
                            == "Handshake failed: "@ + (match error {
                            Some(text) => text,
                            None => "Unknown error"@,
                        })
                    },
                    _ => result matches Err(Error::AgentCommunicationError(m)) && m@
                        == "Unexpected response to handshake"@,
                },
                HandshakeReply::Failed(cause) => result matches Err(
                    Error::AgentCommunicationError(m),
                ) && m@ == cause@,
                HandshakeReply::Ended => result matches Err(Error::AgentCommunicationError(m))
                    && m@ == "No handshake response"@,
                HandshakeReply::TimedOut => result == Err::<(), Error>(
                    Error::AgentConnectionTimeout,
                ),
            },
    {
        let result = match reply {
            HandshakeReply::Frame(frame) => match frame.message {
                Some(ServerPayload::HandshakeAck(ack)) => {
                    if ack.success {
                        Ok(())
                    } else {
                        let detail = match ack.error {
                            Some(text) => text,
                            None => "Unknown error".to_owned(),
                        };
                        Err(
                            Error::AgentCommunicationError(
                                concat2("Handshake failed: ", detail.as_str()),
                            ),
                        )
                    }
                },
                _ => Err(
                    Error::AgentCommunicationError("Unexpected response to handshake".to_owned()),
                ),
            },
            HandshakeReply::Failed(cause) => Err(Error::AgentCommunicationError(cause)),
            HandshakeReply::Ended => Err(
                Error::AgentCommunicationError("No handshake response".to_owned()),
            ),
            HandshakeReply::TimedOut => Err(Error::AgentConnectionTimeout),
        };
        self.connected = result.is_ok();
        result
    }

    /// Takes the end of a connection and says how the agent goes on. Only
    /// an order to shut down stops the agent. However else the connection
    /// ended, whether the stream closed in good order, failed, or could not
    /// be made, the agent waits and connects again; each such end doubles
    /// the wait, up to one minute.
    pub fn connection_ended(&mut self, end: ConnectionEnd) -> (step: RunStep)
        ensures
            final(self).sandbox_id_spec() == old(self).sandbox_id_spec(),
            final(self).server_addr_spec() == old(self).server_addr_spec(),
            final(self).ptys() == old(self).ptys(),
            !final(self).connected_spec(),
            step == run_step(old(self).delay_spec(), end),
            final(self).delay_spec() == run_delay(old(self).delay_spec(), end),
    {
        self.connected = false;
        match end {
            ConnectionEnd::Shutdown => RunStep::Stop,
            _ => {
                let after_ms = self.reconnect_delay_ms;
                self.reconnect_delay_ms = next_reconnect_delay(after_ms);
                RunStep::Reconnect { after_ms }
            },
        }
    }

    /// Takes the outcome of opening a terminal. A terminal that could not be
    /// opened is taken out of the table again.
    pub fn pty_opened(&mut self, correlation_id: String, pty_id: &str, outcome: Result<(), String>) -> (frame:
        AgentMessage)
        ensures
            final(self).sandbox_id_spec() == old(self).sandbox_id_spec(),
            final(self).server_addr_spec() == old(self).server_addr_spec(),
            final(self).delay_spec() == old(self).delay_spec(),
            final(self).connected_spec() == old(self).connected_spec(),
            final(self).pty_capacity() == old(self).pty_capacity(),
            match outcome {
                Ok(()) => frame@ == response_view(correlation_id@, done()) && final(self).ptys()
                    == old(self).ptys(),
                Err(message) => frame@ == response_view(correlation_id@, failed(message@))
                    && final(self).ptys() == old(self).ptys().remove(pty_id@),
            },
    {
        match &outcome {
            Ok(()) => {},
            Err(_) => {
                let _ = self.pty_manager.kill(pty_id);
            },
        }
        acknowledgment(correlation_id, outcome)
    }
}

impl ConnectionManager {
    /// Takes a frame of the server and says what the agent does for it.
    ///
    /// - A command is to be run.
    /// - A kill request names its target, and is answered as done whether or
    ///   not the process exists; a signal number that is no signal is
    ///   answered as failed.
    /// - A request for a terminal is refused at capacity; else the terminal
    ///   is entered in the table and is to be opened.
    /// - A request to resize or kill a terminal that is not open is answered
    ///   as failed; else the table is changed and the runner does its part.
    /// - Input for a terminal is to be written to it; input for a terminal
    ///   that is not open is dropped without an answer.
    /// - Acknowledgments and empty frames ask for nothing.
    ///
    /// Every answer echoes the correlation id of its request.
    pub fn handle(&mut self, message: ServerMessage) -> (task: AgentTask)
        ensures
            final(self).sandbox_id_spec() == old(self).sandbox_id_spec(),
            final(self).server_addr_spec() == old(self).server_addr_spec(),
            final(self).delay_spec() == old(self).delay_spec(),
            final(self).connected_spec() == old(self).connected_spec(),
            final(self).pty_capacity() == old(self).pty_capacity(),
            match message@ {
                None => final(self).ptys() == old(self).ptys() && (task matches AgentTask::Nothing(
                    note,
                ) && note == Notice::EmptyMessage),
                Some(ServerMessageView::HandshakeAck { .. }) => final(self).ptys() == old(self).ptys() && (task matches AgentTask::Nothing(note) && note
                    == Notice::UnexpectedHandshakeAck),
                Some(ServerMessageView::HeartbeatAck { .. }) => final(self).ptys() == old(self).ptys() && (task matches AgentTask::Nothing(note) && note
                    == Notice::HeartbeatAcknowledged),
                Some(
                    ServerMessageView::RunCommand {
                        correlation_id,
                        command,
                        args,
                        env,
                        cwd,
                        timeout_ms,
                        stream,
                    },
                ) => final(self).ptys() == old(self).ptys() && (task matches AgentTask::RunCommand {
                    correlation_id: c,
                    command: cmd,
                    args: a,
                    env: e,
                    cwd: w,
                } && c@ == correlation_id && cmd@ == command && texts(a@) == args && e.pairs() == env
                    && opt_text(w) == cwd),
                Some(ServerMessageView::KillProcess { correlation_id, pid, signal }) => final(self).ptys() == old(self).ptys() && match task {
                    AgentTask::Signal { target, reply } => target.pid == crate::executor::raw_pid(pid)
                        && target.signal == signal
                        && reply@ == response_view(correlation_id, done()),
                    AgentTask::Reply(reply) => reply@ == response_view(
                        correlation_id,
                        failed("Invalid parameter: "@ + "Invalid signal"@),
                    ),
                    _ => false,
                },
                Some(
                    ServerMessageView::CreatePty { correlation_id, pty_id, cols, rows, shell, env },
                ) => if old(self).pty_count() >= old(self).pty_capacity() {
                    final(self).ptys() == old(self).ptys() && (task matches AgentTask::Reply(reply)
                        && reply@ == response_view(correlation_id, failed("PTY limit exceeded"@)))
                } else {
                    (task matches AgentTask::OpenPty { correlation_id: c, pty_id: p, spawn, env: e }
                        && c@ == correlation_id && p@ == pty_id && spawn.cols == low16(cols)
                        && spawn.rows == low16(rows) && spawn.shell@ == (match shell {
                        Some(s) => s,
                        None => default_shell(),
                    }) && e.pairs() == env && final(self).ptys() == old(self).ptys().insert(
                        pty_id,
                        PtyView { cols: low16(cols), rows: low16(rows), shell: spawn.shell@ },
                    ))
                },
                Some(ServerMessageView::ResizePty { correlation_id, pty_id, cols, rows }) => if old(self).ptys().contains_key(pty_id) {
                    (task matches AgentTask::ResizePty { correlation_id: c, pty_id: p, cols: x, rows: y }
                        && c@ == correlation_id && p@ == pty_id && x == low16(cols) && y == low16(
                        rows,
                    )) && final(self).ptys() == old(self).ptys().insert(
                        pty_id,
                        PtyView {
                            cols: low16(cols),
                            rows: low16(rows),
                            shell: old(self).ptys()[pty_id].shell,
                        },
                    )
                } else {
                    final(self).ptys() == old(self).ptys() && (task matches AgentTask::Reply(reply)
                        && reply@ == response_view(
                        correlation_id,
                        failed("PTY not found: "@ + pty_id),
                    ))
                },
                Some(ServerMessageView::KillPty { correlation_id, pty_id }) => if old(self).ptys().contains_key(pty_id) {
                    (task matches AgentTask::ClosePty { pty_id: p, reply } && p@ == pty_id && reply@
                        == response_view(correlation_id, done())) && final(self).ptys() == old(self).ptys().remove(pty_id)
                } else {
                    final(self).ptys() == old(self).ptys() && (task matches AgentTask::Reply(reply)
                        && reply@ == response_view(
                        correlation_id,
                        failed("PTY not found: "@ + pty_id),
                    ))
                },
                Some(ServerMessageView::PtyInput { pty_id, data }) => final(self).ptys() == old(self).ptys() && if old(self).ptys().contains_key(pty_id) {
                    task matches AgentTask::WritePty { pty_id: p, data: d } && p@ == pty_id && d@
                        == data
                } else {
                    task matches AgentTask::Nothing(note) && note == Notice::UnknownPty
                },
            },
    {
        match message.message {
            None => AgentTask::Nothing(Notice::EmptyMessage),
            Some(ServerPayload::HandshakeAck(_)) => AgentTask::Nothing(
                Notice::UnexpectedHandshakeAck,
            ),
            Some(ServerPayload::HeartbeatAck(_)) => AgentTask::Nothing(
                Notice::HeartbeatAcknowledged,
            ),
            Some(ServerPayload::RunCommand(req)) => AgentTask::RunCommand {
                correlation_id: req.correlation_id,
                command: req.command,
                args: req.args,
                env: req.env,
                cwd: req.cwd,
            },
            Some(ServerPayload::KillProcess(req)) => {
                match crate::executor::kill_process(req.pid, req.signal) {
                    Ok(target) => AgentTask::Signal {
                        target,
                        reply: acknowledgment(req.correlation_id, Ok(())),
                    },
                    Err(e) => AgentTask::Reply(acknowledgment(req.correlation_id, Err(e.message()))),
                }
            },
            Some(ServerPayload::CreatePty(req)) => {
                let shell: Option<&str> = match &req.shell {
                    Some(s) => Some(s.as_str()),
                    None => None,
                };
                match self.pty_manager.create(
                    req.pty_id.clone(),
                    size_of(req.cols),
                    size_of(req.rows),
                    shell,
                ) {
                    Ok(spawn) => AgentTask::OpenPty {
                        correlation_id: req.correlation_id,
                        pty_id: req.pty_id,
                        spawn,
                        env: req.env,
                    },
                    Err(e) => AgentTask::Reply(acknowledgment(req.correlation_id, Err(e.message()))),
                }
            },
            Some(ServerPayload::ResizePty(req)) => {
                let cols = size_of(req.cols);
                let rows = size_of(req.rows);
                match self.pty_manager.resize(req.pty_id.as_str(), cols, rows) {
                    Ok(()) => AgentTask::ResizePty {
                        correlation_id: req.correlation_id,
                        pty_id: req.pty_id,
                        cols,
                        rows,
                    },
                    Err(e) => AgentTask::Reply(acknowledgment(req.correlation_id, Err(e.message()))),
                }
            },
            Some(ServerPayload::KillPty(req)) => {
                match self.pty_manager.kill(req.pty_id.as_str()) {
                    Ok(()) => AgentTask::ClosePty {
                        pty_id: req.pty_id,
                        reply: acknowledgment(req.correlation_id, Ok(())),
                    },
                    Err(e) => AgentTask::Reply(acknowledgment(req.correlation_id, Err(e.message()))),
                }
            },
            Some(ServerPayload::PtyInput(req)) => {
                match self.pty_manager.write(req.pty_id.as_str(), req.data.as_slice()) {
                    Ok(_) => AgentTask::WritePty { pty_id: req.pty_id, data: req.data },
                    Err(_) => AgentTask::Nothing(Notice::UnknownPty),
                }
            },
        }
    }
}

/// The wait that is due after the ends of a sequence of connections, first
/// to last, when `delay` was due before them.
pub open spec fn delay_through(delay: u64, ends: Seq<ConnectionEnd>) -> u64
    decreases ends.len(),
{
    if ends.len() == 0 {
        delay
    } else {
        run_delay(delay_through(delay, ends.drop_last()), ends.last())
    }
}

/// An agent reconnects for ever, with the waits of the backoff, and only an
/// order to shut down stops it. After any number of connections that ended
/// without such an order, whether they closed, failed or could not be made,
/// the agent answers the next such end by connecting again, after a wait of
/// one second doubled once for each end before, and never more than a
/// minute: 1, 2, 4, 8, 16, 32 seconds, then 60. An order to shut down is
/// answered by stopping, whatever came before.
pub proof fn lemma_agent_reconnects_with_backoff(ends: Seq<ConnectionEnd>, end: ConnectionEnd)
    requires
        forall|i: int| 0 <= i < ends.len() ==> ends[i] != ConnectionEnd::Shutdown,
    ensures
        delay_through(RECONNECT_INITIAL_DELAY_MS, ends) == backoff(ends.len()),
        backoff(ends.len()) == (if 1000 * pow2(ends.len()) <= 60000 {
            1000 * pow2(ends.len())
        } else {
            60000
        }),
        end != ConnectionEnd::Shutdown ==> run_step(
            delay_through(RECONNECT_INITIAL_DELAY_MS, ends),
            end,
        ) == (RunStep::Reconnect { after_ms: backoff(ends.len()) }),
        run_step(delay_through(RECONNECT_INITIAL_DELAY_MS, ends), ConnectionEnd::Shutdown)
            == RunStep::Stop,
    decreases ends.len(),
{
    let n = ends.len();
    if n > 0 {
        lemma_agent_reconnects_with_backoff(ends.drop_last(), end);
    }
    lemma_backoff_values(n);
    lemma2_to64();
    if n >= 6 {
        if n > 6 {
            lemma_pow2_strictly_increases(6, n);
        }
        assert(pow2(n) >= 64);
    }
}

/// The waits between connections never exceed one minute, and never
/// shrink: the agent comes back within the bound, however often it failed.
pub proof fn lemma_backoff_bounded(failures: nat)
    ensures
        RECONNECT_INITIAL_DELAY_MS <= backoff(failures) <= RECONNECT_MAX_DELAY_MS,
        backoff(failures) <= backoff(failures + 1),
    decreases failures,
{
    if failures > 0 {
        lemma_backoff_bounded((failures - 1) as nat);
    }
    assert(backoff(failures + 1) == next_delay(backoff(failures)));
}

/// The waits are 1, 2, 4, 8, 16 and 32 seconds, and one minute from then on.
pub proof fn lemma_backoff_values(failures: nat)
    ensures
        backoff(0) == 1000,
        backoff(1) == 2000,
        backoff(2) == 4000,
        backoff(3) == 8000,
        backoff(4) == 16000,
        backoff(5) == 32000,
        failures >= 6 ==> backoff(failures) == 60000,
    decreases failures,
{
    reveal_with_fuel(backoff, 8);
    if failures > 6 {
        lemma_backoff_values((failures - 1) as nat);
    }
}

} // verus!
