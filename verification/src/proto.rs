//! The messages of the agent stream, in both directions, as they go over the
//! wire: flat tagged unions, one variant per kind of message.

use vstd::prelude::*;
use crate::sandbox::opt_text;
use crate::string_map::StringMap;
use crate::strings::texts;

verus! {

/// First message of an agent: which sandbox it serves, and its version.
#[derive(Debug, Clone, PartialEq, Eq)]
pub struct AgentHandshake {
    pub sandbox_id: String,
    pub version: String,
}

/// Periodic sign of life of an agent.
#[derive(Debug, Clone, PartialEq, Eq)]
pub struct AgentHeartbeat {
    pub timestamp: u64,
}

/// A command ran: its exit code and what it wrote.
#[derive(Debug, Clone, PartialEq, Eq)]
pub struct AgentCommandSuccess {
    pub exit_code: i32,
    pub stdout: String,
    pub stderr: String,
}

/// A command could not be run.
#[derive(Debug, Clone, PartialEq, Eq)]
pub struct AgentCommandError {
    pub code: i32,
    pub message: String,
}

/// The two ways a request can end.
#[derive(Debug, Clone, PartialEq, Eq)]
pub enum AgentCommandOutcome {
    Success(AgentCommandSuccess),
    Error(AgentCommandError),
}

/// Answer of an agent to a request; it echoes the request's correlation id.
#[derive(Debug, Clone, PartialEq, Eq)]
pub struct AgentCommandResponse {
    pub correlation_id: String,
    pub result: Option<AgentCommandOutcome>,
}

/// Bytes that a PTY produced.
#[derive(Debug, Clone, PartialEq, Eq)]
pub struct AgentPtyOutput {
    pub pty_id: String,
    pub data: Vec<u8>,
}

/// What an agent can send.
#[derive(Debug, Clone, PartialEq, Eq)]
pub enum AgentPayload {
    Handshake(AgentHandshake),
    Heartbeat(AgentHeartbeat),
    CommandResponse(AgentCommandResponse),
    PtyOutput(AgentPtyOutput),
}

/// A frame from agent to server; an empty frame holds no payload.
#[derive(Debug, Clone, PartialEq, Eq)]
pub struct AgentMessage {
    pub message: Option<AgentPayload>,
}

/// Answer to a handshake.
#[derive(Debug, Clone, PartialEq, Eq)]
pub struct ServerHandshakeAck {
    pub success: bool,
    pub error: Option<String>,
}

/// Answer to a heartbeat; it echoes the heartbeat's timestamp.
#[derive(Debug, Clone, PartialEq, Eq)]
pub struct ServerHeartbeatAck {
    pub timestamp: u64,
}

#[derive(Debug, Clone, PartialEq, Eq)]
pub struct AgentRunCommandRequest {
    pub correlation_id: String,
    pub command: String,
    pub args: Vec<String>,
    pub env: StringMap,
    pub cwd: Option<String>,
    pub timeout_ms: u64,
    pub stream: bool,
}

#[derive(Debug, Clone, PartialEq, Eq)]
pub struct AgentKillProcessRequest {
    pub correlation_id: String,
    pub pid: u32,
    pub signal: i32,
}

#[derive(Debug, Clone, PartialEq, Eq)]
pub struct AgentCreatePtyRequest {
    pub correlation_id: String,
    pub pty_id: String,
    pub cols: u32,
    pub rows: u32,
    pub shell: Option<String>,
    pub env: StringMap,
}

#[derive(Debug, Clone, PartialEq, Eq)]
pub struct AgentResizePtyRequest {
    pub correlation_id: String,
    pub pty_id: String,
    pub cols: u32,
    pub rows: u32,
}

#[derive(Debug, Clone, PartialEq, Eq)]
pub struct AgentKillPtyRequest {
    pub correlation_id: String,
    pub pty_id: String,
}

#[derive(Debug, Clone, PartialEq, Eq)]
pub struct AgentPtyInput {
    pub pty_id: String,
    pub data: Vec<u8>,
}

/// What the server can send.
#[derive(Debug, Clone, PartialEq, Eq)]
pub enum ServerPayload {
    HandshakeAck(ServerHandshakeAck),
    HeartbeatAck(ServerHeartbeatAck),
    RunCommand(AgentRunCommandRequest),
    KillProcess(AgentKillProcessRequest),
    CreatePty(AgentCreatePtyRequest),
    ResizePty(AgentResizePtyRequest),
    KillPty(AgentKillPtyRequest),
    PtyInput(AgentPtyInput),
}

/// A frame from server to agent; an empty frame holds no payload.
#[derive(Debug, Clone, PartialEq, Eq)]
pub struct ServerMessage {
    pub message: Option<ServerPayload>,
}

/// How a request ended, as plain values.
pub enum OutcomeView {
    Success { exit_code: i32, stdout: Seq<char>, stderr: Seq<char> },
    Error { code: i32, message: Seq<char> },
}

/// A message from agent to server, as plain values.
pub enum AgentMessageView {
    Handshake { sandbox_id: Seq<char>, version: Seq<char> },
    Heartbeat { timestamp: u64 },
    CommandResponse { correlation_id: Seq<char>, result: Option<OutcomeView> },
    PtyOutput { pty_id: Seq<char>, data: Seq<u8> },
}

/// A message from server to agent, as plain values.
pub enum ServerMessageView {
    HandshakeAck { success: bool, error: Option<Seq<char>> },
    HeartbeatAck { timestamp: u64 },
    RunCommand {
        correlation_id: Seq<char>,
        command: Seq<char>,
        args: Seq<Seq<char>>,
        env: Seq<(Seq<char>, Seq<char>)>,
        cwd: Option<Seq<char>>,
        timeout_ms: u64,
        stream: bool,
    },
    KillProcess { correlation_id: Seq<char>, pid: u32, signal: i32 },
    CreatePty {
        correlation_id: Seq<char>,
        pty_id: Seq<char>,
        cols: u32,
        rows: u32,
        shell: Option<Seq<char>>,
        env: Seq<(Seq<char>, Seq<char>)>,
    },
    ResizePty { correlation_id: Seq<char>, pty_id: Seq<char>, cols: u32, rows: u32 },
    KillPty { correlation_id: Seq<char>, pty_id: Seq<char> },
    PtyInput { pty_id: Seq<char>, data: Seq<u8> },
}

impl ServerMessageView {
    /// The correlation id of a request-style message. Acknowledgements and PTY
    /// input carry none.
    pub open spec fn correlation_id(self) -> Option<Seq<char>> {
        match self {
            ServerMessageView::RunCommand { correlation_id, .. } => Some(correlation_id),
            ServerMessageView::KillProcess { correlation_id, .. } => Some(correlation_id),
            ServerMessageView::CreatePty { correlation_id, .. } => Some(correlation_id),
            ServerMessageView::ResizePty { correlation_id, .. } => Some(correlation_id),
            ServerMessageView::KillPty { correlation_id, .. } => Some(correlation_id),
            _ => None,
        }
    }
}

impl View for AgentCommandOutcome {
    type V = OutcomeView;

    open spec fn view(&self) -> OutcomeView {
        match self {
            AgentCommandOutcome::Success(s) => OutcomeView::Success {
                exit_code: s.exit_code,
                stdout: s.stdout@,
                stderr: s.stderr@,
            },
            AgentCommandOutcome::Error(e) => OutcomeView::Error { code: e.code, message: e.message@ },
        }
    }
}

/// The outcome of an optional result.
pub open spec fn opt_outcome(result: Option<AgentCommandOutcome>) -> Option<OutcomeView> {
    match result {
        Some(r) => Some(r@),
        None => None,
    }
}

impl View for AgentPayload {
    type V = AgentMessageView;

    open spec fn view(&self) -> AgentMessageView {
        match self {
            AgentPayload::Handshake(h) => AgentMessageView::Handshake {
                sandbox_id: h.sandbox_id@,
                version: h.version@,
            },
            AgentPayload::Heartbeat(h) => AgentMessageView::Heartbeat { timestamp: h.timestamp },
            AgentPayload::CommandResponse(r) => AgentMessageView::CommandResponse {
                correlation_id: r.correlation_id@,
                result: opt_outcome(r.result),
            },
            AgentPayload::PtyOutput(o) => AgentMessageView::PtyOutput {
                pty_id: o.pty_id@,
                data: o.data@,
            },
        }
    }
}

impl View for AgentMessage {
    type V = Option<AgentMessageView>;

    open spec fn view(&self) -> Option<AgentMessageView> {
        match self.message {
            Some(p) => Some(p@),
            None => None,
        }
    }
}

impl View for ServerPayload {
    type V = ServerMessageView;

    open spec fn view(&self) -> ServerMessageView {
        match self {
            ServerPayload::HandshakeAck(a) => ServerMessageView::HandshakeAck {
                success: a.success,
                error: opt_text(a.error),
            },
            ServerPayload::HeartbeatAck(a) => ServerMessageView::HeartbeatAck {
                timestamp: a.timestamp,
            },
            ServerPayload::RunCommand(r) => ServerMessageView::RunCommand {
                correlation_id: r.correlation_id@,
                command: r.command@,
                args: texts(r.args@),
                env: r.env.pairs(),
                cwd: opt_text(r.cwd),
                timeout_ms: r.timeout_ms,
                stream: r.stream,
            },
            ServerPayload::KillProcess(r) => ServerMessageView::KillProcess {
                correlation_id: r.correlation_id@,
                pid: r.pid,
                signal: r.signal,
            },
            ServerPayload::CreatePty(r) => ServerMessageView::CreatePty {
                correlation_id: r.correlation_id@,
                pty_id: r.pty_id@,
                cols: r.cols,
                rows: r.rows,
                shell: opt_text(r.shell),
                env: r.env.pairs(),
            },
            ServerPayload::ResizePty(r) => ServerMessageView::ResizePty {
                correlation_id: r.correlation_id@,
                pty_id: r.pty_id@,
                cols: r.cols,
                rows: r.rows,
            },
            ServerPayload::KillPty(r) => ServerMessageView::KillPty {
                correlation_id: r.correlation_id@,
                pty_id: r.pty_id@,
            },
            ServerPayload::PtyInput(i) => ServerMessageView::PtyInput {
                pty_id: i.pty_id@,
                data: i.data@,
            },
        }
    }
}

impl View for ServerMessage {
    type V = Option<ServerMessageView>;

    open spec fn view(&self) -> Option<ServerMessageView> {
        match self.message {
            Some(p) => Some(p@),
            None => None,
        }
    }
}

impl ServerMessage {
    /// The frame that answers a handshake.
    pub fn handshake_ack(success: bool, error: Option<String>) -> (msg: Self)
        ensures
            msg@ == Some(ServerMessageView::HandshakeAck { success, error: opt_text(error) }),
    {
        ServerMessage {
            message: Some(ServerPayload::HandshakeAck(ServerHandshakeAck { success, error })),
        }
    }

    /// The frame that answers a heartbeat, with the heartbeat's own timestamp.
    pub fn heartbeat_ack(timestamp: u64) -> (msg: Self)
        ensures
            msg@ == Some(ServerMessageView::HeartbeatAck { timestamp }),
    {
        ServerMessage {
            message: Some(ServerPayload::HeartbeatAck(ServerHeartbeatAck { timestamp })),
        }
    }
}

impl AgentMessage {
    /// The frame that opens a stream.
    pub fn handshake(sandbox_id: String, version: String) -> (msg: Self)
        ensures
            msg@ == Some(
                AgentMessageView::Handshake { sandbox_id: sandbox_id@, version: version@ },
            ),
    {
        AgentMessage {
            message: Some(AgentPayload::Handshake(AgentHandshake { sandbox_id, version })),
        }
    }

    /// A heartbeat frame with the given time.
    pub fn heartbeat(timestamp: u64) -> (msg: Self)
        ensures
            msg@ == Some(AgentMessageView::Heartbeat { timestamp }),
    {
        AgentMessage { message: Some(AgentPayload::Heartbeat(AgentHeartbeat { timestamp })) }
    }

    /// The frame that reports success of the request with the given id.
    pub fn success(correlation_id: String, exit_code: i32, stdout: String, stderr: String) -> (msg:
        Self)
        ensures
            msg@ == Some(
                AgentMessageView::CommandResponse {
                    correlation_id: correlation_id@,
                    result: Some(
                        OutcomeView::Success { exit_code, stdout: stdout@, stderr: stderr@ },
                    ),
                },
            ),
    {
        AgentMessage {
            message: Some(
                AgentPayload::CommandResponse(
                    AgentCommandResponse {
                        correlation_id,
                        result: Some(
                            AgentCommandOutcome::Success(
                                AgentCommandSuccess { exit_code, stdout, stderr },
                            ),
                        ),
                    },
                ),
            ),
        }
    }

    /// The frame that reports failure of the request with the given id.
    pub fn failure(correlation_id: String, code: i32, message: String) -> (msg: Self)
        ensures
            msg@ == Some(
                AgentMessageView::CommandResponse {
                    correlation_id: correlation_id@,
                    result: Some(OutcomeView::Error { code, message: message@ }),
                },
            ),
    {
        AgentMessage {
            message: Some(
                AgentPayload::CommandResponse(
                    AgentCommandResponse {
                        correlation_id,
                        result: Some(
                            AgentCommandOutcome::Error(AgentCommandError { code, message }),
                        ),
                    },
                ),
            ),
        }
    }

    /// The frame that carries output of a PTY.
    pub fn pty_output(pty_id: String, data: Vec<u8>) -> (msg: Self)
        ensures
            msg@ == Some(AgentMessageView::PtyOutput { pty_id: pty_id@, data: data@ }),
    {
        AgentMessage { message: Some(AgentPayload::PtyOutput(AgentPtyOutput { pty_id, data })) }
    }
}

} // verus!
