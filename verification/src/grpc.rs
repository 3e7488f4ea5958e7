//! The server side of the agent stream: what to do with each frame that an
//! agent sends, from its handshake to the end of the stream.

use vstd::prelude::*;
use tokio::sync::mpsc::Receiver;
use crate::agent_pool::{
    feeds, nothing_accepted, outbound_queue, queue_bound, AgentConnPool, AgentMessageType,
    PoolModel, OUTBOUND_QUEUE_CAPACITY,
};
use crate::proto::{
    AgentCreatePtyRequest, AgentKillProcessRequest, AgentKillPtyRequest, AgentMessage,
    AgentMessageView, AgentPayload, AgentPtyInput, AgentResizePtyRequest, AgentRunCommandRequest,
    ServerHandshakeAck, ServerHeartbeatAck, ServerMessage, ServerMessageView, ServerPayload,
};

verus! {

/// Convert a message of the pool to the frame that goes over the wire. The
/// frame says what the message says, field for field.
pub fn convert_pool_message_to_proto(msg: AgentMessageType) -> (frame: ServerMessage)
    ensures
        frame@ == Some(msg@),
{
    let message = match msg {
        AgentMessageType::RunCommand {
            correlation_id,
            command,
            args,
            env,
            cwd,
            timeout_ms,
            stream,
        } => ServerPayload::RunCommand(
            AgentRunCommandRequest { correlation_id, command, args, env, cwd, timeout_ms, stream },
        ),
        AgentMessageType::KillProcess { correlation_id, pid, signal } => ServerPayload::KillProcess(
            AgentKillProcessRequest { correlation_id, pid, signal },
        ),
        AgentMessageType::CreatePty {
            correlation_id,
            pty_id,
            cols,
            rows,
            shell,
            env,
        } => ServerPayload::CreatePty(
            AgentCreatePtyRequest { correlation_id, pty_id, cols, rows, shell, env },
        ),
        AgentMessageType::ResizePty { correlation_id, pty_id, cols, rows } => ServerPayload::ResizePty(
            AgentResizePtyRequest { correlation_id, pty_id, cols, rows },
        ),
        AgentMessageType::KillPty { correlation_id, pty_id } => ServerPayload::KillPty(
            AgentKillPtyRequest { correlation_id, pty_id },
        ),
        AgentMessageType::PtyInput { pty_id, data } => ServerPayload::PtyInput(
            AgentPtyInput { pty_id, data },
        ),
        AgentMessageType::HandshakeAck { success, error } => ServerPayload::HandshakeAck(
            ServerHandshakeAck { success, error },
        ),
        AgentMessageType::HeartbeatAck { timestamp } => ServerPayload::HeartbeatAck(
            ServerHeartbeatAck { timestamp },
        ),
    };
    ServerMessage { message: Some(message) }
}

/// What the stream handed over: a frame, an error, or its end.
#[derive(Debug)]
pub enum StreamEvent {
    Frame(AgentMessage),
    Failed,
    Ended,
}

/// Where a connection stands.
#[derive(Debug)]
pub enum SessionState {
    /// Nothing was received yet; the first frame must be a handshake.
    AwaitingHandshake,
    /// The agent of this sandbox has shaken hands and is registered.
    Established { sandbox_id: String },
    /// The connection is over.
    Closed,
}

/// Where a connection stands, as plain values.
pub enum SessionView {
    AwaitingHandshake,
    Established { sandbox_id: Seq<char> },
    Closed,
}

impl View for SessionState {
    type V = SessionView;

    open spec fn view(&self) -> SessionView {
        match self {
            SessionState::AwaitingHandshake => SessionView::AwaitingHandshake,
            SessionState::Established { sandbox_id } => SessionView::Established {
                sandbox_id: sandbox_id@,
            },
            SessionState::Closed => SessionView::Closed,
        }
    }
}

/// What the stream handed over, as plain values.
pub enum EventView {
    Frame(Option<AgentMessageView>),
    Failed,
    Ended,
}

impl View for StreamEvent {
    type V = EventView;

    open spec fn view(&self) -> EventView {
        match self {
            StreamEvent::Frame(m) => EventView::Frame(m@),
            StreamEvent::Failed => EventView::Failed,
            StreamEvent::Ended => EventView::Ended,
        }
    }
}

/// What was noticed about an event, for the log.
#[derive(Debug, Clone, Copy, PartialEq, Eq, Structural)]
pub enum SessionNote {
    /// The agent shook hands and was registered.
    Registered,
    /// The first frame was not a handshake.
    HandshakeRejected,
    /// The stream ended or failed before a handshake; the failure was
    /// acknowledged.
    NoHandshake,
    /// A heartbeat was answered.
    Heartbeat,
    /// A response resolved a pending request.
    ResponseDelivered,
    /// A response came that nothing was waiting for: late, or a duplicate.
    ResponseDropped,
    /// Output of a PTY is handed on.
    PtyOutput,
    /// A frame that has no place after the handshake.
    Unexpected,
    /// The stream ended or failed; the agent was unregistered.
    Disconnected,
    /// The connection was over already.
    Ignored,
}

/// What the runner of a connection has to do after an event.
pub struct SessionOutput {
    /// A frame to push onto the wire.
    pub reply: Option<ServerMessage>,
    /// The receiving half of the new connection's outbound queue: what comes
    /// out of it is to be converted and pushed onto the wire, in order.
    pub outbound: Option<Receiver<AgentMessageType>>,
    /// Output of a PTY, for whoever is subscribed to it: the PTY's id and the
    /// bytes.
    pub pty_output: Option<(String, Vec<u8>)>,
    /// Whether the connection is over and the wire is to be closed.
    pub close: bool,
    /// What happened.
    pub note: SessionNote,
}

/// The outcome of an event, as plain values: the next state, the registry
/// after it, and what goes out.
pub struct StepView {
    pub state: SessionView,
    pub pool: PoolModel,
    pub reply: Option<ServerMessageView>,
    pub starts_forwarding: bool,
    pub pty_output: Option<(Seq<char>, Seq<u8>)>,
    pub close: bool,
    pub note: SessionNote,
}

/// The text that answers a first frame which is no handshake.
pub open spec fn handshake_expected() -> Seq<char> {
    "Expected handshake message"@
}

/// The text that answers a stream which ends or fails before its first
/// frame.
pub open spec fn handshake_missing() -> Seq<char> {
    "No handshake message received"@
}

/// The rules of a connection.
///
/// Before the handshake: a handshake registers the agent and is answered with
/// a successful acknowledgment. Anything else, a frame that is no handshake
/// as well as a stream that ends or fails before its first frame, is
/// answered with a failed acknowledgment that says why, and the connection
/// closes without registration.
///
/// After it: a heartbeat stamps the connection and is answered with its own
/// timestamp; a response resolves the request pending under its correlation
/// id; PTY output is handed on; other frames are ignored; the end or failure
/// of the stream unregisters the agent, which cancels what was pending on it.
pub open spec fn step_spec(state: SessionView, pool: PoolModel, event: EventView, now: u64) -> StepView {
    match state {
        SessionView::AwaitingHandshake => match event {
            EventView::Frame(Some(AgentMessageView::Handshake { sandbox_id, version })) => StepView {
                state: SessionView::Established { sandbox_id },
                pool: pool.register(sandbox_id, now),
                reply: Some(ServerMessageView::HandshakeAck { success: true, error: None }),
                starts_forwarding: true,
                pty_output: None,
                close: false,
                note: SessionNote::Registered,
            },
            EventView::Frame(_) => StepView {
                state: SessionView::Closed,
                pool,
                reply: Some(
                    ServerMessageView::HandshakeAck {
                        success: false,
                        error: Some(handshake_expected()),
                    },
                ),
                starts_forwarding: false,
                pty_output: None,
                close: true,
                note: SessionNote::HandshakeRejected,
            },
            _ => StepView {
                state: SessionView::Closed,
                pool,
                reply: Some(
                    ServerMessageView::HandshakeAck {
                        success: false,
                        error: Some(handshake_missing()),
                    },
                ),
                starts_forwarding: false,
                pty_output: None,
                close: true,
                note: SessionNote::NoHandshake,
            },
        },
        SessionView::Established { sandbox_id } => match event {
            EventView::Frame(Some(AgentMessageView::Heartbeat { timestamp })) => StepView {
                state,
                pool: pool.heartbeat(sandbox_id, now),
                reply: Some(ServerMessageView::HeartbeatAck { timestamp }),
                starts_forwarding: false,
                pty_output: None,
                close: false,
                note: SessionNote::Heartbeat,
            },
            EventView::Frame(
                Some(AgentMessageView::CommandResponse { correlation_id, result }),
            ) => StepView {
                state,
                pool: pool.resolve(correlation_id),
                reply: None,
                starts_forwarding: false,
                pty_output: None,
                close: false,
                note: if pool.pending.contains_key(correlation_id) {
                    SessionNote::ResponseDelivered
                } else {
                    SessionNote::ResponseDropped
                },
            },
            EventView::Frame(Some(AgentMessageView::PtyOutput { pty_id, data })) => StepView {
                state,
                pool,
                reply: None,
                starts_forwarding: false,
                pty_output: Some((pty_id, data)),
                close: false,
                note: SessionNote::PtyOutput,
            },
            EventView::Frame(_) => StepView {
                state,
                pool,
                reply: None,
                starts_forwarding: false,
                pty_output: None,
                close: false,
                note: SessionNote::Unexpected,
            },
            _ => StepView {
                state: SessionView::Closed,
                pool: pool.unregister(sandbox_id),
                reply: None,
                starts_forwarding: false,
                pty_output: None,
                close: true,
                note: SessionNote::Disconnected,
            },
        },
        SessionView::Closed => StepView {
            state,
            pool,
            reply: None,
            starts_forwarding: false,
            pty_output: None,
            close: true,
            note: SessionNote::Ignored,
        },
    }
}

/// What goes out, as plain values.
pub open spec fn opt_frame(reply: Option<ServerMessage>) -> Option<ServerMessageView> {
    match reply {
        Some(m) => m@,
        None => None,
    }
}

/// PTY output, as plain values.
pub open spec fn opt_output(output: Option<(String, Vec<u8>)>) -> Option<(Seq<char>, Seq<u8>)> {
    match output {
        Some(o) => Some((o.0@, o.1@)),
        None => None,
    }
}

/// One connection of an agent, from its first frame to its end.
pub struct AgentSession {
    state: SessionState,
}

impl View for AgentSession {
    type V = SessionView;

    closed spec fn view(&self) -> SessionView {
        self.state@
    }
}

impl AgentSession {
    /// A connection on which nothing was received yet.
    pub fn new() -> (session: Self)
        ensures
            session@ == SessionView::AwaitingHandshake,
    {
        AgentSession { state: SessionState::AwaitingHandshake }
    }

    /// The sandbox whose agent is on this connection, once it has shaken
    /// hands.
    pub fn sandbox_id(&self) -> (id: Option<&String>)
        ensures
            match id {
                Some(s) => self@ == (SessionView::Established { sandbox_id: s@ }),
                None => !(self@ is Established),
            },
    {
        match &self.state {
            SessionState::Established { sandbox_id } => Some(sandbox_id),
            _ => None,
        }
    }

    /// Whether the connection is over.
    pub fn is_closed(&self) -> (closed: bool)
        ensures
            closed == (self@ is Closed),
    {
        match &self.state {
            SessionState::Closed => true,
            _ => false,
        }
    }

    /// Takes one event of the stream at the given time, updates the registry
    /// by the rules of a connection, and says what is to go out.
    pub fn step(&mut self, pool: &mut AgentConnPool, event: StreamEvent, now: u64) -> (out:
        SessionOutput)
        ensures
            final(self)@ == step_spec(old(self)@, old(pool)@, event@, now).state,
            final(pool)@ == step_spec(old(self)@, old(pool)@, event@, now).pool,
            final(pool).response_timeout() == old(pool).response_timeout(),
            out.reply is Some == step_spec(old(self)@, old(pool)@, event@, now).reply is Some,
            opt_frame(out.reply) == step_spec(old(self)@, old(pool)@, event@, now).reply,
            out.outbound is Some == step_spec(old(self)@, old(pool)@, event@, now).starts_forwarding,
            forall|other: Seq<char>|
                old(self)@ != (SessionView::Established { sandbox_id: other }) && final(self)@ != (
                SessionView::Established { sandbox_id: other }) ==> #[trigger] final(pool).sender_of(
                    other,
                ) == old(pool).sender_of(other),
            out.outbound matches Some(rx) ==> (final(self)@ matches SessionView::Established {
                sandbox_id,
            } && feeds(final(pool).sender_of(sandbox_id), rx) && queue_bound(
                final(pool).sender_of(sandbox_id),
            ) == OUTBOUND_QUEUE_CAPACITY && nothing_accepted(final(pool).sender_of(sandbox_id))),
            opt_output(out.pty_output) == step_spec(old(self)@, old(pool)@, event@, now).pty_output,
            out.close == step_spec(old(self)@, old(pool)@, event@, now).close,
            out.note == step_spec(old(self)@, old(pool)@, event@, now).note,
    {
        let mut state = SessionState::Closed;
        core::mem::swap(&mut self.state, &mut state);
        match state {
            SessionState::AwaitingHandshake => match event {
                StreamEvent::Frame(AgentMessage { message: Some(AgentPayload::Handshake(h)) }) => {
                    let (tx, rx) = outbound_queue();
                    pool.register(h.sandbox_id.as_str(), tx, now);
                    self.state = SessionState::Established { sandbox_id: h.sandbox_id };
                    SessionOutput {
                        reply: Some(ServerMessage::handshake_ack(true, None)),
                        outbound: Some(rx),
                        pty_output: None,
                        close: false,
                        note: SessionNote::Registered,
                    }
                },
                StreamEvent::Frame(_) => {
                    self.state = SessionState::Closed;
                    SessionOutput {
                        reply: Some(
                            ServerMessage::handshake_ack(
                                false,
                                Some("Expected handshake message".to_owned()),
                            ),
                        ),
                        outbound: None,
                        pty_output: None,
                        close: true,
                        note: SessionNote::HandshakeRejected,
                    }
                },
                _ => {
                    self.state = SessionState::Closed;
                    SessionOutput {
                        reply: Some(
                            ServerMessage::handshake_ack(
                                false,
                                Some("No handshake message received".to_owned()),
                            ),
                        ),
                        outbound: None,
                        pty_output: None,
                        close: true,
                        note: SessionNote::NoHandshake,
                    }
                },
            },
            SessionState::Established { sandbox_id } => match event {
                StreamEvent::Frame(AgentMessage { message: Some(AgentPayload::Heartbeat(hb)) }) => {
                    let _ = pool.mark_heartbeat(sandbox_id.as_str(), now);
                    self.state = SessionState::Established { sandbox_id };
                    SessionOutput {
                        reply: Some(ServerMessage::heartbeat_ack(hb.timestamp)),
                        outbound: None,
                        pty_output: None,
                        close: false,
                        note: SessionNote::Heartbeat,
                    }
                },
                StreamEvent::Frame(
                    AgentMessage { message: Some(AgentPayload::CommandResponse(response)) },
                ) => {
                    let matched = pool.handle_response(sandbox_id.as_str(), response);
                    self.state = SessionState::Established { sandbox_id };
                    SessionOutput {
                        reply: None,
                        outbound: None,
                        pty_output: None,
                        close: false,
                        note: if matched {
                            SessionNote::ResponseDelivered
                        } else {
                            SessionNote::ResponseDropped
                        },
                    }
                },
                StreamEvent::Frame(AgentMessage { message: Some(AgentPayload::PtyOutput(output)) }) => {
                    self.state = SessionState::Established { sandbox_id };
                    SessionOutput {
                        reply: None,
                        outbound: None,
                        pty_output: Some((output.pty_id, output.data)),
                        close: false,
                        note: SessionNote::PtyOutput,
                    }
                },
                StreamEvent::Frame(_) => {
                    self.state = SessionState::Established { sandbox_id };
                    SessionOutput {
                        reply: None,
                        outbound: None,
                        pty_output: None,
                        close: false,
                        note: SessionNote::Unexpected,
                    }
                },
                _ => {
                    pool.unregister(sandbox_id.as_str());
                    self.state = SessionState::Closed;
                    SessionOutput {
                        reply: None,
                        outbound: None,
                        pty_output: None,
                        close: true,
                        note: SessionNote::Disconnected,
                    }
                },
            },
            SessionState::Closed => {
                self.state = SessionState::Closed;
                SessionOutput {
                    reply: None,
                    outbound: None,
                    pty_output: None,
                    close: true,
                    note: SessionNote::Ignored,
                }
            },
        }
    }
}

/// A handshake followed by a heartbeat: the handshake is acknowledged as
/// successful, and the heartbeat is acknowledged with exactly its own
/// timestamp, whatever it is.
pub proof fn lemma_heartbeat_echo(
    pool: PoolModel,
    sandbox_id: Seq<char>,
    version: Seq<char>,
    timestamp: u64,
    t1: u64,
    t2: u64,
)
    ensures
        ({
            let first = step_spec(
                SessionView::AwaitingHandshake,
                pool,
                EventView::Frame(Some(AgentMessageView::Handshake { sandbox_id, version })),
                t1,
            );
            let second = step_spec(
                first.state,
                first.pool,
                EventView::Frame(Some(AgentMessageView::Heartbeat { timestamp })),
                t2,
            );
            &&& first.reply == Some(ServerMessageView::HandshakeAck { success: true, error: None })
            &&& first.pool.connected(sandbox_id)
            &&& second.reply == Some(ServerMessageView::HeartbeatAck { timestamp })
            &&& second.state == first.state
            &&& second.pool.connected(sandbox_id)
            &&& second.pool.connections[sandbox_id] == t2
        }),
{
}

/// A connection registers an agent only on a handshake, and never without
/// one: whatever else comes first, be it another frame, an empty frame, the
/// end of the stream or its failure, exactly one frame goes out, a failed
/// acknowledgment with a text that is not empty; the registry stays as it
/// is, and the connection closes.
pub proof fn lemma_no_registration_without_handshake(pool: PoolModel, event: EventView, now: u64)
    requires
        !(event matches EventView::Frame(Some(AgentMessageView::Handshake { .. }))),
    ensures
        step_spec(SessionView::AwaitingHandshake, pool, event, now).pool == pool,
        step_spec(SessionView::AwaitingHandshake, pool, event, now).state == SessionView::Closed,
        step_spec(SessionView::AwaitingHandshake, pool, event, now).close,
        !step_spec(SessionView::AwaitingHandshake, pool, event, now).starts_forwarding,
        step_spec(SessionView::AwaitingHandshake, pool, event, now).reply matches Some(
            ServerMessageView::HandshakeAck { success, error },
        ) && !success && (error matches Some(text) && text.len() > 0),
{
    reveal_strlit("Expected handshake message");
    reveal_strlit("No handshake message received");
}

/// When the stream of a registered agent ends or fails, the agent is no
/// longer connected and nothing stays pending on its sandbox.
pub proof fn lemma_disconnect_cancels(pool: PoolModel, sandbox_id: Seq<char>, now: u64, failed: bool)
    ensures
        ({
            let event = if failed {
                EventView::Failed
            } else {
                EventView::Ended
            };
            let after = step_spec(SessionView::Established { sandbox_id }, pool, event, now);
            &&& !after.pool.connected(sandbox_id)
            &&& after.pool.pending_on(sandbox_id) == Set::<Seq<char>>::empty()
            &&& after.state == SessionView::Closed
        }),
{
    let event = if failed {
        EventView::Failed
    } else {
        EventView::Ended
    };
    let after = step_spec(SessionView::Established { sandbox_id }, pool, event, now);
    assert(after.pool.pending_on(sandbox_id) =~= Set::<Seq<char>>::empty());
}

} // verus!
