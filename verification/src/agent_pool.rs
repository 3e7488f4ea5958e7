//! The registry of agent connections and the matcher of requests and
//! responses.
//!
//! An agent that has shaken hands is registered under its sandbox id, with the
//! sending half of its outbound queue. A request that awaits an answer is
//! pending under its correlation id until the answer comes, the wait runs out,
//! or the connection ends.

use vstd::prelude::*;
use dashmap::DashMap;
use tokio::sync::mpsc::error::TrySendError;
use tokio::sync::mpsc::{Receiver, Sender};
use tokio::sync::oneshot;
use crate::channels::{fill_slot, max_queue_capacity, single_shot, SendOutcome};
use crate::error::Error;
use crate::ids::{is_uuid_text, new_id};
use crate::proto;
use crate::proto::ServerMessageView;
use crate::sandbox::opt_text;
use crate::string_map::StringMap;
use crate::strings::{str_eq, texts};

verus! {

/// How long a request waits for its answer where the caller names no time.
pub const DEFAULT_RESPONSE_TIMEOUT_MS: u64 = 30000;

/// How many messages the outbound queue of a connection holds at most.
pub const OUTBOUND_QUEUE_CAPACITY: usize = 100;

/// How long to sleep between two looks for an agent that has not connected.
pub const CONNECTION_POLL_INTERVAL_MS: u64 = 100;

/// dashmap's concurrent map.
#[verifier::external_type_specification]
#[verifier::external_body]
#[verifier::reject_recursive_types(K)]
#[verifier::reject_recursive_types(V)]
#[verifier::reject_recursive_types(S)]
pub struct ExConcurrentMap<K, V, S>(DashMap<K, V, S>);

/// What an agent answered to a request.
#[derive(Debug, Clone, PartialEq, Eq)]
pub struct AgentCommandResponse {
    pub correlation_id: String,
    pub success: bool,
    pub exit_code: Option<i32>,
    pub stdout: Option<String>,
    pub stderr: Option<String>,
    pub error_message: Option<String>,
}

/// An answer, as plain values.
pub struct ResponseView {
    pub correlation_id: Seq<char>,
    pub success: bool,
    pub exit_code: Option<i32>,
    pub stdout: Option<Seq<char>>,
    pub stderr: Option<Seq<char>>,
    pub error_message: Option<Seq<char>>,
}

impl View for AgentCommandResponse {
    type V = ResponseView;

    open spec fn view(&self) -> ResponseView {
        ResponseView {
            correlation_id: self.correlation_id@,
            success: self.success,
            exit_code: self.exit_code,
            stdout: opt_text(self.stdout),
            stderr: opt_text(self.stderr),
            error_message: opt_text(self.error_message),
        }
    }
}

impl ResponseView {
    /// The answer that a frame of the wire stands for: a success carries exit
    /// code and output, an error its message, and a frame without a result
    /// counts as an error.
    pub open spec fn of_wire(
        correlation_id: Seq<char>,
        result: Option<proto::OutcomeView>,
    ) -> ResponseView {
        match result {
            Some(proto::OutcomeView::Success { exit_code, stdout, stderr }) => ResponseView {
                correlation_id,
                success: true,
                exit_code: Some(exit_code),
                stdout: Some(stdout),
                stderr: Some(stderr),
                error_message: None,
            },
            Some(proto::OutcomeView::Error { code, message }) => ResponseView {
                correlation_id,
                success: false,
                exit_code: None,
                stdout: None,
                stderr: None,
                error_message: Some(message),
            },
            None => ResponseView {
                correlation_id,
                success: false,
                exit_code: None,
                stdout: None,
                stderr: None,
                error_message: Some("No result in response"@),
            },
        }
    }
}

impl AgentCommandResponse {
    /// Reads an answer from its frame.
    pub fn from_wire(response: proto::AgentCommandResponse) -> (converted: Self)
        ensures
            converted@ == ResponseView::of_wire(
                response.correlation_id@,
                proto::opt_outcome(response.result),
            ),
    {
        let correlation_id = response.correlation_id;
        match response.result {
            Some(proto::AgentCommandOutcome::Success(s)) => AgentCommandResponse {
                correlation_id,
                success: true,
                exit_code: Some(s.exit_code),
                stdout: Some(s.stdout),
                stderr: Some(s.stderr),
                error_message: None,
            },
            Some(proto::AgentCommandOutcome::Error(e)) => AgentCommandResponse {
                correlation_id,
                success: false,
                exit_code: None,
                stdout: None,
                stderr: None,
                error_message: Some(e.message),
            },
            None => AgentCommandResponse {
                correlation_id,
                success: false,
                exit_code: None,
                stdout: None,
                stderr: None,
                error_message: Some("No result in response".to_owned()),
            },
        }
    }
}

/// What the server sends to an agent.
#[derive(Debug, Clone, PartialEq, Eq)]
pub enum AgentMessageType {
    RunCommand {
        correlation_id: String,
        command: String,
        args: Vec<String>,
        env: StringMap,
        cwd: Option<String>,
        timeout_ms: u64,
        stream: bool,
    },
    KillProcess { correlation_id: String, pid: u32, signal: i32 },
    CreatePty {
        correlation_id: String,
        pty_id: String,
        cols: u32,
        rows: u32,
        shell: Option<String>,
        env: StringMap,
    },
    ResizePty { correlation_id: String, pty_id: String, cols: u32, rows: u32 },
    KillPty { correlation_id: String, pty_id: String },
    PtyInput { pty_id: String, data: Vec<u8> },
    HandshakeAck { success: bool, error: Option<String> },
    HeartbeatAck { timestamp: u64 },
}

impl View for AgentMessageType {
    type V = ServerMessageView;

    open spec fn view(&self) -> ServerMessageView {
        match self {
            AgentMessageType::RunCommand {
                correlation_id,
                command,
                args,
                env,
                cwd,
                timeout_ms,
                stream,
            } => ServerMessageView::RunCommand {
                correlation_id: correlation_id@,
                command: command@,
                args: texts(args@),
                env: env.pairs(),
                cwd: opt_text(*cwd),
                timeout_ms: *timeout_ms,
                stream: *stream,
            },
            AgentMessageType::KillProcess { correlation_id, pid, signal } => {
                ServerMessageView::KillProcess {
                    correlation_id: correlation_id@,
                    pid: *pid,
                    signal: *signal,
                }
            },
            AgentMessageType::CreatePty { correlation_id, pty_id, cols, rows, shell, env } => {
                ServerMessageView::CreatePty {
                    correlation_id: correlation_id@,
                    pty_id: pty_id@,
                    cols: *cols,
                    rows: *rows,
                    shell: opt_text(*shell),
                    env: env.pairs(),
                }
            },
            AgentMessageType::ResizePty { correlation_id, pty_id, cols, rows } => {
                ServerMessageView::ResizePty {
                    correlation_id: correlation_id@,
                    pty_id: pty_id@,
                    cols: *cols,
                    rows: *rows,
                }
            },
            AgentMessageType::KillPty { correlation_id, pty_id } => ServerMessageView::KillPty {
                correlation_id: correlation_id@,
                pty_id: pty_id@,
            },
            AgentMessageType::PtyInput { pty_id, data } => ServerMessageView::PtyInput {
                pty_id: pty_id@,
                data: data@,
            },
            AgentMessageType::HandshakeAck { success, error } => ServerMessageView::HandshakeAck {
                success: *success,
                error: opt_text(*error),
            },
            AgentMessageType::HeartbeatAck { timestamp } => ServerMessageView::HeartbeatAck {
                timestamp: *timestamp,
            },
        }
    }
}

impl AgentMessageType {
    /// The correlation id of a request-style message. Acknowledgments and
    /// input for a terminal carry none.
    pub fn correlation_id(&self) -> (id: Option<&String>)
        ensures
            match id {
                Some(c) => self@.correlation_id() == Some(c@),
                None => self@.correlation_id() is None,
            },
    {
        match self {
            AgentMessageType::RunCommand { correlation_id, .. } => Some(correlation_id),
            AgentMessageType::KillProcess { correlation_id, .. } => Some(correlation_id),
            AgentMessageType::CreatePty { correlation_id, .. } => Some(correlation_id),
            AgentMessageType::ResizePty { correlation_id, .. } => Some(correlation_id),
            AgentMessageType::KillPty { correlation_id, .. } => Some(correlation_id),
            _ => None,
        }
    }
}

/// The message that asks an agent to run a command: it carries the
/// correlation id under which the answer is awaited, and the command as the
/// caller gave it.
pub fn run_command_message(
    correlation_id: String,
    command: String,
    args: Vec<String>,
    env: StringMap,
    cwd: Option<String>,
    timeout_ms: u64,
    stream: bool,
) -> (message: AgentMessageType)
    ensures
        message@ == (ServerMessageView::RunCommand {
            correlation_id: correlation_id@,
            command: command@,
            args: texts(args@),
            env: env.pairs(),
            cwd: opt_text(cwd),
            timeout_ms,
            stream,
        }),
{
    AgentMessageType::RunCommand { correlation_id, command, args, env, cwd, timeout_ms, stream }
}

/// The message that asks an agent to signal a process.
pub fn kill_process_message(correlation_id: String, pid: u32, signal: i32) -> (message:
    AgentMessageType)
    ensures
        message@ == (ServerMessageView::KillProcess { correlation_id: correlation_id@, pid, signal }),
{
    AgentMessageType::KillProcess { correlation_id, pid, signal }
}

/// The message that asks an agent to open a terminal.
pub fn create_pty_message(
    correlation_id: String,
    pty_id: String,
    cols: u32,
    rows: u32,
    shell: Option<String>,
    env: StringMap,
) -> (message: AgentMessageType)
    ensures
        message@ == (ServerMessageView::CreatePty {
            correlation_id: correlation_id@,
            pty_id: pty_id@,
            cols,
            rows,
            shell: opt_text(shell),
            env: env.pairs(),
        }),
{
    AgentMessageType::CreatePty { correlation_id, pty_id, cols, rows, shell, env }
}

/// The message that asks an agent to resize a terminal.
pub fn resize_pty_message(correlation_id: String, pty_id: String, cols: u32, rows: u32) -> (message:
    AgentMessageType)
    ensures
        message@ == (ServerMessageView::ResizePty {
            correlation_id: correlation_id@,
            pty_id: pty_id@,
            cols,
            rows,
        }),
{
    AgentMessageType::ResizePty { correlation_id, pty_id, cols, rows }
}

/// The message that asks an agent to kill a terminal.
pub fn kill_pty_message(correlation_id: String, pty_id: String) -> (message: AgentMessageType)
    ensures
        message@ == (ServerMessageView::KillPty { correlation_id: correlation_id@, pty_id: pty_id@ }),
{
    AgentMessageType::KillPty { correlation_id, pty_id }
}

/// The message that carries input for a terminal. It has no correlation id.
pub fn pty_input_message(pty_id: String, data: Vec<u8>) -> (message: AgentMessageType)
    ensures
        message@ == (ServerMessageView::PtyInput { pty_id: pty_id@, data: data@ }),
{
    AgentMessageType::PtyInput { pty_id, data }
}

/// The message that answers a handshake.
pub fn handshake_ack_message(success: bool, error: Option<String>) -> (message: AgentMessageType)
    ensures
        message@ == (ServerMessageView::HandshakeAck { success, error: opt_text(error) }),
{
    AgentMessageType::HandshakeAck { success, error }
}

/// The message that answers a heartbeat, with the heartbeat's own timestamp.
pub fn heartbeat_ack_message(timestamp: u64) -> (message: AgentMessageType)
    ensures
        message@ == (ServerMessageView::HeartbeatAck { timestamp }),
{
    AgentMessageType::HeartbeatAck { timestamp }
}

/// A registered connection: the sending half of the agent's outbound queue,
/// and when the agent was last heard of, in milliseconds.
pub struct AgentConnection {
    pub tx: Sender<AgentMessageType>,
    pub last_heartbeat: u64,
}

/// A request that awaits its answer: the sandbox it was sent to, and the slot
/// that its caller waits on.
pub struct PendingRequest {
    pub sandbox_id: String,
    pub slot: oneshot::Sender<AgentCommandResponse>,
}

/// What a caller holds while its request is pending.
pub struct PendingCommand {
    /// The id under which the request is pending.
    pub correlation_id: String,
    /// How long to wait for the answer, in milliseconds.
    pub timeout_ms: u64,
    /// Resolves with the answer, or closes when the request is cancelled.
    pub waiter: oneshot::Receiver<AgentCommandResponse>,
}

/// How the wait for an answer ended.
#[derive(Debug)]
pub enum WaitOutcome {
    /// The answer came.
    Response(AgentCommandResponse),
    /// The slot was dropped: the connection ended while the request was
    /// pending.
    Closed,
    /// The time ran out.
    Elapsed,
}

/// What to do next while waiting for an agent to connect.
#[derive(Debug, Clone, Copy, PartialEq, Eq, Structural)]
pub enum ConnectionPoll {
    /// The agent is connected.
    Connected,
    /// Not yet: sleep for so many milliseconds, then look again.
    Sleep(u64),
    /// The time ran out.
    TimedOut,
}

/// The registry and the matcher, as plain values: the last heartbeat of each
/// connected sandbox, and the sandbox of each pending correlation id.
pub struct PoolModel {
    pub connections: Map<Seq<char>, u64>,
    pub pending: Map<Seq<char>, Seq<char>>,
}

impl PoolModel {
    /// Nothing connected, nothing pending.
    pub open spec fn empty() -> PoolModel {
        PoolModel { connections: Map::empty(), pending: Map::empty() }
    }

    /// Whether an agent is registered for the sandbox.
    pub open spec fn connected(self, sandbox_id: Seq<char>) -> bool {
        self.connections.contains_key(sandbox_id)
    }

    /// The pending requests that were not sent to the given sandbox.
    pub open spec fn pending_without(self, sandbox_id: Seq<char>) -> Map<Seq<char>, Seq<char>> {
        Map::new(
            |c: Seq<char>| self.pending.contains_key(c) && self.pending[c] != sandbox_id,
            |c: Seq<char>| self.pending[c],
        )
    }

    /// The correlation ids pending on the given sandbox.
    pub open spec fn pending_on(self, sandbox_id: Seq<char>) -> Set<Seq<char>> {
        Set::new(|c: Seq<char>| self.pending.contains_key(c) && self.pending[c] == sandbox_id)
    }

    /// A handshake: the latest connection of a sandbox wins. What was pending
    /// on an earlier connection of the same sandbox is cancelled with it.
    pub open spec fn register(self, sandbox_id: Seq<char>, now: u64) -> PoolModel {
        PoolModel {
            connections: self.connections.insert(sandbox_id, now),
            pending: self.pending_without(sandbox_id),
        }
    }

    /// The end of a connection: its entry goes, and with it all that was
    /// pending on it.
    pub open spec fn unregister(self, sandbox_id: Seq<char>) -> PoolModel {
        PoolModel {
            connections: self.connections.remove(sandbox_id),
            pending: self.pending_without(sandbox_id),
        }
    }

    /// A heartbeat of a connected sandbox stamps its entry; one of an unknown
    /// sandbox changes nothing.
    pub open spec fn heartbeat(self, sandbox_id: Seq<char>, now: u64) -> PoolModel {
        if self.connected(sandbox_id) {
            PoolModel { connections: self.connections.insert(sandbox_id, now), ..self }
        } else {
            self
        }
    }

    /// A request to the sandbox becomes pending under the correlation id.
    pub open spec fn arm(self, correlation_id: Seq<char>, sandbox_id: Seq<char>) -> PoolModel {
        PoolModel { pending: self.pending.insert(correlation_id, sandbox_id), ..self }
    }

    /// The correlation id is no longer pending.
    pub open spec fn resolve(self, correlation_id: Seq<char>) -> PoolModel {
        PoolModel { pending: self.pending.remove(correlation_id), ..self }
    }

    /// Every pending correlation id is for a currently registered sandbox.
    pub open spec fn wf(self) -> bool {
        forall|c: Seq<char>| #[trigger]
            self.pending.contains_key(c) ==> self.connections.contains_key(self.pending[c])
    }

    /// Whether the sandbox was last heard of more than `max_idle` ago.
    pub open spec fn is_stale(self, sandbox_id: Seq<char>, now: u64, max_idle: u64) -> bool {
        self.connections.contains_key(sandbox_id) && now - self.connections[sandbox_id] > max_idle
    }
}

/// No connection.
pub open spec fn no_connections() -> Map<Seq<char>, AgentConnection> {
    Map::empty()
}

/// No pending request.
pub open spec fn no_pending() -> Map<Seq<char>, PendingRequest> {
    Map::empty()
}

/// The connections that a concurrent map holds, by sandbox id.
pub uninterp spec fn connection_entries(map: DashMap<String, AgentConnection>) -> Map<
    Seq<char>,
    AgentConnection,
>;

/// The pending requests that a concurrent map holds, by correlation id.
pub uninterp spec fn pending_entries(map: DashMap<String, PendingRequest>) -> Map<
    Seq<char>,
    PendingRequest,
>;

/// The list names each connection once, with its last heartbeat, and nothing
/// else.
pub open spec fn lists_connections(
    entries: Map<Seq<char>, AgentConnection>,
    list: Seq<(String, u64)>,
) -> bool {
    &&& forall|i: int|
        0 <= i < list.len() ==> entries.contains_key((#[trigger] list[i]).0@)
            && entries[list[i].0@].last_heartbeat == list[i].1
    &&& forall|k: Seq<char>| #[trigger]
        entries.contains_key(k) ==> exists|i: int|
            0 <= i < list.len() && (#[trigger] list[i]).0@ == k
    &&& forall|i: int, j: int|
        0 <= i < j < list.len() ==> (#[trigger] list[i]).0@ != (#[trigger] list[j]).0@
}

/// The list names each pending request once, with its sandbox, and nothing
/// else.
pub open spec fn lists_pending(
    entries: Map<Seq<char>, PendingRequest>,
    list: Seq<(String, String)>,
) -> bool {
    &&& forall|i: int|
        0 <= i < list.len() ==> entries.contains_key((#[trigger] list[i]).0@)
            && entries[list[i].0@].sandbox_id@ == list[i].1@
    &&& forall|k: Seq<char>| #[trigger]
        entries.contains_key(k) ==> exists|i: int|
            0 <= i < list.len() && (#[trigger] list[i]).0@ == k
    &&& forall|i: int, j: int|
        0 <= i < j < list.len() ==> (#[trigger] list[i]).0@ != (#[trigger] list[j]).0@
}

/// The map holds finitely many connections, `count` of them.
pub open spec fn holds_exactly(entries: Map<Seq<char>, AgentConnection>, count: usize) -> bool {
    entries.dom().finite() && entries.len() == count
}

/// `DashMap::new`: an empty map.
#[verifier::external_body]
fn connections_new() -> (map: DashMap<String, AgentConnection>)
    ensures
        connection_entries(map) == no_connections(),
{
    DashMap::new()
}

/// `DashMap::insert`: binds the key to the value, in place of what the key
/// was bound to before.
#[verifier::external_body]
fn connections_insert(map: &mut DashMap<String, AgentConnection>, key: String, value: AgentConnection)
    ensures
        connection_entries(*final(map)) == connection_entries(*old(map)).insert(key@, value),
{
    map.insert(key, value);
}

/// `DashMap::remove`: takes the key out and returns what it was bound to.
#[verifier::external_body]
fn connections_remove(map: &mut DashMap<String, AgentConnection>, key: &str) -> (removed: Option<
    AgentConnection,
>)
    ensures
        connection_entries(*final(map)) == connection_entries(*old(map)).remove(key@),
        removed is Some == connection_entries(*old(map)).contains_key(key@),
        removed is Some ==> removed == Some(connection_entries(*old(map))[key@]),
{
    map.remove(key).map(|entry| entry.1)
}

/// `DashMap::contains_key`: whether the key is bound.
#[verifier::external_body]
fn connections_contains(map: &DashMap<String, AgentConnection>, key: &str) -> (held: bool)
    ensures
        held == connection_entries(*map).contains_key(key@),
{
    map.contains_key(key)
}

/// `DashMap::len`: the number of keys.
#[verifier::external_body]
fn connections_len(map: &DashMap<String, AgentConnection>) -> (count: usize)
    ensures
        holds_exactly(connection_entries(*map), count),
{
    map.len()
}

/// `DashMap::iter`: every entry once, in no order that could be named; each
/// is handed out as its key and its last heartbeat.
#[verifier::external_body]
fn connections_snapshot(map: &DashMap<String, AgentConnection>) -> (list: Vec<(String, u64)>)
    ensures
        lists_connections(connection_entries(*map), list@),
{
    map.iter().map(|entry| (entry.key().clone(), entry.value().last_heartbeat)).collect()
}

/// `DashMap::new`: an empty map.
#[verifier::external_body]
fn pending_new() -> (map: DashMap<String, PendingRequest>)
    ensures
        pending_entries(map) == no_pending(),
{
    DashMap::new()
}

/// `DashMap::insert`: binds the key to the value, in place of what the key
/// was bound to before.
#[verifier::external_body]
fn pending_insert(map: &mut DashMap<String, PendingRequest>, key: String, value: PendingRequest)
    ensures
        pending_entries(*final(map)) == pending_entries(*old(map)).insert(key@, value),
{
    map.insert(key, value);
}

/// `DashMap::remove`: takes the key out and returns what it was bound to.
#[verifier::external_body]
fn pending_remove(map: &mut DashMap<String, PendingRequest>, key: &str) -> (removed: Option<
    PendingRequest,
>)
    ensures
        pending_entries(*final(map)) == pending_entries(*old(map)).remove(key@),
        removed is Some == pending_entries(*old(map)).contains_key(key@),
        removed is Some ==> removed == Some(pending_entries(*old(map))[key@]),
{
    map.remove(key).map(|entry| entry.1)
}

/// `DashMap::iter`: every entry once, in no order that could be named; each
/// is handed out as its key and the sandbox of its request.
#[verifier::external_body]
fn pending_snapshot(map: &DashMap<String, PendingRequest>) -> (list: Vec<(String, String)>)
    ensures
        lists_pending(pending_entries(*map), list@),
{
    map.iter().map(|entry| (entry.key().clone(), entry.value().sandbox_id.clone())).collect()
}

/// The result of sending a message, for each way the attempt can end: a full
/// queue and a closed one both fail at once, with the given text.
pub fn send_result(outcome: SendOutcome, text: &str) -> (result: Result<(), Error>)
    ensures
        outcome == SendOutcome::Sent ==> result is Ok,
        outcome != SendOutcome::Sent ==> (result matches Err(Error::AgentCommunicationError(m))
            && m@ == text@),
{
    match outcome {
        SendOutcome::Sent => Ok(()),
        SendOutcome::Full => Err(Error::AgentCommunicationError(text.to_owned())),
        SendOutcome::Closed => Err(Error::AgentCommunicationError(text.to_owned())),
    }
}

/// What a caller gets for each way the wait for an answer can end: the answer
/// itself, a communication error where the connection ended first, a timeout
/// where the time ran out.
pub fn wait_result(outcome: WaitOutcome) -> (result: Result<AgentCommandResponse, Error>)
    ensures
        match outcome {
            WaitOutcome::Response(response) => result == Ok::<AgentCommandResponse, Error>(response),
            WaitOutcome::Closed => result matches Err(Error::AgentCommunicationError(m)) && m@
                == "Response channel closed"@,
            WaitOutcome::Elapsed => result == Err::<AgentCommandResponse, Error>(
                Error::ProcessTimeout,
            ),
        },
{
    match outcome {
        WaitOutcome::Response(response) => Ok(response),
        WaitOutcome::Closed => Err(
            Error::AgentCommunicationError("Response channel closed".to_owned()),
        ),
        WaitOutcome::Elapsed => Err(Error::ProcessTimeout),
    }
}

/// The time to wait for an answer: the caller's, if it names one, else the
/// default.
pub open spec fn effective_timeout(timeout_ms: u64, default_ms: u64) -> u64 {
    if timeout_ms > 0 {
        timeout_ms
    } else {
        default_ms
    }
}

/// What to do while waiting for a connection, after `elapsed_ms` of at most
/// `timeout_ms`: an agent that is there ends the wait, however late and
/// however short the wait; without it the wait goes on until its time is
/// over.
pub open spec fn poll_step(connected: bool, elapsed_ms: u64, timeout_ms: u64) -> ConnectionPoll {
    if connected {
        ConnectionPoll::Connected
    } else if elapsed_ms >= timeout_ms {
        ConnectionPoll::TimedOut
    } else {
        ConnectionPoll::Sleep(CONNECTION_POLL_INTERVAL_MS)
    }
}

/// A wait for a connection succeeds at once where the agent is there,
/// whatever the time allowed, a wait of no time included; it times out only
/// without the agent, and not before its time is over.
pub proof fn lemma_wait_for_connection(connected: bool, elapsed_ms: u64, timeout_ms: u64)
    ensures
        connected ==> poll_step(connected, elapsed_ms, timeout_ms) == ConnectionPoll::Connected,
        poll_step(connected, elapsed_ms, timeout_ms) == ConnectionPoll::Connected ==> connected,
        poll_step(connected, elapsed_ms, timeout_ms) == ConnectionPoll::TimedOut <==> !connected
            && elapsed_ms >= timeout_ms,
{
}

/// A new outbound queue for a connection, with the capacity that gives the
/// backpressure its bound: it holds at most a hundred messages.
pub fn outbound_queue() -> (halves: (Sender<AgentMessageType>, Receiver<AgentMessageType>))
    ensures
        queue_bound(halves.0) == OUTBOUND_QUEUE_CAPACITY,
        feeds(halves.0, halves.1),
        nothing_accepted(halves.0),
{
    assert(usize::MAX >= 0xffff_ffff);
    bounded_queue(OUTBOUND_QUEUE_CAPACITY)
}

/// The bound of the queue that a sender feeds: the number of messages that
/// the queue holds at most, as it was made.
pub uninterp spec fn queue_bound(tx: Sender<AgentMessageType>) -> usize;

/// Whether the sender feeds the queue that the receiver takes from: the two
/// are halves of one channel.
pub uninterp spec fn feeds(tx: Sender<AgentMessageType>, rx: Receiver<AgentMessageType>) -> bool;

/// The messages that the queue has taken from the sender since the queue
/// was made, in the order in which it took them. What the receiver has
/// taken out since is still part of it.
pub uninterp spec fn accepted(tx: Sender<AgentMessageType>) -> Seq<ServerMessageView>;

/// Whether the queue has taken nothing from the sender yet.
pub open spec fn nothing_accepted(tx: Sender<AgentMessageType>) -> bool {
    accepted(tx) == Seq::<ServerMessageView>::empty()
}

/// Whether two senders are sending halves of one queue: they have one
/// bound and feed the same receivers.
pub open spec fn same_queue(a: Sender<AgentMessageType>, b: Sender<AgentMessageType>) -> bool {
    &&& queue_bound(a) == queue_bound(b)
    &&& forall|rx: Receiver<AgentMessageType>| #[trigger] feeds(a, rx) == feeds(b, rx)
}

/// What a queue took at an attempt to enqueue a message: the message, if it
/// was sent, and nothing else.
pub open spec fn taken(outcome: SendOutcome, message: ServerMessageView) -> Seq<ServerMessageView> {
    if outcome == SendOutcome::Sent {
        seq![message]
    } else {
        Seq::empty()
    }
}

/// `tokio::sync::mpsc::Sender::try_send`: enqueues the message if the queue
/// has room and the receiver lives, without waiting. Which of the three
/// outcomes comes depends on the other half, so nothing is claimed of that.
/// Where the message was sent, the queue has taken this message and no
/// other; else it has taken nothing. The sender stays a half of its queue.
/// tokio's method takes the sender by `&self`; it is taken by `&mut` here so
/// that the contract can speak of the queue before and after the call.
#[verifier::external_body]
fn try_enqueue(tx: &mut Sender<AgentMessageType>, message: AgentMessageType) -> (outcome: SendOutcome)
    ensures
        same_queue(*final(tx), *old(tx)),
        accepted(*final(tx)) == accepted(*old(tx)) + taken(outcome, message@),
{
    match tx.try_send(message) {
        Ok(()) => SendOutcome::Sent,
        Err(TrySendError::Full(_)) => SendOutcome::Full,
        Err(TrySendError::Closed(_)) => SendOutcome::Closed,
    }
}

/// `tokio::sync::mpsc::channel`: a new bounded channel whose queue holds at
/// most `capacity` messages, which is what `Sender::max_capacity` reports of
/// it from then on. The two halves that it returns are those of that one
/// channel, whose queue has taken nothing yet. It panics on a capacity of zero or above the semaphore's limit,
/// which `requires` leaves out.
#[verifier::external_body]
fn bounded_queue(capacity: usize) -> (halves: (Sender<AgentMessageType>, Receiver<AgentMessageType>))
    requires
        0 < capacity <= max_queue_capacity(),
    ensures
        queue_bound(halves.0) == capacity,
        feeds(halves.0, halves.1),
        nothing_accepted(halves.0),
{
    tokio::sync::mpsc::channel(capacity)
}

/// Whether one of the first `upto` pairs of the list has the given key.
pub open spec fn listed_before(list: Seq<(String, String)>, upto: int, key: Seq<char>) -> bool {
    exists|j: int| 0 <= j < upto && j < list.len() && (#[trigger] list[j]).0@ == key
}

/// Whether the list of strings names the given text.
pub open spec fn names(list: Seq<String>, text: Seq<char>) -> bool {
    exists|k: int| 0 <= k < list.len() && (#[trigger] list[k])@ == text
}

/// No text is named twice.
pub open spec fn names_once(list: Seq<String>) -> bool {
    forall|i: int, j: int| 0 <= i < j < list.len() ==> (#[trigger] list[i])@ != (#[trigger] list[j])@
}

/// Appending a text that a list does not name adds that text to what the
/// list names, and every text is still named once.
proof fn lemma_names_push(before: Seq<String>, after: Seq<String>, key: Seq<char>)
    requires
        after.len() == before.len() + 1,
        after.drop_last() == before,
        after.last()@ == key,
        names_once(before),
        !names(before, key),
    ensures
        forall|c: Seq<char>| #[trigger] names(after, c) <==> (names(before, c) || c == key),
        names_once(after),
{
    let n = before.len() as int;
    assert forall|c: Seq<char>| #[trigger] names(after, c) <==> (names(before, c) || c == key) by {
        if names(after, c) {
            let k = choose|k: int| 0 <= k < after.len() && (#[trigger] after[k])@ == c;
            if k < n {
                assert(before[k]@ == c);
            }
        }
        if names(before, c) {
            let k = choose|k: int| 0 <= k < before.len() && (#[trigger] before[k])@ == c;
            assert(after[k]@ == c);
        }
        if c == key {
            assert(after[n]@ == c);
        }
    }
    assert forall|a: int, b: int| 0 <= a < b < after.len() implies (#[trigger] after[a])@ != (
    #[trigger] after[b])@ by {
        assert(before[a]@ == after[a]@);
        if b == n {
            if after[a]@ == key {
                assert(names(before, key));
            }
        } else {
            assert(before[b]@ == after[b]@);
        }
    }
}

/// How the outbound queues of a pool stand after a call, against before
/// it: the queue of the sandbox has taken the messages of `more`, in order,
/// on top of what it had taken, and is the queue that it was; every other
/// sandbox has the sender that it had.
pub open spec fn queues_took(
    before: AgentConnPool,
    after: AgentConnPool,
    sandbox_id: Seq<char>,
    more: Seq<ServerMessageView>,
) -> bool {
    &&& after.sent_to(sandbox_id) == before.sent_to(sandbox_id) + more
    &&& same_queue(after.sender_of(sandbox_id), before.sender_of(sandbox_id))
    &&& forall|other: Seq<char>|
        other != sandbox_id ==> #[trigger] after.sender_of(other) == before.sender_of(other)
}

/// The message, if it was sent, and nothing else.
pub open spec fn sent_if(sent: bool, message: ServerMessageView) -> Seq<ServerMessageView> {
    if sent {
        seq![message]
    } else {
        Seq::empty()
    }
}

/// Whether every sandbox has the sender that it had, with nothing more
/// taken by its queue.
pub open spec fn queues_untouched(before: AgentConnPool, after: AgentConnPool) -> bool {
    forall|id: Seq<char>| #[trigger] after.sender_of(id) == before.sender_of(id)
}

/// A queue takes messages in the order of the calls that send them: what
/// the queue of a sandbox took in one call and then in another, it took in
/// that order, and the queues of the other sandboxes stay out of it.
pub proof fn lemma_queue_keeps_order(
    first: AgentConnPool,
    second: AgentConnPool,
    third: AgentConnPool,
    sandbox_id: Seq<char>,
    earlier: Seq<ServerMessageView>,
    later: Seq<ServerMessageView>,
)
    requires
        queues_took(first, second, sandbox_id, earlier),
        queues_took(second, third, sandbox_id, later),
    ensures
        queues_took(first, third, sandbox_id, earlier + later),
{
    assert(third.sent_to(sandbox_id) =~= first.sent_to(sandbox_id) + (earlier + later));
    assert forall|rx: Receiver<AgentMessageType>| #[trigger]
        feeds(third.sender_of(sandbox_id), rx) == feeds(first.sender_of(sandbox_id), rx) by {
        assert(feeds(third.sender_of(sandbox_id), rx) == feeds(second.sender_of(sandbox_id), rx));
    }
    assert forall|other: Seq<char>| other != sandbox_id implies #[trigger] third.sender_of(other)
        == first.sender_of(other) by {
        assert(third.sender_of(other) == second.sender_of(other));
    }
}

/// Agent connection pool: the connections to sandbox agents and the requests
/// that await their answers.
pub struct AgentConnPool {
    /// Sandbox id -> agent connection.
    connections: DashMap<String, AgentConnection>,
    /// Correlation id -> request that awaits its answer.
    pending_requests: DashMap<String, PendingRequest>,
    /// How long a request waits where its caller names no time.
    response_timeout_ms: u64,
}

impl View for AgentConnPool {
    type V = PoolModel;

    closed spec fn view(&self) -> PoolModel {
        PoolModel {
            connections: Map::new(
                |k: Seq<char>| connection_entries(self.connections).contains_key(k),
                |k: Seq<char>| connection_entries(self.connections)[k].last_heartbeat,
            ),
            pending: Map::new(
                |c: Seq<char>| pending_entries(self.pending_requests).contains_key(c),
                |c: Seq<char>| pending_entries(self.pending_requests)[c].sandbox_id@,
            ),
        }
    }
}

impl AgentConnPool {
    /// The default time that a request waits for its answer.
    pub closed spec fn response_timeout(&self) -> u64 {
        self.response_timeout_ms
    }

    /// The sender under which a connected sandbox is registered.
    pub closed spec fn sender_of(&self, sandbox_id: Seq<char>) -> Sender<AgentMessageType> {
        connection_entries(self.connections)[sandbox_id].tx
    }

    /// The messages that the outbound queue of a connected sandbox has
    /// taken since the sandbox registered, in order.
    pub open spec fn sent_to(&self, sandbox_id: Seq<char>) -> Seq<ServerMessageView> {
        accepted(self.sender_of(sandbox_id))
    }

    /// Create a new agent connection pool.
    pub fn new() -> (pool: Self)
        ensures
            pool@ == PoolModel::empty(),
            pool.response_timeout() == DEFAULT_RESPONSE_TIMEOUT_MS,
    {
        Self::with_timeout(DEFAULT_RESPONSE_TIMEOUT_MS)
    }

    /// Create a new agent connection pool with a custom timeout, in
    /// milliseconds.
    pub fn with_timeout(response_timeout_ms: u64) -> (pool: Self)
        ensures
            pool@ == PoolModel::empty(),
            pool.response_timeout() == response_timeout_ms,
    {
        let pool = AgentConnPool {
            connections: connections_new(),
            pending_requests: pending_new(),
            response_timeout_ms,
        };
        assert(pool@.connections =~= PoolModel::empty().connections);
        assert(pool@.pending =~= PoolModel::empty().pending);
        pool
    }

    /// Cancels every request that is pending on the sandbox: its slot is
    /// dropped, which closes the waiter. Returns the correlation ids that were
    /// cancelled.
    pub fn cancel_all_for(&mut self, sandbox_id: &str) -> (cancelled: Vec<String>)
        ensures
            queues_untouched(*old(self), *final(self)),
            final(self)@.connections == old(self)@.connections,
            final(self)@.pending == old(self)@.pending_without(sandbox_id@),
            final(self).response_timeout() == old(self).response_timeout(),
            forall|id: Seq<char>| final(self).sender_of(id) == old(self).sender_of(id),
            forall|c: Seq<char>| #[trigger]
                names(cancelled@, c) <==> old(self)@.pending_on(sandbox_id@).contains(c),
            names_once(cancelled@),
    {
        let snapshot = pending_snapshot(&self.pending_requests);
        let ghost before = pending_entries(self.pending_requests);
        let ghost conns = connection_entries(self.connections);
        let ghost timeout = self.response_timeout_ms;
        let mut cancelled: Vec<String> = Vec::new();
        let mut i: usize = 0;
        while i < snapshot.len()
            invariant
                i <= snapshot.len(),
                lists_pending(before, snapshot@),
                connection_entries(self.connections) == conns,
                self.response_timeout_ms == timeout,
                forall|c: Seq<char>| #[trigger]
                    pending_entries(self.pending_requests).contains_key(c) <==> (
                    before.contains_key(c) && !(before[c].sandbox_id@ == sandbox_id@
                        && listed_before(snapshot@, i as int, c))),
                forall|c: Seq<char>| #[trigger]
                    pending_entries(self.pending_requests).contains_key(c) ==> pending_entries(
                        self.pending_requests,
                    )[c] == before[c],
                forall|c: Seq<char>| #[trigger]
                    names(cancelled@, c) <==> (before.contains_key(c) && before[c].sandbox_id@
                        == sandbox_id@ && listed_before(snapshot@, i as int, c)),
                names_once(cancelled@),
            decreases snapshot.len() - i,
        {
            let ghost key = snapshot@[i as int].0@;
            let ghost cancelled_before = cancelled@;
            assert(before.contains_key(key) && before[key].sandbox_id@ == snapshot@[i as int].1@);
            assert(!listed_before(snapshot@, i as int, key)) by {
                if listed_before(snapshot@, i as int, key) {
                    let j = choose|j: int|
                        0 <= j < i && j < snapshot@.len() && (#[trigger] snapshot@[j]).0@ == key;
                    assert(snapshot@[j].0@ != snapshot@[i as int].0@);
                }
            }
            assert forall|c: Seq<char>| #[trigger]
                listed_before(snapshot@, i + 1, c) <==> (listed_before(snapshot@, i as int, c) || c
                    == key) by {
                if listed_before(snapshot@, i + 1, c) {
                    let j = choose|j: int|
                        0 <= j < i + 1 && j < snapshot@.len() && (#[trigger] snapshot@[j]).0@ == c;
                    if j < i {
                        assert(listed_before(snapshot@, i as int, c));
                    }
                }
                if listed_before(snapshot@, i as int, c) {
                    let j = choose|j: int|
                        0 <= j < i && j < snapshot@.len() && (#[trigger] snapshot@[j]).0@ == c;
                    assert(0 <= j < i + 1 && snapshot@[j].0@ == c);
                }
                if c == key {
                    assert(snapshot@[i as int].0@ == c);
                }
            }
            if str_eq(snapshot[i].1.as_str(), sandbox_id) {
                let _ = pending_remove(&mut self.pending_requests, snapshot[i].0.as_str());
                cancelled.push(snapshot[i].0.clone());
                proof {
                    assert(!names(cancelled_before, key));
                    assert(cancelled@.drop_last() =~= cancelled_before);
                    lemma_names_push(cancelled_before, cancelled@, key);
                }
            } else {
                proof {
                    assert forall|c: Seq<char>| #[trigger]
                        names(cancelled@, c) <==> (before.contains_key(c) && before[c].sandbox_id@
                            == sandbox_id@ && listed_before(snapshot@, i + 1, c)) by {
                        assert(listed_before(snapshot@, i + 1, c) <==> (listed_before(
                            snapshot@,
                            i as int,
                            c,
                        ) || c == key));
                    }
                }
            }
            proof {
                assert forall|c: Seq<char>| #[trigger]
                    pending_entries(self.pending_requests).contains_key(c) <==> (
                    before.contains_key(c) && !(before[c].sandbox_id@ == sandbox_id@
                        && listed_before(snapshot@, i + 1, c))) by {
                    assert(listed_before(snapshot@, i + 1, c) <==> (listed_before(
                        snapshot@,
                        i as int,
                        c,
                    ) || c == key));
                }
                assert forall|c: Seq<char>| #[trigger]
                    names(cancelled@, c) <==> (before.contains_key(c) && before[c].sandbox_id@
                        == sandbox_id@ && listed_before(snapshot@, i + 1, c)) by {
                    assert(listed_before(snapshot@, i + 1, c) <==> (listed_before(
                        snapshot@,
                        i as int,
                        c,
                    ) || c == key));
                }
            }
            i += 1;
        }
        proof {
            assert forall|c: Seq<char>| before.contains_key(c) implies listed_before(
                snapshot@,
                i as int,
                c,
            ) by {
                let j = choose|j: int| 0 <= j < snapshot@.len() && (#[trigger] snapshot@[j]).0@ == c;
                assert(snapshot@[j].0@ == c);
            }
            assert(self@.pending =~= old(self)@.pending_without(sandbox_id@));
            assert(self@.connections =~= old(self)@.connections);
        }
        cancelled
    }

    /// Register an agent connection at the given time. The latest connection
    /// of a sandbox wins: an earlier one is dropped, and what was pending on it
    /// is cancelled.
    pub fn register(&mut self, sandbox_id: &str, tx: Sender<AgentMessageType>, now: u64)
        ensures
            final(self)@ == old(self)@.register(sandbox_id@, now),
            final(self).sender_of(sandbox_id@) == tx,
            forall|other: Seq<char>|
                other != sandbox_id@ ==> #[trigger] final(self).sender_of(other) == old(self).sender_of(other),
            final(self).response_timeout() == old(self).response_timeout(),
    {
        let _ = self.cancel_all_for(sandbox_id);
        connections_insert(
            &mut self.connections,
            sandbox_id.to_owned(),
            AgentConnection { tx, last_heartbeat: now },
        );
        proof {
            assert(self@.connections =~= old(self)@.connections.insert(sandbox_id@, now));
        }
    }

    /// Unregister an agent connection. What was pending on it is cancelled:
    /// each waiter finds its slot closed and fails with a communication error.
    pub fn unregister(&mut self, sandbox_id: &str)
        ensures
            forall|other: Seq<char>|
                other != sandbox_id@ ==> #[trigger] final(self).sender_of(other) == old(self).sender_of(other),
            final(self)@ == old(self)@.unregister(sandbox_id@),
            final(self).response_timeout() == old(self).response_timeout(),
    {
        let _ = connections_remove(&mut self.connections, sandbox_id);
        proof {
            assert(self@.connections =~= old(self)@.connections.remove(sandbox_id@));
            assert(self@.pending =~= old(self)@.pending);
        }
        let _ = self.cancel_all_for(sandbox_id);
    }

    /// Check if an agent is connected.
    pub fn is_connected(&self, sandbox_id: &str) -> (connected: bool)
        ensures
            connected == self@.connected(sandbox_id@),
    {
        connections_contains(&self.connections, sandbox_id)
    }

    /// Get the number of connected agents.
    pub fn len(&self) -> (count: usize)
        ensures
            self@.connections.dom().finite(),
            count == self@.connections.len(),
    {
        let count = connections_len(&self.connections);
        proof {
            assert(self@.connections.dom() =~= connection_entries(self.connections).dom());
        }
        count
    }

    /// Check if the pool is empty.
    pub fn is_empty(&self) -> (empty: bool)
        ensures
            empty == (self@.connections.len() == 0),
            empty == (forall|id: Seq<char>| !self@.connected(id)),
    {
        let count = self.len();
        proof {
            if count == 0 {
                assert forall|id: Seq<char>| !self@.connected(id) by {
                    if self@.connections.dom().contains(id) {
                        vstd::set_lib::lemma_set_empty_equivalency_len(self@.connections.dom());
                    }
                }
            } else {
                if forall|id: Seq<char>| !self@.connected(id) {
                    assert forall|id: Seq<char>| !self@.connections.dom().contains(id) by {
                        assert(!self@.connected(id));
                    }
                    assert(self@.connections.dom() =~= Set::<Seq<char>>::empty());
                }
            }
        }
        count == 0
    }
}

impl AgentConnPool {
    /// Hands a message to the outbound queue of the sandbox's connection,
    /// without waiting, and says how the queue answered; nothing, where
    /// the sandbox is not registered.
    fn enqueue(&mut self, sandbox_id: &str, message: AgentMessageType) -> (outcome: Option<SendOutcome>)
        ensures
            final(self)@ == old(self)@,
            final(self).response_timeout() == old(self).response_timeout(),
            outcome is Some == old(self)@.connected(sandbox_id@),
            queues_took(
                *old(self),
                *final(self),
                sandbox_id@,
                match outcome {
                    Some(o) => taken(o, message@),
                    None => Seq::empty(),
                },
            ),
    {
        match connections_remove(&mut self.connections, sandbox_id) {
            None => {
                proof {
                    assert(connection_entries(self.connections) =~= connection_entries(
                        old(self).connections,
                    ));
                    assert(self@.connections =~= old(self)@.connections);
                    assert(self@.pending =~= old(self)@.pending);
                    assert(self.sent_to(sandbox_id@) =~= old(self).sent_to(sandbox_id@)
                        + Seq::<ServerMessageView>::empty());
                }
                None
            },
            Some(connection) => {
                let mut tx = connection.tx;
                let outcome = try_enqueue(&mut tx, message);
                connections_insert(
                    &mut self.connections,
                    sandbox_id.to_owned(),
                    AgentConnection { tx, last_heartbeat: connection.last_heartbeat },
                );
                proof {
                    assert(self@.connections =~= old(self)@.connections);
                    assert(self@.pending =~= old(self)@.pending);
                }
                Some(outcome)
            },
        }
    }

    /// Enqueues a message on the outbound queue of the sandbox's connection,
    /// without waiting. A sandbox that is not registered is reported as not
    /// connected; a queue that is full or closed refuses the message at once.
    /// Where the message was sent, the queue of the sandbox has taken this
    /// very message; else no queue has taken anything.
    pub fn send(&mut self, sandbox_id: &str, message: AgentMessageType) -> (result: Result<(), Error>)
        ensures
            final(self)@ == old(self)@,
            final(self).response_timeout() == old(self).response_timeout(),
            !old(self)@.connected(sandbox_id@) ==> (result matches Err(Error::AgentNotConnected(id))
                && id@ == sandbox_id@),
            old(self)@.connected(sandbox_id@) ==> (result is Ok || (result matches Err(
                Error::AgentCommunicationError(m),
            ) && m@ == "Failed to send message"@)),
            queues_took(*old(self), *final(self), sandbox_id@, sent_if(result is Ok, message@)),
    {
        match self.enqueue(sandbox_id, message) {
            None => Err(Error::AgentNotConnected(sandbox_id.to_owned())),
            Some(outcome) => send_result(outcome, "Failed to send message"),
        }
    }

    /// Send a handshake acknowledgment.
    pub fn send_handshake_ack(&mut self, sandbox_id: &str, success: bool, error: Option<String>) -> (result:
        Result<(), Error>)
        ensures
            final(self)@ == old(self)@,
            final(self).response_timeout() == old(self).response_timeout(),
            !old(self)@.connected(sandbox_id@) ==> (result matches Err(Error::AgentNotConnected(id))
                && id@ == sandbox_id@),
            old(self)@.connected(sandbox_id@) ==> (result is Ok || (result matches Err(
                Error::AgentCommunicationError(m),
            ) && m@ == "Failed to send message"@)),
            queues_took(
                *old(self),
                *final(self),
                sandbox_id@,
                sent_if(
                    result is Ok,
                    ServerMessageView::HandshakeAck { success, error: opt_text(error) },
                ),
            ),
    {
        self.send(sandbox_id, handshake_ack_message(success, error))
    }

    /// Stamps the connection of the sandbox with the time of a heartbeat.
    /// Returns whether the sandbox is connected.
    pub fn mark_heartbeat(&mut self, sandbox_id: &str, now: u64) -> (known: bool)
        ensures
            known == old(self)@.connected(sandbox_id@),
            final(self)@ == old(self)@.heartbeat(sandbox_id@, now),
            final(self).response_timeout() == old(self).response_timeout(),
            queues_untouched(*old(self), *final(self)),
    {
        match connections_remove(&mut self.connections, sandbox_id) {
            Some(connection) => {
                connections_insert(
                    &mut self.connections,
                    sandbox_id.to_owned(),
                    AgentConnection { tx: connection.tx, last_heartbeat: now },
                );
                proof {
                    assert(self@.connections =~= old(self)@.connections.insert(sandbox_id@, now));
                    assert(self@.pending =~= old(self)@.pending);
                }
                true
            },
            None => {
                proof {
                    assert(connection_entries(self.connections) =~= connection_entries(
                        old(self).connections,
                    ));
                    assert(self@.connections =~= old(self)@.connections);
                    assert(self@.pending =~= old(self)@.pending);
                }
                false
            },
        }
    }

    /// Send a heartbeat acknowledgment that echoes the heartbeat's timestamp,
    /// and stamp the connection with the time at which the heartbeat came.
    pub fn send_heartbeat_ack(&mut self, sandbox_id: &str, timestamp: u64, now: u64) -> (result:
        Result<(), Error>)
        ensures
            final(self)@ == old(self)@.heartbeat(sandbox_id@, now),
            final(self).response_timeout() == old(self).response_timeout(),
            !old(self)@.connected(sandbox_id@) ==> (result matches Err(Error::AgentNotConnected(id))
                && id@ == sandbox_id@),
            old(self)@.connected(sandbox_id@) ==> (result is Ok || (result matches Err(
                Error::AgentCommunicationError(m),
            ) && m@ == "Failed to send message"@)),
            queues_took(
                *old(self),
                *final(self),
                sandbox_id@,
                sent_if(result is Ok, ServerMessageView::HeartbeatAck { timestamp }),
            ),
    {
        let _ = self.mark_heartbeat(sandbox_id, now);
        self.send(sandbox_id, heartbeat_ack_message(timestamp))
    }

    /// Sends a command to the agent of the sandbox under a fresh correlation
    /// id, and makes the request pending. The caller then waits on the
    /// returned waiter for at most the returned time, and reports how the wait
    /// ended to `complete_command`.
    pub fn run_command(
        &mut self,
        sandbox_id: &str,
        command: String,
        args: Vec<String>,
        env: StringMap,
        cwd: Option<String>,
        timeout_ms: u64,
        stream: bool,
    ) -> (result: Result<PendingCommand, Error>)
        ensures
            final(self)@.connections == old(self)@.connections,
            final(self).response_timeout() == old(self).response_timeout(),
            !old(self)@.connected(sandbox_id@) ==> (result matches Err(Error::AgentNotConnected(id))
                && id@ == sandbox_id@ && final(self)@ == old(self)@),
            old(self)@.connected(sandbox_id@) ==> match result {
                Ok(pending) => pending.timeout_ms == effective_timeout(
                    timeout_ms,
                    old(self).response_timeout(),
                ) && final(self)@ == old(self)@.arm(pending.correlation_id@, sandbox_id@),
                Err(e) => e matches Error::AgentCommunicationError(m) && m@
                    == "Failed to send command"@ && final(self)@.pending.submap_of(
                    old(self)@.pending,
                ),
            },
            match result {
                Ok(pending) => is_uuid_text(pending.correlation_id@) && queues_took(
                    *old(self),
                    *final(self),
                    sandbox_id@,
                    seq![
                        ServerMessageView::RunCommand {
                            correlation_id: pending.correlation_id@,
                            command: command@,
                            args: texts(args@),
                            env: env.pairs(),
                            cwd: opt_text(cwd),
                            timeout_ms,
                            stream,
                        },
                    ],
                ),
                Err(_) => queues_took(*old(self), *final(self), sandbox_id@, Seq::empty()),
            },
    {
        let correlation_id = new_id();
        let result = self.run_command_with_id(
            correlation_id,
            sandbox_id,
            command,
            args,
            env,
            cwd,
            timeout_ms,
            stream,
        );
        proof {
            if old(self)@.connected(sandbox_id@) && result is Err {
                assert(self@.pending.submap_of(old(self)@.pending));
            }
        }
        result
    }

    /// Sends a command under the given correlation id and makes the request
    /// pending. Where the queue refuses the message, nothing stays pending
    /// under that id.
    pub fn run_command_with_id(
        &mut self,
        correlation_id: String,
        sandbox_id: &str,
        command: String,
        args: Vec<String>,
        env: StringMap,
        cwd: Option<String>,
        timeout_ms: u64,
        stream: bool,
    ) -> (result: Result<PendingCommand, Error>)
        ensures
            final(self)@.connections == old(self)@.connections,
            final(self).response_timeout() == old(self).response_timeout(),
            !old(self)@.connected(sandbox_id@) ==> (result matches Err(Error::AgentNotConnected(id))
                && id@ == sandbox_id@ && final(self)@ == old(self)@),
            old(self)@.connected(sandbox_id@) ==> match result {
                Ok(pending) => pending.correlation_id@ == correlation_id@ && pending.timeout_ms
                    == effective_timeout(timeout_ms, old(self).response_timeout()) && final(self)@
                    == old(self)@.arm(correlation_id@, sandbox_id@),
                Err(e) => e matches Error::AgentCommunicationError(m) && m@
                    == "Failed to send command"@ && final(self)@ == old(self)@.resolve(
                    correlation_id@,
                ),
            },
            queues_took(
                *old(self),
                *final(self),
                sandbox_id@,
                sent_if(
                    result is Ok,
                    ServerMessageView::RunCommand {
                        correlation_id: correlation_id@,
                        command: command@,
                        args: texts(args@),
                        env: env.pairs(),
                        cwd: opt_text(cwd),
                        timeout_ms,
                        stream,
                    },
                ),
            ),
    {
        let message = run_command_message(
            correlation_id,
            command,
            args,
            env,
            cwd,
            timeout_ms,
            stream,
        );
        self.request(sandbox_id, message, timeout_ms, "Failed to send command")
    }

    /// Makes a request pending under the correlation id that its message
    /// carries, and enqueues the message for the agent of the sandbox. A
    /// message that carries no correlation id is no request and is refused.
    /// A sandbox without agent is refused before anything is pending; where
    /// the queue refuses the message, the request is pending no more, and
    /// the refusal has the given text.
    pub fn request(
        &mut self,
        sandbox_id: &str,
        message: AgentMessageType,
        timeout_ms: u64,
        refusal: &str,
    ) -> (result: Result<PendingCommand, Error>)
        ensures
            final(self)@.connections == old(self)@.connections,
            final(self).response_timeout() == old(self).response_timeout(),
            message@.correlation_id() is None ==> (result matches Err(Error::InvalidRequest(m))
                && m@ == "Message carries no correlation id"@ && final(self)@ == old(self)@),
            message@.correlation_id() is Some && !old(self)@.connected(sandbox_id@) ==> (
            result matches Err(Error::AgentNotConnected(id)) && id@ == sandbox_id@ && final(self)@
                == old(self)@),
            message@.correlation_id() matches Some(correlation_id) ==> old(self)@.connected(
                sandbox_id@,
            ) ==> match result {
                Ok(pending) => pending.correlation_id@ == correlation_id && pending.timeout_ms
                    == effective_timeout(timeout_ms, old(self).response_timeout()) && final(self)@
                    == old(self)@.arm(correlation_id, sandbox_id@),
                Err(e) => e matches Error::AgentCommunicationError(m) && m@ == refusal@ && final(self)@ == old(self)@.resolve(correlation_id),
            },
            queues_took(*old(self), *final(self), sandbox_id@, sent_if(result is Ok, message@)),
    {
        let correlation_id: String = match message.correlation_id() {
            Some(id) => id.clone(),
            None => {
                proof {
                    assert(self.sent_to(sandbox_id@) =~= old(self).sent_to(sandbox_id@)
                        + Seq::<ServerMessageView>::empty());
                }
                return Err(Error::InvalidRequest("Message carries no correlation id".to_owned()));
            },
        };
        if !connections_contains(&self.connections, sandbox_id) {
            proof {
                assert(self.sent_to(sandbox_id@) =~= old(self).sent_to(sandbox_id@)
                    + Seq::<ServerMessageView>::empty());
            }
            return Err(Error::AgentNotConnected(sandbox_id.to_owned()));
        }
        let (slot, waiter) = single_shot::<AgentCommandResponse>();
        pending_insert(
            &mut self.pending_requests,
            correlation_id.clone(),
            PendingRequest { sandbox_id: sandbox_id.to_owned(), slot },
        );
        proof {
            assert(self@.pending =~= old(self)@.pending.insert(correlation_id@, sandbox_id@));
            assert(self@.connections =~= old(self)@.connections);
        }
        let ghost armed = *self;
        let outcome = match self.enqueue(sandbox_id, message) {
            Some(outcome) => outcome,
            None => SendOutcome::Closed,
        };
        let ghost sent = *self;
        proof {
            assert(armed.connections == old(self).connections);
            assert(sent@ == armed@);
            assert(queues_took(*old(self), sent, sandbox_id@, taken(outcome, message@)));
        }
        match send_result(outcome, refusal) {
            Err(e) => {
                let _ = pending_remove(&mut self.pending_requests, correlation_id.as_str());
                proof {
                    assert(self.connections == sent.connections);
                    assert(self@.pending =~= sent@.pending.remove(correlation_id@));
                    assert(self@.pending =~= old(self)@.pending.remove(correlation_id@));
                    assert(self@.connections =~= old(self)@.connections);
                    assert(outcome != SendOutcome::Sent);
                    assert(taken(outcome, message@) =~= Seq::<ServerMessageView>::empty());
                    assert(self.sent_to(sandbox_id@) == sent.sent_to(sandbox_id@));
                    assert(self.sent_to(sandbox_id@) =~= old(self).sent_to(sandbox_id@)
                        + Seq::<ServerMessageView>::empty());
                    assert(same_queue(self.sender_of(sandbox_id@), old(self).sender_of(sandbox_id@)));
                    assert forall|other: Seq<char>| other != sandbox_id@ implies #[trigger]
                        self.sender_of(other) == old(self).sender_of(other) by {
                        assert(self.sender_of(other) == sent.sender_of(other));
                    }
                }
                Err(e)
            },
            Ok(()) => {
                proof {
                    assert(queues_took(*old(self), *self, sandbox_id@, seq![message@]));
                }
                let wait_ms = if timeout_ms > 0 {
                    timeout_ms
                } else {
                    self.response_timeout_ms
                };
                Ok(PendingCommand { correlation_id, timeout_ms: wait_ms, waiter })
            },
        }
    }

    /// Ends the wait for an answer: the request is no longer pending, whatever
    /// the outcome, and the caller gets the answer, or the error that the
    /// outcome stands for.
    pub fn complete_command(&mut self, correlation_id: &str, outcome: WaitOutcome) -> (result:
        Result<AgentCommandResponse, Error>)
        ensures
            queues_untouched(*old(self), *final(self)),
            final(self)@ == old(self)@.resolve(correlation_id@),
            final(self).response_timeout() == old(self).response_timeout(),
            match outcome {
                WaitOutcome::Response(response) => result == Ok::<AgentCommandResponse, Error>(
                    response,
                ),
                WaitOutcome::Closed => result matches Err(Error::AgentCommunicationError(m)) && m@
                    == "Response channel closed"@,
                WaitOutcome::Elapsed => result == Err::<AgentCommandResponse, Error>(
                    Error::ProcessTimeout,
                ),
            },
    {
        let _ = pending_remove(&mut self.pending_requests, correlation_id);
        proof {
            assert(self@.pending =~= old(self)@.pending.remove(correlation_id@));
            assert(self@.connections =~= old(self)@.connections);
        }
        wait_result(outcome)
    }

    /// Kill a process on an agent. Fire and forget: no answer is awaited.
    /// The request goes out under a fresh correlation id.
    pub fn kill_process(&mut self, sandbox_id: &str, pid: u32, signal: i32) -> (result: Result<(), Error>)
        ensures
            final(self)@ == old(self)@,
            final(self).response_timeout() == old(self).response_timeout(),
            !old(self)@.connected(sandbox_id@) ==> (result matches Err(Error::AgentNotConnected(id))
                && id@ == sandbox_id@),
            old(self)@.connected(sandbox_id@) ==> (result is Ok || (result matches Err(
                Error::AgentCommunicationError(m),
            ) && m@ == "Failed to send message"@)),
            result is Ok ==> (final(self).sent_to(sandbox_id@).len() > 0 && queues_took(
                *old(self),
                *final(self),
                sandbox_id@,
                seq![final(self).sent_to(sandbox_id@).last()],
            ) && (final(self).sent_to(sandbox_id@).last() matches ServerMessageView::KillProcess {
                correlation_id,
                pid: p,
                signal: g,
            } && is_uuid_text(correlation_id) && p == pid && g == signal)),
            result is Err ==> queues_took(*old(self), *final(self), sandbox_id@, Seq::empty()),
    {
        let correlation_id = new_id();
        self.send(sandbox_id, kill_process_message(correlation_id, pid, signal))
    }

    /// Create a PTY on an agent: the request goes out under a fresh
    /// correlation id and is pending until the agent acknowledges it.
    pub fn create_pty(
        &mut self,
        sandbox_id: &str,
        pty_id: String,
        cols: u32,
        rows: u32,
        shell: Option<String>,
        env: StringMap,
    ) -> (result: Result<PendingCommand, Error>)
        ensures
            final(self)@.connections == old(self)@.connections,
            final(self).response_timeout() == old(self).response_timeout(),
            !old(self)@.connected(sandbox_id@) ==> (result matches Err(Error::AgentNotConnected(id))
                && id@ == sandbox_id@ && final(self)@ == old(self)@),
            old(self)@.connected(sandbox_id@) ==> match result {
                Ok(pending) => pending.timeout_ms == old(self).response_timeout() && final(self)@
                    == old(self)@.arm(pending.correlation_id@, sandbox_id@),
                Err(e) => e matches Error::AgentCommunicationError(m) && m@
                    == "Failed to send message"@ && final(self)@.pending.submap_of(
                    old(self)@.pending,
                ),
            },
            match result {
                Ok(pending) => is_uuid_text(pending.correlation_id@) && queues_took(
                    *old(self),
                    *final(self),
                    sandbox_id@,
                    seq![
                        ServerMessageView::CreatePty {
                            correlation_id: pending.correlation_id@,
                            pty_id: pty_id@,
                            cols,
                            rows,
                            shell: opt_text(shell),
                            env: env.pairs(),
                        },
                    ],
                ),
                Err(_) => queues_took(*old(self), *final(self), sandbox_id@, Seq::empty()),
            },
    {
        let message = create_pty_message(new_id(), pty_id, cols, rows, shell, env);
        self.request(sandbox_id, message, 0, "Failed to send message")
    }

    /// Resize a PTY on an agent: the request goes out under a fresh
    /// correlation id and is pending until the agent acknowledges it.
    pub fn resize_pty(&mut self, sandbox_id: &str, pty_id: &str, cols: u32, rows: u32) -> (result:
        Result<PendingCommand, Error>)
        ensures
            final(self)@.connections == old(self)@.connections,
            final(self).response_timeout() == old(self).response_timeout(),
            !old(self)@.connected(sandbox_id@) ==> (result matches Err(Error::AgentNotConnected(id))
                && id@ == sandbox_id@ && final(self)@ == old(self)@),
            old(self)@.connected(sandbox_id@) ==> match result {
                Ok(pending) => pending.timeout_ms == old(self).response_timeout() && final(self)@
                    == old(self)@.arm(pending.correlation_id@, sandbox_id@),
                Err(e) => e matches Error::AgentCommunicationError(m) && m@
                    == "Failed to send message"@ && final(self)@.pending.submap_of(
                    old(self)@.pending,
                ),
            },
            match result {
                Ok(pending) => is_uuid_text(pending.correlation_id@) && queues_took(
                    *old(self),
                    *final(self),
                    sandbox_id@,
                    seq![
                        ServerMessageView::ResizePty {
                            correlation_id: pending.correlation_id@,
                            pty_id: pty_id@,
                            cols,
                            rows,
                        },
                    ],
                ),
                Err(_) => queues_took(*old(self), *final(self), sandbox_id@, Seq::empty()),
            },
    {
        let message = resize_pty_message(new_id(), pty_id.to_owned(), cols, rows);
        self.request(sandbox_id, message, 0, "Failed to send message")
    }

    /// Kill a PTY on an agent: the request goes out under a fresh
    /// correlation id and is pending until the agent acknowledges it.
    pub fn kill_pty(&mut self, sandbox_id: &str, pty_id: &str) -> (result: Result<
        PendingCommand,
        Error,
    >)
        ensures
            final(self)@.connections == old(self)@.connections,
            final(self).response_timeout() == old(self).response_timeout(),
            !old(self)@.connected(sandbox_id@) ==> (result matches Err(Error::AgentNotConnected(id))
                && id@ == sandbox_id@ && final(self)@ == old(self)@),
            old(self)@.connected(sandbox_id@) ==> match result {
                Ok(pending) => pending.timeout_ms == old(self).response_timeout() && final(self)@
                    == old(self)@.arm(pending.correlation_id@, sandbox_id@),
                Err(e) => e matches Error::AgentCommunicationError(m) && m@
                    == "Failed to send message"@ && final(self)@.pending.submap_of(
                    old(self)@.pending,
                ),
            },
            match result {
                Ok(pending) => is_uuid_text(pending.correlation_id@) && queues_took(
                    *old(self),
                    *final(self),
                    sandbox_id@,
                    seq![
                        ServerMessageView::KillPty {
                            correlation_id: pending.correlation_id@,
                            pty_id: pty_id@,
                        },
                    ],
                ),
                Err(_) => queues_took(*old(self), *final(self), sandbox_id@, Seq::empty()),
            },
    {
        let message = kill_pty_message(new_id(), pty_id.to_owned());
        self.request(sandbox_id, message, 0, "Failed to send message")
    }

    /// Send PTY input to an agent. Input carries no correlation id.
    pub fn send_pty_input(&mut self, sandbox_id: &str, pty_id: &str, data: Vec<u8>) -> (result: Result<
        (),
        Error,
    >)
        ensures
            final(self)@ == old(self)@,
            final(self).response_timeout() == old(self).response_timeout(),
            !old(self)@.connected(sandbox_id@) ==> (result matches Err(Error::AgentNotConnected(id))
                && id@ == sandbox_id@),
            old(self)@.connected(sandbox_id@) ==> (result is Ok || (result matches Err(
                Error::AgentCommunicationError(m),
            ) && m@ == "Failed to send message"@)),
            queues_took(
                *old(self),
                *final(self),
                sandbox_id@,
                sent_if(result is Ok, ServerMessageView::PtyInput { pty_id: pty_id@, data: data@ }),
            ),
    {
        self.send(sandbox_id, pty_input_message(pty_id.to_owned(), data))
    }

    /// Handle a response frame from an agent: the request that is pending
    /// under its correlation id is resolved with it. A response that nothing
    /// waits for, late or duplicate, is dropped. Returns whether a request was
    /// pending.
    pub fn handle_response(&mut self, sandbox_id: &str, response: proto::AgentCommandResponse) -> (
        matched: bool
    )
        ensures
            queues_untouched(*old(self), *final(self)),
            matched == old(self)@.pending.contains_key(response.correlation_id@),
            final(self)@ == old(self)@.resolve(response.correlation_id@),
            final(self).response_timeout() == old(self).response_timeout(),
    {
        self.handle_internal_response(AgentCommandResponse::from_wire(response))
    }

    /// Handle an answer from an agent: the request that is pending under its
    /// correlation id is resolved with it. An answer that nothing waits for is
    /// dropped. Returns whether a request was pending.
    pub fn handle_internal_response(&mut self, response: AgentCommandResponse) -> (matched: bool)
        ensures
            queues_untouched(*old(self), *final(self)),
            matched == old(self)@.pending.contains_key(response.correlation_id@),
            final(self)@ == old(self)@.resolve(response.correlation_id@),
            final(self).response_timeout() == old(self).response_timeout(),
    {
        let removed = pending_remove(&mut self.pending_requests, response.correlation_id.as_str());
        proof {
            assert(self@.pending =~= old(self)@.pending.remove(response.correlation_id@));
            assert(self@.connections =~= old(self)@.connections);
        }
        match removed {
            Some(pending) => {
                let _ = fill_slot(pending.slot, response);
                true
            },
            None => false,
        }
    }

    /// One look for the agent of a sandbox, `elapsed_ms` after the wait began:
    /// whether it is there, whether to sleep and look again, or whether the
    /// wait of `timeout_ms` is over.
    pub fn poll_connection(&self, sandbox_id: &str, elapsed_ms: u64, timeout_ms: u64) -> (step:
        ConnectionPoll)
        ensures
            step == poll_step(self@.connected(sandbox_id@), elapsed_ms, timeout_ms),
    {
        if self.is_connected(sandbox_id) {
            ConnectionPoll::Connected
        } else if elapsed_ms >= timeout_ms {
            ConnectionPoll::TimedOut
        } else {
            ConnectionPoll::Sleep(CONNECTION_POLL_INTERVAL_MS)
        }
    }

    /// Get all connected sandbox IDs, each once, in no particular order.
    pub fn get_connected_sandboxes(&self) -> (ids: Vec<String>)
        ensures
            forall|id: Seq<char>| #[trigger] names(ids@, id) <==> self@.connected(id),
            names_once(ids@),
    {
        let snapshot = connections_snapshot(&self.connections);
        let ghost entries = connection_entries(self.connections);
        let mut ids: Vec<String> = Vec::new();
        let mut i: usize = 0;
        while i < snapshot.len()
            invariant
                i <= snapshot.len(),
                ids@.len() == i,
                forall|k: int| 0 <= k < i ==> (#[trigger] ids@[k])@ == snapshot@[k].0@,
            decreases snapshot.len() - i,
        {
            ids.push(snapshot[i].0.clone());
            i += 1;
        }
        proof {
            assert forall|id: Seq<char>| #[trigger] names(ids@, id) <==> self@.connected(id) by {
                if names(ids@, id) {
                    let k = choose|k: int| 0 <= k < ids@.len() && (#[trigger] ids@[k])@ == id;
                    assert(entries.contains_key(snapshot@[k].0@));
                }
                if self@.connected(id) {
                    assert(entries.contains_key(id));
                    let k = choose|k: int|
                        0 <= k < snapshot@.len() && (#[trigger] snapshot@[k]).0@ == id;
                    assert(ids@[k]@ == id);
                }
            }
            assert forall|a: int, b: int| 0 <= a < b < ids@.len() implies (#[trigger] ids@[a])@ != (
            #[trigger] ids@[b])@ by {
                assert(snapshot@[a].0@ != snapshot@[b].0@);
            }
        }
        ids
    }

    /// The sandboxes whose agent was last heard of more than `max_idle_ms`
    /// before `now`, each once, in no particular order.
    pub fn check_stale_connections(&self, max_idle_ms: u64, now: u64) -> (stale: Vec<String>)
        ensures
            forall|id: Seq<char>| #[trigger]
                names(stale@, id) <==> self@.is_stale(id, now, max_idle_ms),
            names_once(stale@),
    {
        let snapshot = connections_snapshot(&self.connections);
        let ghost entries = connection_entries(self.connections);
        let mut stale: Vec<String> = Vec::new();
        let mut i: usize = 0;
        while i < snapshot.len()
            invariant
                i <= snapshot.len(),
                lists_connections(entries, snapshot@),
                forall|id: Seq<char>| #[trigger]
                    names(stale@, id) <==> idle_before(snapshot@, i as int, id, now, max_idle_ms),
                names_once(stale@),
            decreases snapshot.len() - i,
        {
            let last = snapshot[i].1;
            let ghost key = snapshot@[i as int].0@;
            let ghost stale_before = stale@;
            let ghost hit = now - last > max_idle_ms;
            assert(!idle_before(snapshot@, i as int, key, now, max_idle_ms)) by {
                if idle_before(snapshot@, i as int, key, now, max_idle_ms) {
                    let j = choose|j: int|
                        0 <= j < i && j < snapshot@.len() && (#[trigger] snapshot@[j]).0@ == key
                            && now - snapshot@[j].1 > max_idle_ms;
                    assert(snapshot@[j].0@ != snapshot@[i as int].0@);
                }
            }
            assert forall|id: Seq<char>| #[trigger]
                idle_before(snapshot@, i + 1, id, now, max_idle_ms) <==> (idle_before(
                    snapshot@,
                    i as int,
                    id,
                    now,
                    max_idle_ms,
                ) || (id == key && hit)) by {
                if idle_before(snapshot@, i + 1, id, now, max_idle_ms) {
                    let j = choose|j: int|
                        0 <= j < i + 1 && j < snapshot@.len() && (#[trigger] snapshot@[j]).0@ == id
                            && now - snapshot@[j].1 > max_idle_ms;
                    if j < i {
                        assert(idle_before(snapshot@, i as int, id, now, max_idle_ms));
                    }
                }
                if idle_before(snapshot@, i as int, id, now, max_idle_ms) {
                    let j = choose|j: int|
                        0 <= j < i && j < snapshot@.len() && (#[trigger] snapshot@[j]).0@ == id
                            && now - snapshot@[j].1 > max_idle_ms;
                    assert(0 <= j < i + 1 && snapshot@[j].0@ == id);
                }
                if id == key && hit {
                    assert(snapshot@[i as int].0@ == id);
                }
            }
            if now > last && now - last > max_idle_ms {
                stale.push(snapshot[i].0.clone());
                proof {
                    assert(!names(stale_before, key));
                    assert(stale@.drop_last() =~= stale_before);
                    lemma_names_push(stale_before, stale@, key);
                    assert forall|id: Seq<char>| #[trigger]
                        names(stale@, id) <==> idle_before(
                            snapshot@,
                            i + 1,
                            id,
                            now,
                            max_idle_ms,
                        ) by {
                        assert(names(stale@, id) <==> (names(stale_before, id) || id == key));
                    }
                }
            } else {
                proof {
                    assert(!hit);
                    assert forall|id: Seq<char>| #[trigger]
                        names(stale@, id) <==> idle_before(
                            snapshot@,
                            i + 1,
                            id,
                            now,
                            max_idle_ms,
                        ) by {
                        assert(idle_before(snapshot@, i + 1, id, now, max_idle_ms) <==> (
                        idle_before(snapshot@, i as int, id, now, max_idle_ms) || (id == key
                            && hit)));
                    }
                }
            }
            i += 1;
        }
        proof {
            assert forall|id: Seq<char>| #[trigger]
                names(stale@, id) <==> self@.is_stale(id, now, max_idle_ms) by {
                if idle_before(snapshot@, i as int, id, now, max_idle_ms) {
                    let j = choose|j: int|
                        0 <= j < i && j < snapshot@.len() && (#[trigger] snapshot@[j]).0@ == id
                            && now - snapshot@[j].1 > max_idle_ms;
                    assert(entries.contains_key(snapshot@[j].0@));
                }
                if self@.is_stale(id, now, max_idle_ms) {
                    assert(entries.contains_key(id));
                    let j = choose|j: int|
                        0 <= j < snapshot@.len() && (#[trigger] snapshot@[j]).0@ == id;
                    assert(now - snapshot@[j].1 > max_idle_ms);
                    assert(idle_before(snapshot@, i as int, id, now, max_idle_ms));
                }
            }
        }
        stale
    }
}

/// Whether one of the first `upto` connections of the list is the given
/// sandbox, last heard of more than `max_idle` before `now`.
pub open spec fn idle_before(
    list: Seq<(String, u64)>,
    upto: int,
    sandbox_id: Seq<char>,
    now: u64,
    max_idle: u64,
) -> bool {
    exists|j: int|
        0 <= j < upto && j < list.len() && (#[trigger] list[j]).0@ == sandbox_id && now - list[j].1
            > max_idle
}

/// One change of the registry or the matcher.
pub enum PoolOp {
    Register { sandbox_id: Seq<char>, now: u64 },
    Unregister { sandbox_id: Seq<char> },
    Heartbeat { sandbox_id: Seq<char>, now: u64 },
    /// A request to a sandbox; it becomes pending only if the sandbox is
    /// connected.
    Arm { correlation_id: Seq<char>, sandbox_id: Seq<char> },
    Resolve { correlation_id: Seq<char> },
}

impl PoolModel {
    /// The registry after one change.
    pub open spec fn apply(self, op: PoolOp) -> PoolModel {
        match op {
            PoolOp::Register { sandbox_id, now } => self.register(sandbox_id, now),
            PoolOp::Unregister { sandbox_id } => self.unregister(sandbox_id),
            PoolOp::Heartbeat { sandbox_id, now } => self.heartbeat(sandbox_id, now),
            PoolOp::Arm { correlation_id, sandbox_id } => if self.connected(sandbox_id) {
                self.arm(correlation_id, sandbox_id)
            } else {
                self
            },
            PoolOp::Resolve { correlation_id } => self.resolve(correlation_id),
        }
    }

    /// The registry after a sequence of changes, first to last.
    pub open spec fn apply_all(self, ops: Seq<PoolOp>) -> PoolModel
        decreases ops.len(),
    {
        if ops.len() == 0 {
            self
        } else {
            self.apply_all(ops.drop_last()).apply(ops.last())
        }
    }
}

/// Every change keeps the invariant of the registry: what is pending is
/// pending on a registered sandbox.
pub proof fn lemma_apply_keeps_wf(model: PoolModel, op: PoolOp)
    requires
        model.wf(),
    ensures
        model.apply(op).wf(),
{
    let after = model.apply(op);
    assert forall|c: Seq<char>| #[trigger] after.pending.contains_key(c) implies after.connections.contains_key(
        after.pending[c],
    ) by {
        match op {
            PoolOp::Arm { correlation_id, sandbox_id } => {
                if c != correlation_id {
                    assert(model.pending.contains_key(c));
                }
            },
            _ => {
                assert(model.pending.contains_key(c));
            },
        }
    }
}

/// From an empty registry, whatever happens, every pending correlation id is
/// for a currently registered sandbox.
pub proof fn lemma_pending_are_registered(ops: Seq<PoolOp>)
    ensures
        PoolModel::empty().apply_all(ops).wf(),
    decreases ops.len(),
{
    if ops.len() > 0 {
        lemma_pending_are_registered(ops.drop_last());
        lemma_apply_keeps_wf(PoolModel::empty().apply_all(ops.drop_last()), ops.last());
    }
}

/// A registered agent stays connected until it is unregistered: after a
/// registration of a sandbox, and any changes among which none unregisters
/// that sandbox, the sandbox is connected.
pub proof fn lemma_connected_until_unregistered(
    model: PoolModel,
    sandbox_id: Seq<char>,
    now: u64,
    ops: Seq<PoolOp>,
)
    requires
        forall|i: int|
            0 <= i < ops.len() ==> #[trigger] ops[i] != (PoolOp::Unregister { sandbox_id }),
    ensures
        model.register(sandbox_id, now).apply_all(ops).connected(sandbox_id),
    decreases ops.len(),
{
    if ops.len() > 0 {
        let head = ops.drop_last();
        assert forall|i: int| 0 <= i < head.len() implies #[trigger] head[i] != (PoolOp::Unregister {
            sandbox_id,
        }) by {
            assert(head[i] == ops[i]);
        }
        lemma_connected_until_unregistered(model, sandbox_id, now, head);
        assert(ops.last() == ops[ops.len() - 1]);
    }
}

/// Unregistering a sandbox leaves it disconnected with nothing pending on it,
/// and leaves alone what is pending on other sandboxes.
pub proof fn lemma_unregister_cancels(model: PoolModel, sandbox_id: Seq<char>)
    ensures
        !model.unregister(sandbox_id).connected(sandbox_id),
        model.unregister(sandbox_id).pending_on(sandbox_id) == Set::<Seq<char>>::empty(),
        forall|c: Seq<char>|
            model.pending.contains_key(c) && model.pending[c] != sandbox_id ==> #[trigger] model.unregister(
                sandbox_id,
            ).pending.contains_key(c),
        forall|other: Seq<char>|
            other != sandbox_id ==> model.unregister(sandbox_id).connected(other)
                == #[trigger] model.connected(other),
{
    assert(model.unregister(sandbox_id).pending_on(sandbox_id) =~= Set::<Seq<char>>::empty());
}

/// A correlation id is resolved at most once: after a first answer, or after
/// the wait ran out, nothing is pending under it, and a later answer changes
/// nothing.
pub proof fn lemma_resolve_once(model: PoolModel, correlation_id: Seq<char>)
    ensures
        !model.resolve(correlation_id).pending.contains_key(correlation_id),
        model.resolve(correlation_id).resolve(correlation_id) == model.resolve(correlation_id),
{
    assert(model.resolve(correlation_id).pending.remove(correlation_id) =~= model.resolve(
        correlation_id,
    ).pending);
}

/// A registry holds at most one connection per sandbox, the latest: a second
/// registration replaces the first, and cancels what was pending on it.
pub proof fn lemma_latest_registration_wins(
    model: PoolModel,
    sandbox_id: Seq<char>,
    first: u64,
    second: u64,
)
    ensures
        model.register(sandbox_id, first).register(sandbox_id, second) == model.register(
            sandbox_id,
            second,
        ),
{
    let twice = model.register(sandbox_id, first).register(sandbox_id, second);
    let once = model.register(sandbox_id, second);
    assert(twice.connections =~= once.connections);
    assert(twice.pending =~= once.pending);
}

} // verus!
