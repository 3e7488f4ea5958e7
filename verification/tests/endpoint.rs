use tokio::sync::oneshot;
use workspace_sdk::agent_pool::{AgentConnPool, AgentMessageType};
use workspace_sdk::grpc::{
    convert_pool_message_to_proto, AgentSession, SessionNote, StreamEvent,
};
use workspace_sdk::proto::{
    AgentCreatePtyRequest, AgentKillProcessRequest, AgentKillPtyRequest, AgentMessage,
    AgentPtyInput, AgentResizePtyRequest, AgentRunCommandRequest, ServerHandshakeAck,
    ServerHeartbeatAck, ServerMessage, ServerPayload,
};
use workspace_sdk::string_map::StringMap;

fn handshake(sandbox_id: &str) -> StreamEvent {
    StreamEvent::Frame(AgentMessage::handshake(sandbox_id.to_string(), "1.0.0".to_string()))
}

fn established(
    pool: &mut AgentConnPool,
    sandbox_id: &str,
) -> (AgentSession, tokio::sync::mpsc::Receiver<AgentMessageType>) {
    let mut session = AgentSession::new();
    let out = session.step(pool, handshake(sandbox_id), 0);
    (session, out.outbound.expect("a handshake opens the outbound queue"))
}

fn frame(payload: ServerPayload) -> ServerMessage {
    ServerMessage { message: Some(payload) }
}

#[test]
fn handshake_registers_and_is_acknowledged() {
    let mut pool = AgentConnPool::new();
    let mut session = AgentSession::new();
    assert_eq!(session.sandbox_id(), None);
    assert!(!session.is_closed());
    let out = session.step(&mut pool, handshake("S1"), 10);
    assert_eq!(out.reply, Some(ServerMessage::handshake_ack(true, None)));
    assert!(out.outbound.is_some());
    assert_eq!(out.pty_output, None);
    assert!(!out.close);
    assert_eq!(out.note, SessionNote::Registered);
    assert_eq!(session.sandbox_id(), Some(&"S1".to_string()));
    assert!(pool.is_connected("S1"));
    // what the pool sends comes out of the returned receiver, in order
    let mut outbound = out.outbound.unwrap();
    pool.send("S1", AgentMessageType::HeartbeatAck { timestamp: 1 }).unwrap();
    pool.send("S1", AgentMessageType::HeartbeatAck { timestamp: 2 }).unwrap();
    assert_eq!(outbound.try_recv(), Ok(AgentMessageType::HeartbeatAck { timestamp: 1 }));
    assert_eq!(outbound.try_recv(), Ok(AgentMessageType::HeartbeatAck { timestamp: 2 }));
}

#[test]
fn first_frame_must_be_a_handshake() {
    for first in [
        AgentMessage::heartbeat(1),
        AgentMessage::success("c".to_string(), 0, String::new(), String::new()),
        AgentMessage::pty_output("p".to_string(), vec![1]),
        AgentMessage { message: None },
    ] {
        let mut pool = AgentConnPool::new();
        let mut session = AgentSession::new();
        let out = session.step(&mut pool, StreamEvent::Frame(first), 0);
        assert_eq!(
            out.reply,
            Some(ServerMessage::handshake_ack(false, Some("Expected handshake message".to_string())))
        );
        assert!(out.outbound.is_none());
        assert!(out.close);
        assert_eq!(out.note, SessionNote::HandshakeRejected);
        assert!(session.is_closed());
        assert!(pool.is_empty());
    }
}

#[test]
fn stream_without_a_first_frame_gets_a_failed_acknowledgment() {
    for (event, _) in [(StreamEvent::Ended, 0), (StreamEvent::Failed, 1)] {
        let mut pool = AgentConnPool::new();
        let mut session = AgentSession::new();
        let out = session.step(&mut pool, event, 0);
        assert_eq!(
            out.reply,
            Some(ServerMessage::handshake_ack(false, Some("No handshake message received".to_string())))
        );
        assert!(out.outbound.is_none());
        assert_eq!(out.pty_output, None);
        assert!(out.close);
        assert_eq!(out.note, SessionNote::NoHandshake);
        assert!(session.is_closed());
        assert!(pool.is_empty());
    }
}

#[test]
fn heartbeat_is_echoed_exactly() {
    let mut pool = AgentConnPool::new();
    let (mut session, _outbound) = established(&mut pool, "S1");
    for timestamp in [0, 1, 1_700_000_000_123, u64::MAX] {
        let out = session.step(&mut pool, StreamEvent::Frame(AgentMessage::heartbeat(timestamp)), 5000);
        assert_eq!(out.reply, Some(ServerMessage::heartbeat_ack(timestamp)));
        assert_eq!(
            out.reply,
            Some(frame(ServerPayload::HeartbeatAck(ServerHeartbeatAck { timestamp })))
        );
        assert!(!out.close);
        assert_eq!(out.note, SessionNote::Heartbeat);
    }
    // the heartbeat stamped the connection
    assert!(pool.check_stale_connections(1000, 5500).is_empty());
    assert_eq!(pool.check_stale_connections(1000, 6001), ["S1"]);
}

#[test]
fn command_response_resolves_the_pending_request() {
    let mut pool = AgentConnPool::new();
    let (mut session, _outbound) = established(&mut pool, "S1");
    let mut pending = pool
        .run_command("S1", "echo".to_string(), vec![], StringMap::new(), None, 0, false)
        .unwrap();
    let answer = AgentMessage::success(pending.correlation_id.clone(), 0, "hi\n".to_string(), String::new());
    let out = session.step(&mut pool, StreamEvent::Frame(answer.clone()), 1);
    assert_eq!(out.reply, None);
    assert_eq!(out.note, SessionNote::ResponseDelivered);
    assert_eq!(pending.waiter.try_recv().unwrap().stdout, Some("hi\n".to_string()));
    let again = session.step(&mut pool, StreamEvent::Frame(answer), 2);
    assert_eq!(again.note, SessionNote::ResponseDropped);
    assert!(!again.close);
}

#[test]
fn pty_output_is_handed_on() {
    let mut pool = AgentConnPool::new();
    let (mut session, _outbound) = established(&mut pool, "S1");
    let out = session.step(
        &mut pool,
        StreamEvent::Frame(AgentMessage::pty_output("P".to_string(), b"hi".to_vec())),
        1,
    );
    assert_eq!(out.pty_output, Some(("P".to_string(), b"hi".to_vec())));
    assert_eq!(out.reply, None);
    assert_eq!(out.note, SessionNote::PtyOutput);
}

#[test]
fn unexpected_frames_are_ignored() {
    let mut pool = AgentConnPool::new();
    let (mut session, _outbound) = established(&mut pool, "S1");
    for unexpected in [AgentMessage::handshake("S2".to_string(), "1".to_string()), AgentMessage { message: None }] {
        let out = session.step(&mut pool, StreamEvent::Frame(unexpected), 1);
        assert_eq!(out.reply, None);
        assert!(out.outbound.is_none());
        assert!(!out.close);
        assert_eq!(out.note, SessionNote::Unexpected);
    }
    assert!(pool.is_connected("S1"));
    assert!(!pool.is_connected("S2"));
    assert_eq!(session.sandbox_id(), Some(&"S1".to_string()));
}

#[test]
fn end_of_stream_unregisters_and_cancels() {
    for (event, _) in [(StreamEvent::Ended, 0), (StreamEvent::Failed, 1)] {
        let mut pool = AgentConnPool::new();
        let (mut session, _outbound) = established(&mut pool, "S1");
        let mut a = pool.run_command("S1", "a".to_string(), vec![], StringMap::new(), None, 0, false).unwrap();
        let mut b = pool.run_command("S1", "b".to_string(), vec![], StringMap::new(), None, 0, false).unwrap();
        let out = session.step(&mut pool, event, 1);
        assert!(out.close);
        assert_eq!(out.note, SessionNote::Disconnected);
        assert!(session.is_closed());
        assert!(!pool.is_connected("S1"));
        assert!(matches!(a.waiter.try_recv(), Err(oneshot::error::TryRecvError::Closed)));
        assert!(matches!(b.waiter.try_recv(), Err(oneshot::error::TryRecvError::Closed)));
        // a closed session takes nothing more
        let ignored = session.step(&mut pool, handshake("S1"), 2);
        assert_eq!(ignored.note, SessionNote::Ignored);
        assert!(ignored.close);
        assert!(!pool.is_connected("S1"));
    }
}

#[test]
fn pool_messages_become_frames_field_for_field() {
    let mut env = StringMap::new();
    env.insert("A".to_string(), "1".to_string());
    let c = || "c".to_string();
    let p = || "p".to_string();
    assert_eq!(
        convert_pool_message_to_proto(AgentMessageType::RunCommand {
            correlation_id: c(),
            command: "echo".to_string(),
            args: vec!["hi".to_string()],
            env: env.clone(),
            cwd: Some("/w".to_string()),
            timeout_ms: 2000,
            stream: true,
        }),
        frame(ServerPayload::RunCommand(AgentRunCommandRequest {
            correlation_id: c(),
            command: "echo".to_string(),
            args: vec!["hi".to_string()],
            env: env.clone(),
            cwd: Some("/w".to_string()),
            timeout_ms: 2000,
            stream: true,
        }))
    );
    assert_eq!(
        convert_pool_message_to_proto(AgentMessageType::KillProcess { correlation_id: c(), pid: 7, signal: 9 }),
        frame(ServerPayload::KillProcess(AgentKillProcessRequest { correlation_id: c(), pid: 7, signal: 9 }))
    );
    assert_eq!(
        convert_pool_message_to_proto(AgentMessageType::CreatePty {
            correlation_id: c(),
            pty_id: p(),
            cols: 80,
            rows: 24,
            shell: Some("/bin/sh".to_string()),
            env: env.clone(),
        }),
        frame(ServerPayload::CreatePty(AgentCreatePtyRequest {
            correlation_id: c(),
            pty_id: p(),
            cols: 80,
            rows: 24,
            shell: Some("/bin/sh".to_string()),
            env,
        }))
    );
    assert_eq!(
        convert_pool_message_to_proto(AgentMessageType::ResizePty { correlation_id: c(), pty_id: p(), cols: 1, rows: 2 }),
        frame(ServerPayload::ResizePty(AgentResizePtyRequest { correlation_id: c(), pty_id: p(), cols: 1, rows: 2 }))
    );
    assert_eq!(
        convert_pool_message_to_proto(AgentMessageType::KillPty { correlation_id: c(), pty_id: p() }),
        frame(ServerPayload::KillPty(AgentKillPtyRequest { correlation_id: c(), pty_id: p() }))
    );
    assert_eq!(
        convert_pool_message_to_proto(AgentMessageType::PtyInput { pty_id: p(), data: vec![1, 2] }),
        frame(ServerPayload::PtyInput(AgentPtyInput { pty_id: p(), data: vec![1, 2] }))
    );
    assert_eq!(
        convert_pool_message_to_proto(AgentMessageType::HandshakeAck { success: false, error: Some("e".to_string()) }),
        frame(ServerPayload::HandshakeAck(ServerHandshakeAck { success: false, error: Some("e".to_string()) }))
    );
    assert_eq!(
        convert_pool_message_to_proto(AgentMessageType::HeartbeatAck { timestamp: 9 }),
        frame(ServerPayload::HeartbeatAck(ServerHeartbeatAck { timestamp: 9 }))
    );
}
