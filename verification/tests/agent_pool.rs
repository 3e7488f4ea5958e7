use tokio::sync::mpsc::error::TryRecvError;
use tokio::sync::mpsc::Receiver;
use tokio::sync::oneshot;
use workspace_sdk::agent_pool::{
    create_pty_message, handshake_ack_message, heartbeat_ack_message, kill_process_message,
    kill_pty_message, outbound_queue, pty_input_message, resize_pty_message, run_command_message,
    send_result, wait_result, AgentCommandResponse, AgentConnPool, AgentMessageType,
    ConnectionPoll, WaitOutcome, CONNECTION_POLL_INTERVAL_MS, DEFAULT_RESPONSE_TIMEOUT_MS,
    OUTBOUND_QUEUE_CAPACITY,
};
use workspace_sdk::channels::SendOutcome;
use workspace_sdk::error::Error;
use workspace_sdk::ids::new_id;
use workspace_sdk::proto;
use workspace_sdk::string_map::StringMap;

fn connected(pool: &mut AgentConnPool, sandbox_id: &str) -> Receiver<AgentMessageType> {
    let (tx, rx) = outbound_queue();
    pool.register(sandbox_id, tx, 0);
    rx
}

fn success(correlation_id: &str, exit_code: i32, stdout: &str, stderr: &str) -> proto::AgentCommandResponse {
    proto::AgentCommandResponse {
        correlation_id: correlation_id.to_string(),
        result: Some(proto::AgentCommandOutcome::Success(proto::AgentCommandSuccess {
            exit_code,
            stdout: stdout.to_string(),
            stderr: stderr.to_string(),
        })),
    }
}

fn run(pool: &mut AgentConnPool, sandbox_id: &str, timeout_ms: u64) -> Result<workspace_sdk::agent_pool::PendingCommand, Error> {
    pool.run_command(
        sandbox_id,
        "echo".to_string(),
        vec!["hi".to_string()],
        StringMap::new(),
        None,
        timeout_ms,
        false,
    )
}

fn sorted(mut ids: Vec<String>) -> Vec<String> {
    ids.sort();
    ids
}

#[test]
fn new_pool_is_empty() {
    let pool = AgentConnPool::new();
    assert!(pool.is_empty());
    assert_eq!(pool.len(), 0);
    assert!(!pool.is_connected("s1"));
    assert!(pool.get_connected_sandboxes().is_empty());
    assert_eq!(DEFAULT_RESPONSE_TIMEOUT_MS, 30_000);
    assert_eq!(OUTBOUND_QUEUE_CAPACITY, 100);
}

#[test]
fn registered_agent_stays_connected_until_unregistered() {
    let mut pool = AgentConnPool::new();
    let mut rx1 = connected(&mut pool, "s1");
    assert!(pool.is_connected("s1"));
    let _rx2 = connected(&mut pool, "s2");
    pool.mark_heartbeat("s1", 5);
    pool.send_handshake_ack("s1", true, None).unwrap();
    let pending = run(&mut pool, "s1", 0).unwrap();
    pool.handle_response("s1", success(&pending.correlation_id, 0, "", ""));
    pool.unregister("s2");
    pool.unregister("unknown");
    assert!(pool.is_connected("s1"));
    assert!(!pool.is_connected("s2"));
    assert_eq!(pool.len(), 1);
    assert!(!pool.is_empty());
    assert_eq!(pool.get_connected_sandboxes(), ["s1"]);
    pool.unregister("s1");
    assert!(!pool.is_connected("s1"));
    assert!(pool.is_empty());
    assert!(rx1.try_recv().is_ok());
}

#[test]
fn latest_registration_wins() {
    let mut pool = AgentConnPool::new();
    let mut old_rx = connected(&mut pool, "s1");
    let mut new_rx = connected(&mut pool, "s1");
    assert_eq!(pool.len(), 1);
    pool.send_handshake_ack("s1", true, None).unwrap();
    assert!(matches!(new_rx.try_recv(), Ok(AgentMessageType::HandshakeAck { success: true, error: None })));
    // the sender of the earlier connection was dropped with its entry
    assert_eq!(old_rx.try_recv(), Err(TryRecvError::Disconnected));
}

#[test]
fn send_to_an_unknown_sandbox_is_not_connected() {
    let mut pool = AgentConnPool::new();
    let not_connected = Err(Error::AgentNotConnected("s1".to_string()));
    assert_eq!(pool.send("s1", AgentMessageType::HeartbeatAck { timestamp: 1 }), not_connected);
    assert_eq!(pool.send_handshake_ack("s1", true, None), not_connected);
    assert_eq!(pool.kill_process("s1", 1, 15), not_connected);
    assert_eq!(pool.create_pty("s1", "p".to_string(), 80, 24, None, StringMap::new()).map(|_| ()), not_connected);
    assert_eq!(pool.resize_pty("s1", "p", 80, 24).map(|_| ()), not_connected);
    assert_eq!(pool.kill_pty("s1", "p").map(|_| ()), not_connected);
    assert_eq!(pool.send_pty_input("s1", "p", vec![1]), not_connected);
}

#[test]
fn messages_arrive_in_send_order() {
    let mut pool = AgentConnPool::new();
    let mut rx = connected(&mut pool, "s1");
    for timestamp in 0..10 {
        pool.send("s1", AgentMessageType::HeartbeatAck { timestamp }).unwrap();
    }
    for timestamp in 0..10 {
        assert_eq!(rx.try_recv(), Ok(AgentMessageType::HeartbeatAck { timestamp }));
    }
    assert_eq!(rx.try_recv(), Err(TryRecvError::Empty));
}

#[test]
fn full_queue_refuses_at_once() {
    let mut pool = AgentConnPool::new();
    let mut rx = connected(&mut pool, "s1");
    for timestamp in 0..100 {
        assert_eq!(pool.send("s1", AgentMessageType::HeartbeatAck { timestamp }), Ok(()));
    }
    let refused = Err(Error::AgentCommunicationError("Failed to send message".to_string()));
    assert_eq!(pool.send("s1", AgentMessageType::HeartbeatAck { timestamp: 100 }), refused);
    assert_eq!(pool.send_pty_input("s1", "p", vec![]), refused);
    assert!(pool.is_connected("s1"));
    // room again after the agent took one
    assert_eq!(rx.try_recv(), Ok(AgentMessageType::HeartbeatAck { timestamp: 0 }));
    assert_eq!(pool.send("s1", AgentMessageType::HeartbeatAck { timestamp: 101 }), Ok(()));
}

#[test]
fn full_queue_refuses_a_command_and_leaves_nothing_pending() {
    let mut pool = AgentConnPool::new();
    let _rx = connected(&mut pool, "s1");
    for timestamp in 0..100 {
        pool.send("s1", AgentMessageType::HeartbeatAck { timestamp }).unwrap();
    }
    let result = pool.run_command_with_id(
        "c1".to_string(),
        "s1",
        "echo".to_string(),
        vec![],
        StringMap::new(),
        None,
        0,
        false,
    );
    assert!(matches!(result, Err(Error::AgentCommunicationError(m)) if m == "Failed to send command"));
    assert!(!pool.handle_response("s1", success("c1", 0, "", "")));
}

#[test]
fn closed_queue_refuses() {
    let mut pool = AgentConnPool::new();
    let rx = connected(&mut pool, "s1");
    drop(rx);
    assert_eq!(
        pool.send("s1", AgentMessageType::HeartbeatAck { timestamp: 1 }),
        Err(Error::AgentCommunicationError("Failed to send message".to_string()))
    );
}

#[test]
fn send_result_for_each_outcome() {
    assert_eq!(send_result(SendOutcome::Sent, "t"), Ok(()));
    assert_eq!(send_result(SendOutcome::Full, "t"), Err(Error::AgentCommunicationError("t".to_string())));
    assert_eq!(send_result(SendOutcome::Closed, "t"), Err(Error::AgentCommunicationError("t".to_string())));
}

#[test]
fn wait_result_for_each_outcome() {
    let response = AgentCommandResponse {
        correlation_id: "c".to_string(),
        success: true,
        exit_code: Some(0),
        stdout: None,
        stderr: None,
        error_message: None,
    };
    assert_eq!(wait_result(WaitOutcome::Response(response.clone())), Ok(response));
    assert_eq!(
        wait_result(WaitOutcome::Closed),
        Err(Error::AgentCommunicationError("Response channel closed".to_string()))
    );
    assert_eq!(wait_result(WaitOutcome::Elapsed), Err(Error::ProcessTimeout));
}

#[test]
fn happy_path_run_command() {
    let mut pool = AgentConnPool::new();
    let mut rx = connected(&mut pool, "S1");
    let mut env = StringMap::new();
    env.insert("K".to_string(), "V".to_string());
    let mut pending = pool
        .run_command("S1", "echo".to_string(), vec!["hi".to_string()], env.clone(), Some("/tmp".to_string()), 2000, false)
        .unwrap();
    assert_eq!(pending.timeout_ms, 2000);
    // the agent receives the command under the same correlation id
    match rx.try_recv() {
        Ok(AgentMessageType::RunCommand { correlation_id, command, args, env: sent_env, cwd, timeout_ms, stream }) => {
            assert_eq!(correlation_id, pending.correlation_id);
            assert_eq!(command, "echo");
            assert_eq!(args, ["hi"]);
            assert_eq!(sent_env, env);
            assert_eq!(cwd, Some("/tmp".to_string()));
            assert_eq!(timeout_ms, 2000);
            assert!(!stream);
        }
        other => panic!("unexpected message: {:?}", other),
    }
    assert_eq!(rx.try_recv(), Err(TryRecvError::Empty));
    assert!(matches!(pending.waiter.try_recv(), Err(oneshot::error::TryRecvError::Empty)));
    // the agent answers
    assert!(pool.handle_response("S1", success(&pending.correlation_id, 0, "hi\n", "")));
    let response = pending.waiter.try_recv().unwrap();
    assert_eq!(
        response,
        AgentCommandResponse {
            correlation_id: pending.correlation_id.clone(),
            success: true,
            exit_code: Some(0),
            stdout: Some("hi\n".to_string()),
            stderr: Some(String::new()),
            error_message: None,
        }
    );
    let result = pool.complete_command(&pending.correlation_id, WaitOutcome::Response(response.clone()));
    assert_eq!(result, Ok(response));
}

#[test]
fn default_timeout_applies_when_none_is_named() {
    let mut pool = AgentConnPool::with_timeout(1234);
    let _rx = connected(&mut pool, "s1");
    assert_eq!(run(&mut pool, "s1", 0).unwrap().timeout_ms, 1234);
    assert_eq!(run(&mut pool, "s1", 1).unwrap().timeout_ms, 1);
    let mut default_pool = AgentConnPool::new();
    let _rx2 = connected(&mut default_pool, "s1");
    assert_eq!(run(&mut default_pool, "s1", 0).unwrap().timeout_ms, 30_000);
}

#[test]
fn run_command_needs_a_connection() {
    let mut pool = AgentConnPool::new();
    assert!(matches!(run(&mut pool, "s1", 0), Err(Error::AgentNotConnected(id)) if id == "s1"));
}

#[test]
fn correlation_ids_are_fresh() {
    let mut pool = AgentConnPool::new();
    let _rx = connected(&mut pool, "s1");
    let a = run(&mut pool, "s1", 0).unwrap();
    let b = run(&mut pool, "s1", 0).unwrap();
    assert_ne!(a.correlation_id, b.correlation_id);
    assert_eq!(a.correlation_id.len(), 36);
    assert_ne!(new_id(), new_id());
}

#[test]
fn timeout_then_late_response_is_dropped() {
    let mut pool = AgentConnPool::new();
    let _rx = connected(&mut pool, "S1");
    let pending = run(&mut pool, "S1", 50).unwrap();
    assert_eq!(pending.timeout_ms, 50);
    assert_eq!(pool.complete_command(&pending.correlation_id, WaitOutcome::Elapsed), Err(Error::ProcessTimeout));
    // the late success finds no slot
    assert!(!pool.handle_response("S1", success(&pending.correlation_id, 0, "late", "")));
    assert!(pool.is_connected("S1"));
}

#[test]
fn duplicate_response_is_dropped() {
    let mut pool = AgentConnPool::new();
    let _rx = connected(&mut pool, "s1");
    let mut pending = run(&mut pool, "s1", 0).unwrap();
    assert!(pool.handle_response("s1", success(&pending.correlation_id, 1, "a", "b")));
    assert!(!pool.handle_response("s1", success(&pending.correlation_id, 2, "c", "d")));
    assert_eq!(pending.waiter.try_recv().unwrap().exit_code, Some(1));
}

#[test]
fn responses_may_arrive_out_of_order() {
    let mut pool = AgentConnPool::new();
    let _rx = connected(&mut pool, "s1");
    let mut first = run(&mut pool, "s1", 0).unwrap();
    let mut second = run(&mut pool, "s1", 0).unwrap();
    assert!(pool.handle_response("s1", success(&second.correlation_id, 2, "", "")));
    assert!(pool.handle_response("s1", success(&first.correlation_id, 1, "", "")));
    assert_eq!(first.waiter.try_recv().unwrap().exit_code, Some(1));
    assert_eq!(second.waiter.try_recv().unwrap().exit_code, Some(2));
}

#[test]
fn disconnect_cancels_what_is_pending_on_the_sandbox() {
    let mut pool = AgentConnPool::new();
    let _rx1 = connected(&mut pool, "S1");
    let _rx2 = connected(&mut pool, "S2");
    let mut a = run(&mut pool, "S1", 0).unwrap();
    let mut b = run(&mut pool, "S1", 0).unwrap();
    let mut other = run(&mut pool, "S2", 0).unwrap();
    pool.unregister("S1");
    for waiter in [&mut a.waiter, &mut b.waiter] {
        assert!(matches!(waiter.try_recv(), Err(oneshot::error::TryRecvError::Closed)));
    }
    assert!(matches!(other.waiter.try_recv(), Err(oneshot::error::TryRecvError::Empty)));
    for pending in [&a, &b] {
        assert_eq!(
            pool.complete_command(&pending.correlation_id, WaitOutcome::Closed),
            Err(Error::AgentCommunicationError("Response channel closed".to_string()))
        );
        assert!(!pool.handle_response("S1", success(&pending.correlation_id, 0, "", "")));
    }
    assert!(pool.handle_response("S2", success(&other.correlation_id, 0, "", "")));
}

#[test]
fn cancel_all_for_names_what_it_cancelled() {
    let mut pool = AgentConnPool::new();
    let _rx1 = connected(&mut pool, "S1");
    let _rx2 = connected(&mut pool, "S2");
    let a = run(&mut pool, "S1", 0).unwrap();
    let b = run(&mut pool, "S1", 0).unwrap();
    let _c = run(&mut pool, "S2", 0).unwrap();
    let cancelled = pool.cancel_all_for("S1");
    assert_eq!(sorted(cancelled), sorted(vec![a.correlation_id, b.correlation_id]));
    assert!(pool.cancel_all_for("S1").is_empty());
    assert!(pool.is_connected("S1"));
}

#[test]
fn reconnect_cancels_what_was_pending_on_the_old_connection() {
    let mut pool = AgentConnPool::new();
    let _rx = connected(&mut pool, "S1");
    let mut pending = run(&mut pool, "S1", 0).unwrap();
    let _rx_again = connected(&mut pool, "S1");
    assert!(matches!(pending.waiter.try_recv(), Err(oneshot::error::TryRecvError::Closed)));
    assert!(!pool.handle_response("S1", success(&pending.correlation_id, 0, "", "")));
}

#[test]
fn response_frames_are_read() {
    let ok = AgentCommandResponse::from_wire(success("c", 3, "out", "err"));
    assert_eq!(
        ok,
        AgentCommandResponse {
            correlation_id: "c".to_string(),
            success: true,
            exit_code: Some(3),
            stdout: Some("out".to_string()),
            stderr: Some("err".to_string()),
            error_message: None,
        }
    );
    let failed = AgentCommandResponse::from_wire(proto::AgentCommandResponse {
        correlation_id: "c".to_string(),
        result: Some(proto::AgentCommandOutcome::Error(proto::AgentCommandError {
            code: 1,
            message: "boom".to_string(),
        })),
    });
    assert_eq!(
        failed,
        AgentCommandResponse {
            correlation_id: "c".to_string(),
            success: false,
            exit_code: None,
            stdout: None,
            stderr: None,
            error_message: Some("boom".to_string()),
        }
    );
    let empty = AgentCommandResponse::from_wire(proto::AgentCommandResponse {
        correlation_id: "c".to_string(),
        result: None,
    });
    assert_eq!(empty.error_message, Some("No result in response".to_string()));
    assert!(!empty.success);
}

#[test]
fn requests_carry_fresh_correlation_ids_and_their_fields() {
    let mut pool = AgentConnPool::new();
    let mut rx = connected(&mut pool, "s1");
    let mut env = StringMap::new();
    env.insert("TERM".to_string(), "xterm".to_string());
    pool.kill_process("s1", 42, 9).unwrap();
    let created = pool
        .create_pty("s1", "term-a".to_string(), 80, 24, Some("/bin/sh".to_string()), env.clone())
        .unwrap();
    let resized = pool.resize_pty("s1", "term-a", 120, 40).unwrap();
    let killed = pool.kill_pty("s1", "term-a").unwrap();
    let awaited = vec![created.correlation_id.clone(), resized.correlation_id.clone(), killed.correlation_id.clone()];
    assert_eq!((created.timeout_ms, resized.timeout_ms, killed.timeout_ms), (30_000, 30_000, 30_000));
    pool.send_pty_input("s1", "term-a", b"echo hi\n".to_vec()).unwrap();
    pool.send_handshake_ack("s1", false, Some("no".to_string())).unwrap();
    pool.send_heartbeat_ack("s1", 77, 1000).unwrap();
    let mut ids = Vec::new();
    match rx.try_recv().unwrap() {
        AgentMessageType::KillProcess { correlation_id, pid, signal } => {
            assert_eq!((pid, signal), (42, 9));
            ids.push(correlation_id);
        }
        other => panic!("{:?}", other),
    }
    match rx.try_recv().unwrap() {
        AgentMessageType::CreatePty { correlation_id, pty_id, cols, rows, shell, env: sent } => {
            assert_eq!((pty_id.as_str(), cols, rows), ("term-a", 80, 24));
            assert_eq!(shell, Some("/bin/sh".to_string()));
            assert_eq!(sent, env);
            ids.push(correlation_id);
        }
        other => panic!("{:?}", other),
    }
    match rx.try_recv().unwrap() {
        AgentMessageType::ResizePty { correlation_id, pty_id, cols, rows } => {
            assert_eq!((pty_id.as_str(), cols, rows), ("term-a", 120, 40));
            ids.push(correlation_id);
        }
        other => panic!("{:?}", other),
    }
    match rx.try_recv().unwrap() {
        AgentMessageType::KillPty { correlation_id, pty_id } => {
            assert_eq!(pty_id, "term-a");
            ids.push(correlation_id);
        }
        other => panic!("{:?}", other),
    }
    assert_eq!(
        rx.try_recv().unwrap(),
        AgentMessageType::PtyInput { pty_id: "term-a".to_string(), data: b"echo hi\n".to_vec() }
    );
    assert_eq!(
        rx.try_recv().unwrap(),
        AgentMessageType::HandshakeAck { success: false, error: Some("no".to_string()) }
    );
    assert_eq!(rx.try_recv().unwrap(), AgentMessageType::HeartbeatAck { timestamp: 77 });
    assert_eq!(sorted(ids.clone()).len(), 4);
    // the requests about the terminal went out under the ids that are awaited
    assert_eq!(ids[1..].to_vec(), awaited);
    let mut unique = sorted(ids);
    unique.dedup();
    assert_eq!(unique.len(), 4);
    // each is resolved by the acknowledgment of the agent
    let mut created = created;
    assert!(pool.handle_response("s1", success(&created.correlation_id, 0, "", "")));
    assert!(created.waiter.try_recv().unwrap().success);
}

#[test]
fn stale_connections_are_those_idle_for_too_long() {
    let mut pool = AgentConnPool::new();
    let (tx_a, _rx_a) = outbound_queue();
    let (tx_b, _rx_b) = outbound_queue();
    let (tx_c, _rx_c) = outbound_queue();
    pool.register("a", tx_a, 1000);
    pool.register("b", tx_b, 2000);
    pool.register("c", tx_c, 3000);
    assert_eq!(sorted(pool.check_stale_connections(500, 2500)), ["a"]);
    assert_eq!(sorted(pool.check_stale_connections(500, 2501)), ["a", "b"]);
    assert_eq!(sorted(pool.check_stale_connections(0, 3000)), ["a", "b"]);
    assert!(pool.check_stale_connections(5000, 3000).is_empty());
    // a clock that went back makes nothing stale
    assert!(pool.check_stale_connections(0, 500).is_empty());
    assert!(pool.mark_heartbeat("a", 2400));
    assert!(!pool.mark_heartbeat("zzz", 2400));
    assert_eq!(sorted(pool.check_stale_connections(500, 2501)), ["b"]);
    assert_eq!(pool.send_heartbeat_ack("b", 1, 2500), Ok(()));
    assert!(pool.check_stale_connections(500, 2501).is_empty());
    assert_eq!(sorted(pool.get_connected_sandboxes()), ["a", "b", "c"]);
    assert_eq!(pool.len(), 3);
}

#[test]
fn heartbeat_ack_to_an_unknown_sandbox() {
    let mut pool = AgentConnPool::new();
    assert_eq!(pool.send_heartbeat_ack("s1", 1, 2), Err(Error::AgentNotConnected("s1".to_string())));
    assert!(!pool.is_connected("s1"));
}

#[test]
fn poll_connection_steps() {
    let mut pool = AgentConnPool::new();
    assert_eq!(pool.poll_connection("s1", 0, 30_000), ConnectionPoll::Sleep(100));
    assert_eq!(pool.poll_connection("s1", 29_999, 30_000), ConnectionPoll::Sleep(CONNECTION_POLL_INTERVAL_MS));
    assert_eq!(pool.poll_connection("s1", 30_000, 30_000), ConnectionPoll::TimedOut);
    let _rx = connected(&mut pool, "s1");
    assert_eq!(pool.poll_connection("s1", 0, 30_000), ConnectionPoll::Connected);
    assert_eq!(pool.poll_connection("s1", 29_999, 30_000), ConnectionPoll::Connected);
    // an agent that is there ends the wait, whatever the time allowed
    assert_eq!(pool.poll_connection("s1", 30_000, 30_000), ConnectionPoll::Connected);
    assert_eq!(pool.poll_connection("s1", 0, 0), ConnectionPoll::Connected);
    assert_eq!(pool.poll_connection("s2", 0, 0), ConnectionPoll::TimedOut);
    assert_eq!(pool.poll_connection("s2", 0, 1), ConnectionPoll::Sleep(100));
}

#[test]
fn outbound_queue_is_bounded_at_a_hundred() {
    let (tx, mut rx) = outbound_queue();
    assert_eq!(tx.max_capacity(), 100);
    assert_eq!(tx.max_capacity(), OUTBOUND_QUEUE_CAPACITY);
    for timestamp in 0..100 {
        assert!(tx.try_send(AgentMessageType::HeartbeatAck { timestamp }).is_ok());
    }
    assert!(tx.try_send(AgentMessageType::HeartbeatAck { timestamp: 100 }).is_err());
    assert_eq!(rx.try_recv(), Ok(AgentMessageType::HeartbeatAck { timestamp: 0 }));
}

#[test]
fn new_ids_are_random_uuids() {
    for _ in 0..50 {
        let id = new_id();
        let chars: Vec<char> = id.chars().collect();
        assert_eq!(chars.len(), 36, "{}", id);
        for (i, c) in chars.iter().enumerate() {
            if [8, 13, 18, 23].contains(&i) {
                assert_eq!(*c, '-', "{}", id);
            } else {
                assert!(c.is_ascii_digit() || ('a'..='f').contains(c), "{}", id);
            }
        }
        assert_eq!(chars[14], '4', "{}", id);
        assert!(['8', '9', 'a', 'b'].contains(&chars[19]), "{}", id);
    }
}

#[test]
fn messages_carry_what_they_were_made_of() {
    let mut env = StringMap::new();
    env.insert("A".to_string(), "1".to_string());
    let c = || "c".to_string();
    let run = run_command_message(c(), "echo".to_string(), vec!["hi".to_string()], env.clone(), Some("/w".to_string()), 2000, true);
    assert_eq!(
        run,
        AgentMessageType::RunCommand {
            correlation_id: c(),
            command: "echo".to_string(),
            args: vec!["hi".to_string()],
            env: env.clone(),
            cwd: Some("/w".to_string()),
            timeout_ms: 2000,
            stream: true,
        }
    );
    assert_eq!(run.correlation_id(), Some(&c()));
    assert_eq!(kill_process_message(c(), 7, 9), AgentMessageType::KillProcess { correlation_id: c(), pid: 7, signal: 9 });
    assert_eq!(
        create_pty_message(c(), "p".to_string(), 80, 24, Some("/bin/sh".to_string()), env.clone()),
        AgentMessageType::CreatePty {
            correlation_id: c(),
            pty_id: "p".to_string(),
            cols: 80,
            rows: 24,
            shell: Some("/bin/sh".to_string()),
            env,
        }
    );
    assert_eq!(
        resize_pty_message(c(), "p".to_string(), 1, 2),
        AgentMessageType::ResizePty { correlation_id: c(), pty_id: "p".to_string(), cols: 1, rows: 2 }
    );
    assert_eq!(kill_pty_message(c(), "p".to_string()), AgentMessageType::KillPty { correlation_id: c(), pty_id: "p".to_string() });
    let input = pty_input_message("p".to_string(), vec![1, 2]);
    assert_eq!(input, AgentMessageType::PtyInput { pty_id: "p".to_string(), data: vec![1, 2] });
    assert_eq!(input.correlation_id(), None);
    assert_eq!(
        handshake_ack_message(false, Some("e".to_string())),
        AgentMessageType::HandshakeAck { success: false, error: Some("e".to_string()) }
    );
    assert_eq!(heartbeat_ack_message(9), AgentMessageType::HeartbeatAck { timestamp: 9 });
    assert_eq!(heartbeat_ack_message(9).correlation_id(), None);
}

#[test]
fn request_arms_under_the_id_of_its_message() {
    let mut pool = AgentConnPool::new();
    let mut rx = connected(&mut pool, "s1");
    let message = kill_pty_message("c-1".to_string(), "p".to_string());
    let mut pending = pool.request("s1", message.clone(), 0, "refused").unwrap();
    assert_eq!(pending.correlation_id, "c-1");
    assert_eq!(pending.timeout_ms, 30_000);
    assert_eq!(rx.try_recv(), Ok(message));
    assert!(rx.try_recv().is_err());
    assert!(pool.handle_response("s1", success("c-1", 0, "", "")));
    assert!(pending.waiter.try_recv().unwrap().success);
    // a message without correlation id is no request
    let refused = pool.request("s1", heartbeat_ack_message(1), 0, "refused");
    assert_eq!(refused.err(), Some(Error::InvalidRequest("Message carries no correlation id".to_string())));
    assert!(rx.try_recv().is_err());
    let unknown = pool.request("s2", kill_pty_message("c-2".to_string(), "p".to_string()), 5, "refused");
    assert_eq!(unknown.err(), Some(Error::AgentNotConnected("s2".to_string())));
    // a full queue refuses with the given text and leaves nothing pending
    for timestamp in 0..100 {
        pool.send("s1", heartbeat_ack_message(timestamp)).unwrap();
    }
    let full = pool.request("s1", kill_pty_message("c-3".to_string(), "p".to_string()), 5, "refused");
    assert_eq!(full.err(), Some(Error::AgentCommunicationError("refused".to_string())));
    assert!(!pool.handle_response("s1", success("c-3", 0, "", "")));
}

#[test]
fn socket_frames_of_a_terminal() {
    let service = workspace_sdk::pty_service::PtyService::new();
    let mut pool = AgentConnPool::new();
    let mut rx = connected(&mut pool, "s1");
    let data = |bytes: &[u8]| workspace_sdk::pty_service::SocketEvent::Data(bytes.to_vec());
    let go_on = workspace_sdk::pty_service::SocketStep::Continue;
    let leave = |e: Option<Error>| workspace_sdk::pty_service::SocketStep::Stop(e);
    assert_eq!(service.socket_frame(&mut pool, "s1", "p", data(b"ls\n")), go_on);
    assert_eq!(rx.try_recv(), Ok(pty_input_message("p".to_string(), b"ls\n".to_vec())));
    assert_eq!(service.socket_frame(&mut pool, "s1", "p", workspace_sdk::pty_service::SocketEvent::Other), go_on);
    assert!(rx.try_recv().is_err());
    assert_eq!(service.socket_frame(&mut pool, "s1", "p", workspace_sdk::pty_service::SocketEvent::Close), leave(None));
    assert_eq!(service.socket_frame(&mut pool, "s1", "p", workspace_sdk::pty_service::SocketEvent::Failed), leave(None));
    assert_eq!(
        service.socket_frame(&mut pool, "s2", "p", data(b"x")),
        leave(Some(Error::AgentNotConnected("s2".to_string())))
    );
    for timestamp in 0..100 {
        pool.send("s1", heartbeat_ack_message(timestamp)).unwrap();
    }
    assert_eq!(
        service.socket_frame(&mut pool, "s1", "p", data(b"x")),
        leave(Some(Error::AgentCommunicationError("Failed to send message".to_string())))
    );
}

#[test]
fn messages_arrive_in_the_order_sent() {
    let mut pool = AgentConnPool::new();
    let mut rx = connected(&mut pool, "s1");
    let mut other = connected(&mut pool, "s2");
    pool.send_heartbeat_ack("s1", 1, 10).unwrap();
    pool.send_pty_input("s1", "p", vec![1, 2]).unwrap();
    pool.send("s2", heartbeat_ack_message(7)).unwrap();
    pool.send_handshake_ack("s1", true, None).unwrap();
    pool.kill_process("s1", 42, 9).unwrap();
    assert_eq!(rx.try_recv(), Ok(heartbeat_ack_message(1)));
    assert_eq!(rx.try_recv(), Ok(pty_input_message("p".to_string(), vec![1, 2])));
    assert_eq!(rx.try_recv(), Ok(handshake_ack_message(true, None)));
    match rx.try_recv() {
        Ok(AgentMessageType::KillProcess { correlation_id, pid, signal }) => {
            assert_eq!((pid, signal), (42, 9));
            assert_eq!(correlation_id.len(), 36);
        }
        other => panic!("unexpected message: {:?}", other),
    }
    assert_eq!(rx.try_recv(), Err(TryRecvError::Empty));
    assert_eq!(other.try_recv(), Ok(heartbeat_ack_message(7)));
    assert_eq!(other.try_recv(), Err(TryRecvError::Empty));
    // the connection is as it was: the heartbeat's stamp stays
    assert!(pool.is_connected("s1"));
    assert_eq!(pool.check_stale_connections(5, 14), vec!["s2".to_string()]);
}
