use workspace_sdk::agent_connection::{
    acknowledgment, command_response, next_reconnect_delay, size_of, AgentTask, ConnectionEnd,
    ConnectionManager, HandshakeReply, Notice, RunStep, CONNECT_TIMEOUT_MS, HANDSHAKE_TIMEOUT_MS,
    HEARTBEAT_INTERVAL_MS, RECONNECT_INITIAL_DELAY_MS, RECONNECT_MAX_DELAY_MS,
};
use workspace_sdk::error::Error;
use workspace_sdk::executor::{
    collect_event, collect_output, exit_code, kill_process, kill_target, CollectedOutput,
    KillTarget, ProcessOutput,
};
use workspace_sdk::proto::{
    AgentCreatePtyRequest, AgentKillProcessRequest, AgentKillPtyRequest, AgentMessage,
    AgentPtyInput, AgentResizePtyRequest, AgentRunCommandRequest, ServerMessage, ServerPayload,
};
use workspace_sdk::pty_manager::{PtyManager, PtySpawn, DEFAULT_MAX_PTYS};
use workspace_sdk::string_map::StringMap;

fn manager() -> ConnectionManager {
    ConnectionManager::new("http://172.17.0.1:9090".to_string(), "S1".to_string())
}

fn frame(payload: ServerPayload) -> ServerMessage {
    ServerMessage { message: Some(payload) }
}

fn create_pty(correlation_id: &str, pty_id: &str, cols: u32, rows: u32, shell: Option<&str>) -> ServerMessage {
    frame(ServerPayload::CreatePty(AgentCreatePtyRequest {
        correlation_id: correlation_id.to_string(),
        pty_id: pty_id.to_string(),
        cols,
        rows,
        shell: shell.map(|s| s.to_string()),
        env: StringMap::new(),
    }))
}

fn done(correlation_id: &str) -> AgentMessage {
    AgentMessage::success(correlation_id.to_string(), 0, String::new(), String::new())
}

fn failed(correlation_id: &str, message: &str) -> AgentMessage {
    AgentMessage::failure(correlation_id.to_string(), 1, message.to_string())
}

fn reply_of(task: AgentTask) -> AgentMessage {
    match task {
        AgentTask::Reply(reply) => reply,
        _ => panic!("the task is no reply"),
    }
}

#[test]
fn timing_constants() {
    assert_eq!(HEARTBEAT_INTERVAL_MS, 30_000);
    assert_eq!(RECONNECT_INITIAL_DELAY_MS, 1_000);
    assert_eq!(RECONNECT_MAX_DELAY_MS, 60_000);
    assert_eq!(CONNECT_TIMEOUT_MS, 30_000);
    assert_eq!(HANDSHAKE_TIMEOUT_MS, 10_000);
    assert_eq!(DEFAULT_MAX_PTYS, 16);
}

#[test]
fn backoff_doubles_up_to_a_minute() {
    let mut manager = manager();
    let mut waits = Vec::new();
    for _ in 0..9 {
        match manager.connection_ended(ConnectionEnd::Failed) {
            RunStep::Reconnect { after_ms } => waits.push(after_ms),
            RunStep::Stop => panic!("a failed connection is tried again"),
        }
        assert!(!manager.is_connected());
    }
    assert_eq!(waits, [1000, 2000, 4000, 8000, 16000, 32000, 60000, 60000, 60000]);
    assert_eq!(next_reconnect_delay(30_000), 60_000);
    assert_eq!(next_reconnect_delay(30_001), 60_000);
    assert_eq!(next_reconnect_delay(u64::MAX), 60_000);
    assert_eq!(next_reconnect_delay(0), 0);
}

#[test]
fn agent_reconnects_after_the_server_closed_the_stream() {
    let mut manager = manager();
    assert_eq!(manager.handshake_reply(HandshakeReply::Frame(ServerMessage::handshake_ack(true, None))), Ok(()));
    assert_eq!(manager.connection_ended(ConnectionEnd::Closed), RunStep::Reconnect { after_ms: 1000 });
    assert!(!manager.is_connected());
    assert_eq!(manager.connection_ended(ConnectionEnd::Failed), RunStep::Reconnect { after_ms: 2000 });
    assert_eq!(manager.connection_ended(ConnectionEnd::Closed), RunStep::Reconnect { after_ms: 4000 });
    // the agent shakes hands again and goes on
    assert_eq!(manager.handshake_reply(HandshakeReply::Frame(ServerMessage::handshake_ack(true, None))), Ok(()));
    assert!(manager.is_connected());
}

#[test]
fn only_shutdown_stops_the_agent() {
    let mut manager = manager();
    assert_eq!(manager.connection_ended(ConnectionEnd::Shutdown), RunStep::Stop);
    assert!(!manager.is_connected());
    // a shutdown is no failure: the wait is as it was
    assert_eq!(manager.connection_ended(ConnectionEnd::Failed), RunStep::Reconnect { after_ms: 1000 });
    assert_eq!(manager.connection_ended(ConnectionEnd::Shutdown), RunStep::Stop);
    assert_eq!(manager.connection_ended(ConnectionEnd::Closed), RunStep::Reconnect { after_ms: 2000 });
}

#[test]
fn handshake_and_heartbeat_frames() {
    let manager = manager();
    assert_eq!(manager.server_addr(), "http://172.17.0.1:9090");
    assert_eq!(manager.handshake("0.1.0"), AgentMessage::handshake("S1".to_string(), "0.1.0".to_string()));
    assert_eq!(manager.heartbeat(1_700_000_000_000), AgentMessage::heartbeat(1_700_000_000_000));
}

#[test]
fn only_a_successful_acknowledgment_connects() {
    let comm = |m: &str| Err(Error::AgentCommunicationError(m.to_string()));
    let mut manager = manager();
    assert!(!manager.is_connected());
    assert_eq!(
        manager.handshake_reply(HandshakeReply::Frame(ServerMessage::handshake_ack(false, Some("nope".to_string())))),
        comm("Handshake failed: nope")
    );
    assert!(!manager.is_connected());
    assert_eq!(
        manager.handshake_reply(HandshakeReply::Frame(ServerMessage::handshake_ack(false, None))),
        comm("Handshake failed: Unknown error")
    );
    assert_eq!(
        manager.handshake_reply(HandshakeReply::Frame(ServerMessage::heartbeat_ack(1))),
        comm("Unexpected response to handshake")
    );
    assert_eq!(
        manager.handshake_reply(HandshakeReply::Frame(ServerMessage { message: None })),
        comm("Unexpected response to handshake")
    );
    assert_eq!(manager.handshake_reply(HandshakeReply::Ended), comm("No handshake response"));
    assert_eq!(manager.handshake_reply(HandshakeReply::Failed("reset".to_string())), comm("reset"));
    assert_eq!(manager.handshake_reply(HandshakeReply::TimedOut), Err(Error::AgentConnectionTimeout));
    assert!(!manager.is_connected());
    assert_eq!(manager.handshake_reply(HandshakeReply::Frame(ServerMessage::handshake_ack(true, None))), Ok(()));
    assert!(manager.is_connected());
    manager.connection_ended(ConnectionEnd::Failed);
    assert!(!manager.is_connected());
}

#[test]
fn run_command_is_handed_to_the_runner() {
    let mut manager = manager();
    let mut env = StringMap::new();
    env.insert("A".to_string(), "1".to_string());
    let task = manager.handle(frame(ServerPayload::RunCommand(AgentRunCommandRequest {
        correlation_id: "c1".to_string(),
        command: "echo".to_string(),
        args: vec!["hi".to_string()],
        env: env.clone(),
        cwd: Some("/workspace".to_string()),
        timeout_ms: 2000,
        stream: false,
    })));
    match task {
        AgentTask::RunCommand { correlation_id, command, args, env: task_env, cwd } => {
            assert_eq!(correlation_id, "c1");
            assert_eq!(command, "echo");
            assert_eq!(args, ["hi"]);
            assert_eq!(task_env, env);
            assert_eq!(cwd, Some("/workspace".to_string()));
        }
        _ => panic!("a command is to be run"),
    }
}

#[test]
fn responses_echo_the_correlation_id() {
    let out = CollectedOutput { exit_code: 0, stdout: "hi\n".to_string(), stderr: String::new() };
    assert_eq!(
        command_response("c1".to_string(), Ok(out)),
        AgentMessage::success("c1".to_string(), 0, "hi\n".to_string(), String::new())
    );
    assert_eq!(
        command_response("c2".to_string(), Err("No such file or directory".to_string())),
        failed("c2", "No such file or directory")
    );
    assert_eq!(acknowledgment("c3".to_string(), Ok(())), done("c3"));
    assert_eq!(acknowledgment("c4".to_string(), Err("e".to_string())), failed("c4", "e"));
}

#[test]
fn kill_is_answered_as_done_unless_the_signal_is_unknown() {
    let mut manager = manager();
    let kill = |pid: u32, signal: i32| {
        frame(ServerPayload::KillProcess(AgentKillProcessRequest { correlation_id: "k".to_string(), pid, signal }))
    };
    match manager.handle(kill(4242, 15)) {
        AgentTask::Signal { target, reply } => {
            assert_eq!(target.pid, 4242);
            assert_eq!(target.signal, 15);
            assert_eq!(target.signal, nix::sys::signal::Signal::SIGTERM as i32);
            assert_eq!(reply, done("k"));
        }
        _ => panic!("a known signal is delivered"),
    }
    match manager.handle(kill(1, 9)) {
        AgentTask::Signal { target, .. } => {
            assert_eq!(target, KillTarget { pid: 1, signal: nix::sys::signal::Signal::SIGKILL as i32 })
        }
        _ => panic!("a known signal is delivered"),
    }
    for unknown in [0, -1, 9999] {
        assert_eq!(
            reply_of(manager.handle(kill(1, unknown))),
            failed("k", "Invalid parameter: Invalid signal")
        );
    }
}

#[test]
fn kill_process_translates_pid_and_signal() {
    assert_eq!(kill_process(1, 2), Ok(KillTarget { pid: 1, signal: nix::sys::signal::Signal::SIGINT as i32 }));
    assert_eq!(kill_target(7, 2, true), Ok(KillTarget { pid: 7, signal: 2 }));
    assert_eq!(kill_target(u32::MAX, 1000, true), Ok(KillTarget { pid: -1, signal: 1000 }));
    assert_eq!(kill_target(7, 2, false), Err(Error::InvalidParameter("Invalid signal".to_string())));
    assert_eq!(kill_process(0x7fff_ffff, 15).unwrap().pid, i32::MAX);
    assert_eq!(kill_process(0x8000_0000, 15).unwrap().pid, i32::MIN);
    assert_eq!(kill_process(u32::MAX, 15).unwrap().pid, -1);
    assert_eq!(kill_process(0, 15).unwrap().pid, 0);
    assert!(matches!(kill_process(1, 1000), Err(Error::InvalidParameter(m)) if m == "Invalid signal"));
}

#[test]
fn pty_lifecycle() {
    let mut manager = manager();
    let env = {
        let mut env = StringMap::new();
        env.insert("TERM".to_string(), "xterm".to_string());
        env
    };
    let task = manager.handle(frame(ServerPayload::CreatePty(AgentCreatePtyRequest {
        correlation_id: "c1".to_string(),
        pty_id: "P".to_string(),
        cols: 80,
        rows: 24,
        shell: Some("/bin/sh".to_string()),
        env: env.clone(),
    })));
    match task {
        AgentTask::OpenPty { correlation_id, pty_id, spawn, env: task_env } => {
            assert_eq!(correlation_id, "c1");
            assert_eq!(pty_id, "P");
            assert_eq!(spawn, PtySpawn { shell: "/bin/sh".to_string(), cols: 80, rows: 24 });
            assert_eq!(task_env, env);
        }
        _ => panic!("the terminal is to be opened"),
    }
    assert_eq!(manager.pty_opened("c1".to_string(), "P", Ok(())), done("c1"));

    let input = frame(ServerPayload::PtyInput(AgentPtyInput { pty_id: "P".to_string(), data: b"echo hi\n".to_vec() }));
    assert!(matches!(
        manager.handle(input.clone()),
        AgentTask::WritePty { pty_id, data } if pty_id == "P" && data == b"echo hi\n"
    ));

    let resize = frame(ServerPayload::ResizePty(AgentResizePtyRequest {
        correlation_id: "c2".to_string(),
        pty_id: "P".to_string(),
        cols: 120,
        rows: 40,
    }));
    for _ in 0..2 {
        assert!(matches!(
            manager.handle(resize.clone()),
            AgentTask::ResizePty { correlation_id, pty_id, cols: 120, rows: 40 } if correlation_id == "c2" && pty_id == "P"
        ));
    }

    let kill = frame(ServerPayload::KillPty(AgentKillPtyRequest { correlation_id: "c3".to_string(), pty_id: "P".to_string() }));
    match manager.handle(kill.clone()) {
        AgentTask::ClosePty { pty_id, reply } => {
            assert_eq!(pty_id, "P");
            assert_eq!(reply, done("c3"));
        }
        _ => panic!("the terminal is to be closed"),
    }
    // the terminal is gone
    assert_eq!(reply_of(manager.handle(resize)), failed("c2", "PTY not found: P"));
    assert_eq!(reply_of(manager.handle(kill)), failed("c3", "PTY not found: P"));
    assert!(matches!(manager.handle(input), AgentTask::Nothing(Notice::UnknownPty)));
}

#[test]
fn default_shell_is_bash() {
    let mut manager = manager();
    match manager.handle(create_pty("c", "P", 80, 24, None)) {
        AgentTask::OpenPty { spawn, .. } => assert_eq!(spawn.shell, "/bin/bash"),
        _ => panic!("the terminal is to be opened"),
    }
}

#[test]
fn create_pty_at_capacity_is_refused_and_allocates_nothing() {
    let mut manager = manager();
    for i in 0..16 {
        let id = format!("pty-{}", i);
        assert!(matches!(manager.handle(create_pty("c", &id, 80, 24, None)), AgentTask::OpenPty { .. }));
    }
    assert_eq!(reply_of(manager.handle(create_pty("c17", "pty-16", 80, 24, None))), failed("c17", "PTY limit exceeded"));
    let input = |id: &str| frame(ServerPayload::PtyInput(AgentPtyInput { pty_id: id.to_string(), data: vec![] }));
    assert!(matches!(manager.handle(input("pty-16")), AgentTask::Nothing(Notice::UnknownPty)));
    assert!(matches!(manager.handle(input("pty-15")), AgentTask::WritePty { .. }));
    // room again after a kill
    let kill = frame(ServerPayload::KillPty(AgentKillPtyRequest { correlation_id: "k".to_string(), pty_id: "pty-0".to_string() }));
    assert!(matches!(manager.handle(kill), AgentTask::ClosePty { .. }));
    assert!(matches!(manager.handle(create_pty("c", "pty-16", 80, 24, None)), AgentTask::OpenPty { .. }));
}

#[test]
fn terminal_that_could_not_be_opened_is_forgotten() {
    let mut manager = manager();
    manager.handle(create_pty("c", "P", 80, 24, None));
    assert_eq!(manager.pty_opened("c".to_string(), "P", Err("no pty".to_string())), failed("c", "no pty"));
    let input = frame(ServerPayload::PtyInput(AgentPtyInput { pty_id: "P".to_string(), data: vec![] }));
    assert!(matches!(manager.handle(input), AgentTask::Nothing(Notice::UnknownPty)));
}

#[test]
fn sizes_keep_their_low_sixteen_bits() {
    assert_eq!(size_of(80), 80);
    assert_eq!(size_of(65535), 65535);
    assert_eq!(size_of(65536), 0);
    assert_eq!(size_of(65536 + 24), 24);
    assert_eq!(size_of(u32::MAX), 65535);
}

#[test]
fn acknowledgments_and_empty_frames_ask_for_nothing() {
    let mut manager = manager();
    assert!(matches!(manager.handle(ServerMessage::heartbeat_ack(5)), AgentTask::Nothing(Notice::HeartbeatAcknowledged)));
    assert!(matches!(
        manager.handle(ServerMessage::handshake_ack(true, None)),
        AgentTask::Nothing(Notice::UnexpectedHandshakeAck)
    ));
    assert!(matches!(manager.handle(ServerMessage { message: None }), AgentTask::Nothing(Notice::EmptyMessage)));
}

#[test]
fn pty_manager_table() {
    let mut ptys = PtyManager::new(2);
    assert_eq!(ptys.len(), 0);
    assert_eq!(ptys.resize("a", 1, 1), Err(Error::PtyNotFound("a".to_string())));
    assert_eq!(ptys.kill("a"), Err(Error::PtyNotFound("a".to_string())));
    assert_eq!(ptys.write("a", b"x"), Err(Error::PtyNotFound("a".to_string())));
    assert_eq!(
        ptys.create("a".to_string(), 80, 24, Some("/bin/sh")),
        Ok(PtySpawn { shell: "/bin/sh".to_string(), cols: 80, rows: 24 })
    );
    // an id in use is taken over
    assert_eq!(
        ptys.create("a".to_string(), 100, 30, None),
        Ok(PtySpawn { shell: "/bin/bash".to_string(), cols: 100, rows: 30 })
    );
    assert_eq!(ptys.len(), 1);
    assert!(ptys.create("b".to_string(), 80, 24, None).is_ok());
    assert_eq!(ptys.create("c".to_string(), 80, 24, None), Err(Error::PtyLimitExceeded));
    assert_eq!(ptys.create("a".to_string(), 80, 24, None), Err(Error::PtyLimitExceeded));
    assert_eq!(ptys.len(), 2);
    assert!(!ptys.contains("c"));
    assert_eq!(ptys.write("a", b"echo hi\n"), Ok(8));
    assert_eq!(ptys.write("a", b""), Ok(0));
    assert_eq!(ptys.resize("a", 120, 40), Ok(()));
    assert_eq!(ptys.resize("a", 120, 40), Ok(()));
    assert_eq!(ptys.kill("a"), Ok(()));
    assert_eq!(ptys.kill("a"), Err(Error::PtyNotFound("a".to_string())));
    assert_eq!(ptys.resize("a", 1, 1), Err(Error::PtyNotFound("a".to_string())));
    assert!(ptys.contains("b"));
    assert_eq!(ptys.len(), 1);
    let mut none = PtyManager::new(0);
    assert_eq!(none.create("a".to_string(), 1, 1, None), Err(Error::PtyLimitExceeded));
}

#[test]
fn output_is_collected_line_by_line() {
    let events = vec![
        ProcessOutput::Stdout("one".to_string()),
        ProcessOutput::Stderr("warn".to_string()),
        ProcessOutput::Stdout("two".to_string()),
        ProcessOutput::Stdout(String::new()),
        ProcessOutput::Error("ignored".to_string()),
        ProcessOutput::Exit(3),
    ];
    assert_eq!(
        collect_output(&events),
        CollectedOutput { exit_code: 3, stdout: "one\ntwo\n\n".to_string(), stderr: "warn\n".to_string() }
    );
    assert_eq!(
        collect_output(&vec![]),
        CollectedOutput { exit_code: 0, stdout: String::new(), stderr: String::new() }
    );
    assert_eq!(collect_output(&vec![ProcessOutput::Exit(1), ProcessOutput::Exit(2)]).exit_code, 2);
    let echo = vec![ProcessOutput::Stdout("hi".to_string()), ProcessOutput::Exit(0)];
    assert_eq!(collect_output(&echo).stdout, "hi\n");
    let mut collected = CollectedOutput { exit_code: 7, stdout: "a".to_string(), stderr: "b".to_string() };
    collect_event(&mut collected, &ProcessOutput::Stderr("c".to_string()));
    assert_eq!(collected, CollectedOutput { exit_code: 7, stdout: "a".to_string(), stderr: "bc\n".to_string() });
}

#[test]
fn exit_code_of_a_child() {
    assert_eq!(exit_code(Some(0)), 0);
    assert_eq!(exit_code(Some(127)), 127);
    assert_eq!(exit_code(None), -1);
}
