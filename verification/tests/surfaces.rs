use workspace_sdk::api::http::filesystem::{file_type_name, query_flag};
use workspace_sdk::api::http::process::{
    parse_pid, CommandResultResponse, KillProcessRequest, ProcessEventResponse, RunCommandRequest,
};
use workspace_sdk::api::http::pty::{CreatePtyRequest, PtyResponse};
use workspace_sdk::api::http::sandbox::{
    CreateSandboxRequest, DeleteQuery, ListQuery, ListSandboxesResponse, SandboxResponse,
};
use workspace_sdk::api::http::workspace::{
    CreateWorkspaceRequest, ListWorkspacesResponse, WorkspaceResponse,
};
use workspace_sdk::api::mcp::profile::McpProfile;
use workspace_sdk::api::mcp::tools::{
    file_copy_command, file_info_command, file_list_command, file_mkdir_command,
    file_move_command, file_read_command, file_remove_command, file_write_command,
    format_command_result, quote, tool_answer, ToolCommand, TOOL_TIMEOUT_MS,
};
use workspace_sdk::api::mcp::types::{
    timeout_ms, FileCopyParams, FileInfoParams, FileListParams, FileMkdirParams, FileMoveParams,
    FileReadParams, FileRemoveParams, FileWriteParams, ProcessKillParams, ProcessRunParams,
    SandboxCreateParams, SandboxDeleteParams,
};
use workspace_sdk::docker::{
    container_spec, cpu_deltas_usable, image_reference, join_pairs, label_filter, stop_grace,
    ContainerSpec, CreateContainerOpts,
};
use workspace_sdk::error::Error;
use workspace_sdk::process::RunCommandOptions;
use workspace_sdk::sandbox::{CreateSandboxParams, Sandbox, SandboxState};
use workspace_sdk::string_map::StringMap;
use workspace_sdk::timefmt::{format_time, parse_rfc3339, read_time, to_rfc3339};
use workspace_sdk::types::{CommandResult, ProcessEvent, PtyInfo, PtyOptions};
use workspace_sdk::workspace::{CreateWorkspaceParams, Workspace};

fn map(pairs: &[(&str, &str)]) -> StringMap {
    let mut map = StringMap::new();
    for (k, v) in pairs {
        map.insert(k.to_string(), v.to_string());
    }
    map
}

fn command(command: &str, args: &[&str]) -> ToolCommand {
    ToolCommand { command: command.to_string(), args: args.iter().map(|a| a.to_string()).collect() }
}

fn s(text: &str) -> String {
    text.to_string()
}

#[test]
fn image_reference_gets_a_tag() {
    assert_eq!(image_reference("python"), "python:latest");
    assert_eq!(image_reference("python:3.11"), "python:3.11");
    assert_eq!(image_reference("registry:5000/python"), "registry:5000/python");
    assert_eq!(image_reference(""), ":latest");
    assert_eq!(image_reference(":"), ":");
}

#[test]
fn container_spec_translates_the_options() {
    let opts = CreateContainerOpts {
        name: s("workspace-01234567"),
        image: String::new(),
        env: map(&[("B", "2"), ("A", "x=y")]),
        volumes: map(&[("/host/w", "/workspace")]),
        working_dir: Some(s("/workspace")),
        cmd: Some(vec![s("sleep"), s("1")]),
        labels: map(&[("workspace.sandbox.id", "S1")]),
        network_mode: Some(s("bridge")),
        memory_limit: Some(1 << 30),
        cpu_quota: Some(100_000),
        extra_hosts: vec![s("host.docker.internal:host-gateway")],
    };
    assert_eq!(
        container_spec(opts, "workspace-base:latest"),
        ContainerSpec {
            name: s("workspace-01234567"),
            image: s("workspace-base:latest"),
            env: Some(vec![s("B=2"), s("A=x=y")]),
            working_dir: Some(s("/workspace")),
            cmd: Some(vec![s("sleep"), s("1")]),
            labels: Some(map(&[("workspace.sandbox.id", "S1")])),
            binds: Some(vec![s("/host/w:/workspace")]),
            network_mode: Some(s("bridge")),
            memory: Some(1 << 30),
            cpu_quota: Some(100_000),
            extra_hosts: Some(vec![s("host.docker.internal:host-gateway")]),
        }
    );
}

#[test]
fn container_spec_leaves_out_what_is_empty() {
    let opts = CreateContainerOpts {
        name: s("n"),
        image: s("node:20"),
        env: StringMap::new(),
        volumes: StringMap::new(),
        working_dir: None,
        cmd: None,
        labels: StringMap::new(),
        network_mode: None,
        memory_limit: None,
        cpu_quota: None,
        extra_hosts: vec![],
    };
    assert_eq!(
        container_spec(opts, "workspace-base:latest"),
        ContainerSpec {
            name: s("n"),
            image: s("node:20"),
            env: None,
            working_dir: None,
            cmd: None,
            labels: None,
            binds: None,
            network_mode: None,
            memory: None,
            cpu_quota: None,
            extra_hosts: None,
        }
    );
}

#[test]
fn docker_helpers() {
    assert_eq!(join_pairs(&map(&[("a", "1"), ("b", "")]), "="), [s("a=1"), s("b=")]);
    assert_eq!(label_filter("workspace.sandbox.id", "S1"), "workspace.sandbox.id=S1");
    assert_eq!(stop_grace(None), 10);
    assert_eq!(stop_grace(Some(3)), 3);
    assert!(cpu_deltas_usable(2, 1, 20, 10));
    assert!(!cpu_deltas_usable(1, 1, 20, 10));
    assert!(!cpu_deltas_usable(2, 1, 10, 10));
    assert!(!cpu_deltas_usable(1, 2, 20, 10));
    assert!(!cpu_deltas_usable(2, 1, 10, 20));
    assert!(cpu_deltas_usable(u64::MAX, 0, u64::MAX, 0));
}

#[test]
fn times_are_written_as_rfc3339() {
    assert_eq!(format_time(0), "1970-01-01T00:00:00+00:00");
    assert_eq!(format_time(1_000_000_000_555), "2001-09-09T01:46:40.555+00:00");
    assert_eq!(format_time(-1), "1969-12-31T23:59:59.999+00:00");
    assert_eq!(to_rfc3339(947_638_923_004), Some(s("2000-01-12T01:02:03.004+00:00")));
    assert_eq!(to_rfc3339(i64::MAX), None);
    assert_eq!(format_time(i64::MAX), "");
}

#[test]
fn times_are_read_from_rfc3339() {
    assert_eq!(parse_rfc3339("1970-01-01T00:00:00+00:00"), Some(0));
    assert_eq!(parse_rfc3339("1970-01-01T00:00:00Z"), Some(0));
    assert_eq!(parse_rfc3339("2001-09-09T01:46:40.555+00:00"), Some(1_000_000_000_555));
    assert_eq!(parse_rfc3339("1996-12-19T16:39:57-08:00"), Some(851_042_397_000));
    assert_eq!(parse_rfc3339("2001-09-09T01:46:40.555999+00:00"), Some(1_000_000_000_555));
    assert_eq!(parse_rfc3339("yesterday"), None);
    assert_eq!(read_time("2001-09-09T01:46:40.555+00:00"), Ok(1_000_000_000_555));
    assert!(matches!(read_time("yesterday"), Err(why) if !why.is_empty()));
    assert_eq!(parse_rfc3339(""), None);
    for millis in [0, 1, 1_700_000_000_123, -5] {
        assert_eq!(parse_rfc3339(&format_time(millis)), Some(millis));
    }
}

#[test]
fn sandbox_requests_and_replies() {
    let request = CreateSandboxRequest {
        workspace_id: s("W"),
        template: Some(s("python:3.11")),
        name: Some(s("test-sandbox-env")),
        env: Some(map(&[("MY_VAR", "my_value"), ("ANOTHER_VAR", "another_value")])),
        metadata: Some(map(&[("project", "test-project"), ("owner", "test-user")])),
        timeout: Some(60),
    };
    let params = request.clone().into_params();
    assert_eq!(
        params,
        CreateSandboxParams {
            workspace_id: request.workspace_id,
            template: request.template,
            name: request.name,
            env: request.env,
            metadata: request.metadata,
            timeout: request.timeout,
        }
    );
    let mut sandbox = Sandbox::new(s("S1"), s("python:3.11"), 0);
    sandbox.workspace_id = s("W");
    sandbox.name = Some(s("x"));
    sandbox.env = map(&[("MY_VAR", "my_value")]);
    sandbox.timeout = 60;
    sandbox.transition_to(SandboxState::Running, 1500);
    let reply = SandboxResponse::from_sandbox(sandbox.clone());
    assert_eq!(
        reply,
        SandboxResponse {
            id: s("S1"),
            workspace_id: s("W"),
            name: Some(s("x")),
            template: s("python:3.11"),
            state: s("running"),
            env: Some(map(&[("MY_VAR", "my_value")])),
            metadata: Some(StringMap::new()),
            created_at: s("1970-01-01T00:00:00+00:00"),
            updated_at: s("1970-01-01T00:00:01.500+00:00"),
            timeout: Some(60),
            error_message: None,
        }
    );
    let list = ListSandboxesResponse::from_sandboxes(vec![sandbox.clone(), sandbox]);
    assert_eq!(list.total, 2);
    assert_eq!(list.sandboxes, vec![reply.clone(), reply]);
    assert_eq!(ListSandboxesResponse::from_sandboxes(vec![]).total, 0);
}

#[test]
fn sandbox_queries() {
    let filter = |state: Option<&str>| ListQuery { state: state.map(s) }.state_filter();
    assert_eq!(filter(Some("starting")), Some(SandboxState::Starting));
    assert_eq!(filter(Some("running")), Some(SandboxState::Running));
    assert_eq!(filter(Some("stopping")), Some(SandboxState::Stopping));
    assert_eq!(filter(Some("stopped")), Some(SandboxState::Stopped));
    assert_eq!(filter(Some("error")), Some(SandboxState::Error));
    assert_eq!(filter(Some("RUNNING")), None);
    assert_eq!(filter(None), None);
    let force = |flag: Option<&str>| DeleteQuery { force: flag.map(s) }.force();
    assert!(force(Some("true")));
    assert!(!force(Some("false")));
    assert!(!force(Some("TRUE")));
    assert!(!force(Some("1")));
    assert!(!force(None));
    assert!(query_flag(&Some(s("true"))));
    assert_eq!(file_type_name(true), "directory");
    assert_eq!(file_type_name(false), "file");
}

#[test]
fn process_requests_and_replies() {
    let request = RunCommandRequest {
        command: s("echo"),
        args: Some(vec![s("test")]),
        env: Some(map(&[("A", "1")])),
        cwd: Some(s("/workspace")),
        timeout: Some(30000),
    };
    assert_eq!(
        request.into_options(),
        RunCommandOptions {
            command: s("echo"),
            args: vec![s("test")],
            env: map(&[("A", "1")]),
            cwd: Some(s("/workspace")),
            timeout_ms: 30000,
        }
    );
    let bare = RunCommandRequest { command: s("ls"), args: None, env: None, cwd: None, timeout: None };
    assert_eq!(
        bare.into_options(),
        RunCommandOptions { command: s("ls"), args: vec![], env: StringMap::new(), cwd: None, timeout_ms: 0 }
    );
    assert_eq!(
        CommandResultResponse::from_result(CommandResult { exit_code: 2, stdout: s("o"), stderr: s("e") }),
        CommandResultResponse { exit_code: 2, stdout: s("o"), stderr: s("e") }
    );
    assert_eq!(
        ProcessEventResponse::from_event(ProcessEvent::Stdout { data: s("o") }),
        ProcessEventResponse::Stdout { data: s("o") }
    );
    assert_eq!(
        ProcessEventResponse::from_event(ProcessEvent::Stderr { data: s("e") }),
        ProcessEventResponse::Stderr { data: s("e") }
    );
    assert_eq!(ProcessEventResponse::from_event(ProcessEvent::Exit { code: 1 }), ProcessEventResponse::Exit { code: 1 });
    assert_eq!(
        ProcessEventResponse::from_event(ProcessEvent::Error { message: s("m") }),
        ProcessEventResponse::Error { message: s("m") }
    );
    assert_eq!(KillProcessRequest { signal: None }.signal_or_default(), 15);
    assert_eq!(KillProcessRequest { signal: Some(9) }.signal_or_default(), 9);
}

#[test]
fn pid_must_be_a_number() {
    assert_eq!(parse_pid("0"), Ok(0));
    assert_eq!(parse_pid("4242"), Ok(4242));
    assert_eq!(parse_pid("4294967295"), Ok(u32::MAX));
    let invalid = Err(Error::InvalidParameter(s("pid must be a number")));
    assert_eq!(parse_pid("4294967296"), invalid);
    assert_eq!(parse_pid("-1"), invalid);
    assert_eq!(parse_pid("abc"), invalid);
    assert_eq!(parse_pid(""), invalid);
    assert_eq!(parse_pid("12 "), invalid);
}

#[test]
fn pty_requests_and_replies() {
    let request = CreatePtyRequest { cols: Some(100), rows: None, shell: Some(s("/bin/sh")), env: None };
    assert_eq!(
        request.into_options(),
        PtyOptions { cols: Some(100), rows: None, shell: Some(s("/bin/sh")), env: None }
    );
    assert_eq!(
        PtyResponse::from_info(PtyInfo { id: s("P"), sandbox_id: s("S1"), cols: 80, rows: 24 }),
        PtyResponse { id: s("P"), cols: 80, rows: 24 }
    );
}

#[test]
fn workspace_requests_and_replies() {
    let request = CreateWorkspaceRequest { name: Some(s("test-workspace")), metadata: Some(map(&[("k", "v")])) };
    assert_eq!(
        request.into_params(),
        CreateWorkspaceParams { name: Some(s("test-workspace")), metadata: Some(map(&[("k", "v")])) }
    );
    let mut workspace = Workspace::new(s("W"), 1000);
    workspace.name = Some(s("workspace1"));
    workspace.set_nfs_url(s("nfs://localhost:2049/test"), 2000);
    let reply = WorkspaceResponse::from_workspace(workspace.clone());
    assert_eq!(
        reply,
        WorkspaceResponse {
            id: s("W"),
            name: Some(s("workspace1")),
            nfs_url: Some(s("nfs://localhost:2049/test")),
            metadata: StringMap::new(),
            created_at: s("1970-01-01T00:00:01+00:00"),
            updated_at: s("1970-01-01T00:00:02+00:00"),
        }
    );
    let list = ListWorkspacesResponse::from_workspaces(vec![workspace]);
    assert_eq!(list.total, 1);
    assert_eq!(list.workspaces, vec![reply]);
}

#[test]
fn profiles_by_name() {
    for name in ["executor", "exec", "minimal", "EXECUTOR", "Exec", "MiniMal"] {
        assert_eq!(McpProfile::from_str(name), McpProfile::Executor, "{}", name);
    }
    for name in ["developer", "dev", "DEV", "", "unknown", " exec", "full "] {
        assert_eq!(McpProfile::from_str(name), McpProfile::Developer, "{}", name);
    }
    for name in ["full", "all", "complete", "FULL", "Complete"] {
        assert_eq!(McpProfile::from_str(name), McpProfile::Full, "{}", name);
    }
    assert_eq!(McpProfile::from_lowercase("EXEC"), McpProfile::Developer);
    assert_eq!(McpProfile::from_lowercase("exec"), McpProfile::Executor);
    assert_eq!(McpProfile::default(), McpProfile::Developer);
}

#[test]
fn profiles_tools_and_descriptions() {
    assert_eq!(McpProfile::Executor.tool_count(), 1);
    assert_eq!(McpProfile::Developer.tool_count(), 6);
    assert_eq!(McpProfile::Full.tool_count(), 14);
    assert_eq!(McpProfile::Executor.description(), "Executor (1 tool: process_run)");
    assert_eq!(
        McpProfile::Developer.description(),
        "Developer (6 tools: process_run, file_read/write/list/mkdir/remove)"
    );
    assert_eq!(McpProfile::Full.description(), "Full (14 tools: sandbox_*, process_*, file_*)");
}

#[test]
fn tool_parameters() {
    assert_eq!(timeout_ms(None), 0);
    assert_eq!(timeout_ms(Some(30)), 30_000);
    assert_eq!(timeout_ms(Some(0)), 0);
    assert_eq!(timeout_ms(Some(-5)), 0);
    assert_eq!(timeout_ms(Some(i64::MAX)), u64::MAX);
    assert_eq!(timeout_ms(Some(18_446_744_073_709_551)), 18_446_744_073_709_551_000);
    assert_eq!(timeout_ms(Some(18_446_744_073_709_552)), u64::MAX);
    let run = ProcessRunParams {
        sandbox_id: s("S1"),
        command: s("echo"),
        args: None,
        env: None,
        cwd: None,
        timeout: Some(2),
    };
    assert_eq!(
        run.into_options(),
        RunCommandOptions { command: s("echo"), args: vec![], env: StringMap::new(), cwd: None, timeout_ms: 2000 }
    );
    assert_eq!(ProcessKillParams { sandbox_id: s("S1"), pid: 1, signal: None }.signal_or_default(), 15);
    assert!(!SandboxDeleteParams { sandbox_id: s("S1"), force: None }.is_forced());
    assert!(SandboxDeleteParams { sandbox_id: s("S1"), force: Some(true) }.is_forced());
    let create = SandboxCreateParams {
        workspace_id: s("W"),
        template: None,
        name: Some(s("x")),
        env: None,
        metadata: None,
        timeout: Some(5),
    };
    let params = create.into_params();
    assert_eq!((params.workspace_id.as_str(), params.name, params.timeout), ("W", Some(s("x")), Some(5)));
    assert_eq!(TOOL_TIMEOUT_MS, 30_000);
}

#[test]
fn quoting_for_the_shell() {
    assert_eq!(quote("plain.txt"), "plain.txt");
    assert_eq!(quote("it's"), "it'\\''s");
    assert_eq!(quote("''"), "'\\'''\\''");
    assert_eq!(quote(""), "");
    assert_eq!(quote("é'ü"), "é'\\''ü");
}

#[test]
fn file_tool_commands() {
    let sandbox_id = s("S1");
    let path = s("/workspace/a b.txt");
    assert_eq!(
        file_read_command(&FileReadParams { sandbox_id: sandbox_id.clone(), path: path.clone() }),
        command("cat", &["/workspace/a b.txt"])
    );
    assert_eq!(
        file_list_command(&FileListParams { sandbox_id: sandbox_id.clone(), path: path.clone() }),
        command("ls", &["-la", "/workspace/a b.txt"])
    );
    for (recursive, args) in [(None, vec!["-p", "d"]), (Some(true), vec!["-p", "d"]), (Some(false), vec!["d"])] {
        assert_eq!(
            file_mkdir_command(&FileMkdirParams { sandbox_id: sandbox_id.clone(), path: s("d"), recursive }),
            command("mkdir", &args)
        );
    }
    for (recursive, args) in [(None, vec!["-f", "d"]), (Some(false), vec!["-f", "d"]), (Some(true), vec!["-f", "-r", "d"])] {
        assert_eq!(
            file_remove_command(&FileRemoveParams { sandbox_id: sandbox_id.clone(), path: s("d"), recursive }),
            command("rm", &args)
        );
    }
    assert_eq!(
        file_move_command(&FileMoveParams { sandbox_id: sandbox_id.clone(), src: s("a"), dst: s("b") }),
        command("mv", &["a", "b"])
    );
    assert_eq!(
        file_copy_command(&FileCopyParams { sandbox_id: sandbox_id.clone(), src: s("a"), dst: s("b") }),
        command("cp", &["-r", "a", "b"])
    );
    assert_eq!(
        file_write_command(&FileWriteParams { sandbox_id: sandbox_id.clone(), path: s("it's.txt"), content: s("line 1\nline 2") }),
        command("bash", &["-c", "cat > 'it'\\''s.txt' << 'MCPEOF'\nline 1\nline 2\nMCPEOF"])
    );
    assert_eq!(
        file_info_command(&FileInfoParams { sandbox_id, path: s("a'b") }),
        command(
            "bash",
            &["-c", "stat --format='{\"name\":\"%n\",\"size\":%s,\"type\":\"%F\",\"permissions\":\"%a\",\"modified\":\"%y\"}' 'a'\\''b'"]
        )
    );
}

#[test]
fn tool_answers() {
    assert_eq!(tool_answer(0, s("content"), "Failed to read file", "err"), "content");
    assert_eq!(tool_answer(1, s("content"), "Failed to read file", "no such file"), "Failed to read file: no such file");
    assert_eq!(tool_answer(-1, s("x"), "Failed to remove", ""), "Failed to remove: ");
}

#[test]
fn command_results_are_formatted_as_json() {
    let result = workspace_sdk::types::CommandResult {
        exit_code: 7,
        stdout: "hi\n".to_string(),
        stderr: "a \"b\"".to_string(),
    };
    let text = format_command_result(&result);
    // indented, one field to a line
    assert!(text.starts_with("{\n  \""));
    assert!(text.ends_with("\n}"));
    assert_eq!(text.lines().count(), 5);
    assert!(text.contains("\n  \"exit_code\": 7"));
    assert!(text.contains("\n  \"stdout\": \"hi\\n\""));
    assert!(text.contains("\n  \"stderr\": \"a \\\"b\\\"\""));
    let read: serde_json::Value = serde_json::from_str(&text).unwrap();
    let object = read.as_object().unwrap();
    assert_eq!(object.len(), 3);
    assert_eq!(object["exit_code"].as_i64(), Some(7));
    assert_eq!(object["stdout"].as_str(), Some("hi\n"));
    assert_eq!(object["stderr"].as_str(), Some("a \"b\""));
}
