use workspace_sdk::error::Error;
use workspace_sdk::sandbox::{CreateSandboxParams, Sandbox, SandboxState};
use workspace_sdk::store::{sandbox_expired, SandboxRepository};
use workspace_sdk::string_map::StringMap;

fn params(template: Option<&str>, name: Option<&str>, timeout: Option<u64>) -> CreateSandboxParams {
    CreateSandboxParams {
        workspace_id: "w".to_string(),
        template: template.map(|t| t.to_string()),
        name: name.map(|n| n.to_string()),
        env: None,
        metadata: None,
        timeout,
    }
}

fn plain() -> CreateSandboxParams {
    params(None, None, None)
}

fn ids(list: &[Sandbox]) -> Vec<String> {
    list.iter().map(|s| s.id.clone()).collect()
}

#[test]
fn test_create_and_get_sandbox() {
    let mut repo = SandboxRepository::new();
    let sandbox = repo
        .create(params(Some("python:3.11"), Some("test-sandbox"), Some(3600)), 1)
        .expect("Failed to create sandbox");
    assert_eq!(sandbox.name, Some("test-sandbox".to_string()));
    assert_eq!(sandbox.template, "python:3.11");
    assert_eq!(sandbox.state, SandboxState::Starting);
    assert_eq!(sandbox.timeout, 3600);

    let fetched = repo.get(&sandbox.id).expect("Failed to get sandbox");
    assert_eq!(fetched.id, sandbox.id);
    assert_eq!(fetched.name, sandbox.name);
}

#[test]
fn test_update_state() {
    let mut repo = SandboxRepository::new();
    let sandbox = repo.create(plain(), 1).expect("Failed to create sandbox");
    repo.update_state(&sandbox.id, SandboxState::Running, None, 2).expect("Failed to update state");
    let fetched = repo.get(&sandbox.id).expect("Failed to get sandbox");
    assert_eq!(fetched.state, SandboxState::Running);
}

#[test]
fn sqlite_test_list_sandboxes() {
    let mut repo = SandboxRepository::new();
    repo.create(params(Some("python"), Some("sandbox1"), None), 1).expect("Failed to create sandbox 1");
    let sandbox2 = repo
        .create(params(Some("node"), Some("sandbox2"), None), 2)
        .expect("Failed to create sandbox 2");
    repo.update_state(&sandbox2.id, SandboxState::Running, None, 3).expect("Failed to update state");

    let all = repo.list(None).expect("Failed to list sandboxes");
    assert_eq!(all.len(), 2);
    let starting = repo.list(Some(SandboxState::Starting)).expect("Failed to list");
    assert_eq!(starting.len(), 1);
    let running = repo.list(Some(SandboxState::Running)).expect("Failed to list");
    assert_eq!(running.len(), 1);
}

#[test]
fn sqlite_test_delete_sandbox() {
    let mut repo = SandboxRepository::new();
    let sandbox = repo.create(plain(), 1).expect("Failed to create sandbox");
    repo.delete(&sandbox.id).expect("Failed to delete sandbox");
    let result = repo.get(&sandbox.id);
    assert!(matches!(result, Err(Error::SandboxNotFound(_))));
}

#[test]
fn create_fills_in_defaults() {
    let mut repo = SandboxRepository::new();
    let sandbox = repo.create_with_id(plain(), "s1".to_string(), 77).unwrap();
    assert_eq!(sandbox.id, "s1");
    assert_eq!(sandbox.workspace_id, "w");
    assert_eq!(sandbox.template, "default");
    assert_eq!(sandbox.name, None);
    assert_eq!(sandbox.state, SandboxState::Starting);
    assert_eq!(sandbox.container_id, None);
    assert!(sandbox.env.is_empty());
    assert!(sandbox.metadata.is_empty());
    assert_eq!(sandbox.nfs_url, None);
    assert_eq!((sandbox.created_at, sandbox.updated_at), (77, 77));
    assert_eq!(sandbox.timeout, 0);
    assert_eq!(sandbox.error_message, None);
    assert_eq!(repo.len(), 1);
}

#[test]
fn create_then_get_returns_the_created_sandbox() {
    let mut repo = SandboxRepository::new();
    let mut env = StringMap::new();
    env.insert("MY_VAR".to_string(), "my_value".to_string());
    env.insert("ANOTHER_VAR".to_string(), "another_value".to_string());
    let mut metadata = StringMap::new();
    metadata.insert("project".to_string(), "test-project".to_string());
    metadata.insert("owner".to_string(), "test-user".to_string());
    let created = repo
        .create(
            CreateSandboxParams {
                workspace_id: "w".to_string(),
                template: Some("python:3.11".to_string()),
                name: Some("x".to_string()),
                env: Some(env.clone()),
                metadata: Some(metadata.clone()),
                timeout: Some(60),
            },
            5,
        )
        .unwrap();
    let fetched = repo.get(&created.id).unwrap();
    assert_eq!(fetched, created);
    assert_eq!(fetched.env, env);
    assert_eq!(fetched.metadata, metadata);
    assert_eq!(fetched.name.as_deref(), Some("x"));
}

#[test]
fn create_refuses_a_taken_id() {
    let mut repo = SandboxRepository::new();
    repo.create_with_id(plain(), "s1".to_string(), 1).unwrap();
    let again = repo.create_with_id(params(Some("other"), None, None), "s1".to_string(), 2);
    assert_eq!(again, Err(Error::SandboxAlreadyExists("s1".to_string())));
    assert_eq!(repo.len(), 1);
    assert_eq!(repo.get("s1").unwrap().template, "default");
}

#[test]
fn created_ids_are_fresh() {
    let mut repo = SandboxRepository::new();
    let a = repo.create(plain(), 1).unwrap();
    let b = repo.create(plain(), 1).unwrap();
    assert_ne!(a.id, b.id);
    assert_eq!(repo.len(), 2);
}

#[test]
fn get_of_a_missing_sandbox_is_not_found() {
    let repo = SandboxRepository::new();
    assert_eq!(repo.get("nope"), Err(Error::SandboxNotFound("nope".to_string())));
}

#[test]
fn delete_twice_is_not_found_the_second_time() {
    let mut repo = SandboxRepository::new();
    repo.create_with_id(plain(), "s1".to_string(), 1).unwrap();
    repo.create_with_id(plain(), "s2".to_string(), 2).unwrap();
    assert_eq!(repo.delete("s1"), Ok(()));
    assert_eq!(repo.delete("s1"), Err(Error::SandboxNotFound("s1".to_string())));
    assert_eq!(repo.len(), 1);
    assert!(repo.get("s2").is_ok());
}

#[test]
fn update_state_takes_only_allowed_transitions() {
    let states = [
        SandboxState::Starting,
        SandboxState::Running,
        SandboxState::Stopping,
        SandboxState::Stopped,
        SandboxState::Error,
    ];
    for from in states {
        for to in states {
            let mut repo = SandboxRepository::new();
            repo.create_with_id(plain(), "s".to_string(), 1).unwrap();
            // bring the row to `from` along allowed transitions
            let path: &[SandboxState] = match from {
                SandboxState::Starting => &[],
                SandboxState::Running => &[SandboxState::Running],
                SandboxState::Stopping => &[SandboxState::Running, SandboxState::Stopping],
                SandboxState::Stopped => {
                    &[SandboxState::Running, SandboxState::Stopping, SandboxState::Stopped]
                }
                SandboxState::Error => &[SandboxState::Error],
            };
            for step in path {
                repo.update_state("s", *step, None, 2).unwrap();
            }
            let before = repo.get("s").unwrap();
            let result = repo.update_state("s", to, Some("why"), 9);
            let after = repo.get("s").unwrap();
            if from.can_transition_to(to) {
                assert_eq!(result, Ok(()));
                assert_eq!(after.state, to);
                assert_eq!(after.error_message, Some("why".to_string()));
                assert_eq!(after.updated_at, 9);
                assert_eq!(after.created_at, before.created_at);
            } else {
                assert!(
                    matches!(&result, Err(Error::InvalidSandboxState { actual, .. }) if actual == from.as_str()),
                    "{:?}->{:?}: {:?}",
                    from,
                    to,
                    result
                );
                assert_eq!(after, before);
            }
        }
    }
}

#[test]
fn update_state_names_the_states_it_expected() {
    let mut repo = SandboxRepository::new();
    repo.create_with_id(plain(), "s".to_string(), 1).unwrap();
    assert_eq!(
        repo.update_state("s", SandboxState::Stopped, None, 2),
        Err(Error::InvalidSandboxState {
            expected: "stopping".to_string(),
            actual: "starting".to_string()
        })
    );
    assert_eq!(
        repo.update_state("s", SandboxState::Starting, None, 2),
        Err(Error::InvalidSandboxState { expected: "none".to_string(), actual: "starting".to_string() })
    );
    repo.update_state("s", SandboxState::Error, Some("boom"), 3).unwrap();
    assert_eq!(
        repo.update_state("s", SandboxState::Error, None, 4),
        Err(Error::InvalidSandboxState {
            expected: "starting, running or stopping".to_string(),
            actual: "error".to_string()
        })
    );
    assert_eq!(repo.get("s").unwrap().error_message, Some("boom".to_string()));
}

#[test]
fn update_state_clears_the_message_when_none_is_given() {
    let mut repo = SandboxRepository::new();
    repo.create_with_id(plain(), "s".to_string(), 1).unwrap();
    repo.update_state("s", SandboxState::Running, Some("note"), 2).unwrap();
    repo.update_state("s", SandboxState::Stopping, None, 3).unwrap();
    assert_eq!(repo.get("s").unwrap().error_message, None);
}

#[test]
fn updates_of_a_missing_sandbox_are_not_found() {
    let mut repo = SandboxRepository::new();
    let missing = Err(Error::SandboxNotFound("s".to_string()));
    assert_eq!(repo.update_state("s", SandboxState::Running, None, 1), missing);
    assert_eq!(repo.update_container_id("s", "c", 1), missing);
    assert_eq!(repo.update_nfs_url("s", "nfs://x", 1), missing);
    assert_eq!(repo.delete("s"), missing);
}

#[test]
fn update_container_id_and_nfs_url() {
    let mut repo = SandboxRepository::new();
    repo.create_with_id(plain(), "a".to_string(), 1).unwrap();
    repo.create_with_id(plain(), "b".to_string(), 1).unwrap();
    repo.update_container_id("b", "c-123", 5).unwrap();
    repo.update_nfs_url("b", "nfs://127.0.0.1:2049/w", 6).unwrap();
    let b = repo.get("b").unwrap();
    assert_eq!(b.container_id, Some("c-123".to_string()));
    assert_eq!(b.nfs_url, Some("nfs://127.0.0.1:2049/w".to_string()));
    assert_eq!(b.updated_at, 6);
    assert_eq!(b.state, SandboxState::Starting);
    let a = repo.get("a").unwrap();
    assert_eq!((a.container_id, a.nfs_url, a.updated_at), (None, None, 1));
}

#[test]
fn list_is_newest_first() {
    let mut repo = SandboxRepository::new();
    repo.create_with_id(plain(), "t20".to_string(), 20).unwrap();
    repo.create_with_id(plain(), "t10".to_string(), 10).unwrap();
    repo.create_with_id(plain(), "t30".to_string(), 30).unwrap();
    repo.create_with_id(plain(), "t25".to_string(), 25).unwrap();
    repo.update_state("t10", SandboxState::Running, None, 40).unwrap();
    repo.update_state("t30", SandboxState::Running, None, 41).unwrap();
    assert_eq!(ids(&repo.list(None).unwrap()), ["t30", "t25", "t20", "t10"]);
    assert_eq!(ids(&repo.list(Some(SandboxState::Running)).unwrap()), ["t30", "t10"]);
    assert_eq!(ids(&repo.list(Some(SandboxState::Starting)).unwrap()), ["t25", "t20"]);
    assert!(repo.list(Some(SandboxState::Error)).unwrap().is_empty());
}

#[test]
fn count_by_state_counts() {
    let mut repo = SandboxRepository::new();
    assert_eq!(repo.count_by_state(SandboxState::Starting), Ok(0));
    for id in ["a", "b", "c"] {
        repo.create_with_id(plain(), id.to_string(), 1).unwrap();
    }
    repo.update_state("b", SandboxState::Running, None, 2).unwrap();
    assert_eq!(repo.count_by_state(SandboxState::Starting), Ok(2));
    assert_eq!(repo.count_by_state(SandboxState::Running), Ok(1));
    assert_eq!(repo.count_by_state(SandboxState::Stopped), Ok(0));
}

#[test]
fn expired_are_exactly_running_with_timeout_past() {
    let mut repo = SandboxRepository::new();
    // created at 1000 ms, timeout 10 s: expires after 11000 ms
    repo.create_with_id(params(None, None, Some(10)), "due".to_string(), 1000).unwrap();
    repo.create_with_id(params(None, None, Some(10)), "starting".to_string(), 1000).unwrap();
    repo.create_with_id(params(None, None, None), "no-timeout".to_string(), 1000).unwrap();
    repo.create_with_id(params(None, None, Some(0)), "zero".to_string(), 1000).unwrap();
    repo.create_with_id(params(None, None, Some(100)), "later".to_string(), 1000).unwrap();
    repo.create_with_id(params(None, None, Some(5)), "due-too".to_string(), 2000).unwrap();
    for id in ["due", "no-timeout", "zero", "later", "due-too"] {
        repo.update_state(id, SandboxState::Running, None, 1500).unwrap();
    }
    assert_eq!(ids(&repo.get_expired_sandboxes(11000).unwrap()), ["due-too"]);
    assert_eq!(ids(&repo.get_expired_sandboxes(11001).unwrap()), ["due", "due-too"]);
    assert_eq!(ids(&repo.get_expired_sandboxes(7000).unwrap()), Vec::<String>::new());
    assert_eq!(ids(&repo.get_expired_sandboxes(7001).unwrap()), ["due-too"]);
    assert_eq!(ids(&repo.get_expired_sandboxes(101001).unwrap()), ["due", "later", "due-too"]);
}

#[test]
fn expiry_does_not_overflow() {
    let mut sandbox = Sandbox::new("s".to_string(), "t".to_string(), i64::MAX);
    sandbox.timeout = u64::MAX;
    sandbox.transition_to(SandboxState::Running, 0);
    assert!(!sandbox_expired(&sandbox, i64::MAX));
    sandbox.created_at = i64::MIN;
    sandbox.timeout = 1;
    assert!(sandbox_expired(&sandbox, i64::MIN + 1001));
    assert!(!sandbox_expired(&sandbox, i64::MIN + 1000));
}

#[test]
fn restore_puts_rows_back_as_they_are() {
    let mut repo = SandboxRepository::new();
    let mut sandbox = Sandbox::new("s1".to_string(), "t".to_string(), 5);
    sandbox.transition_to(SandboxState::Running, 6);
    sandbox.container_id = Some("c".to_string());
    assert_eq!(repo.restore(sandbox.clone()), Ok(()));
    assert_eq!(repo.get("s1"), Ok(sandbox.clone()));
    assert_eq!(repo.restore(sandbox), Err(Error::SandboxAlreadyExists("s1".to_string())));
    assert_eq!(repo.len(), 1);
}

#[test]
fn creation_under_a_fresh_id_succeeds_where_no_such_id_is_held() {
    let mut repo = SandboxRepository::new();
    // an empty store
    let first = repo.create(plain(), 1).unwrap();
    assert_eq!(first.id.len(), 36);
    assert_eq!(first.id.chars().nth(14), Some('4'));
    // a store whose ids are no fresh ids
    let mut named = SandboxRepository::new();
    named.create_with_id(plain(), "S1".to_string(), 1).unwrap();
    named.create_with_id(plain(), "S2".to_string(), 2).unwrap();
    let second = named.create(plain(), 3).unwrap();
    assert_eq!(named.len(), 3);
    assert_eq!(named.get(&second.id), Ok(second));
}
