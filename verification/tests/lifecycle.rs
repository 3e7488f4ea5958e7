use workspace_sdk::api::http::sandbox::{
    CreateSandboxRequest, DeleteQuery, ListSandboxesResponse, SandboxResponse,
};
use workspace_sdk::config::Config;
use workspace_sdk::agent_pool::AgentConnPool;
use workspace_sdk::error::Error;
use workspace_sdk::sandbox::Sandbox;
use workspace_sdk::sandbox_service::{CreationAction, CreationEvent, SandboxService};
use workspace_sdk::store::SandboxRepository;
use workspace_sdk::string_map::StringMap;
use workspace_sdk::workspace::Workspace;

struct Server {
    service: SandboxService,
    store: SandboxRepository,
    pool: AgentConnPool,
    config: Config,
    clock: i64,
}

fn request(name: &str) -> CreateSandboxRequest {
    CreateSandboxRequest {
        workspace_id: "W".to_string(),
        template: None,
        name: Some(name.to_string()),
        env: None,
        metadata: None,
        timeout: None,
    }
}

impl Server {
    fn new() -> Self {
        Server {
            service: SandboxService::new(),
            store: SandboxRepository::new(),
            pool: AgentConnPool::new(),
            config: Config::default(),
            clock: 0,
        }
    }

    fn now(&mut self) -> i64 {
        self.clock += 10;
        self.clock
    }

    /// Creates a sandbox with a container engine that does as it is told
    /// and an agent that does not connect in time.
    fn create(&mut self, request: CreateSandboxRequest) -> Result<SandboxResponse, Error> {
        let now = self.now();
        let workspace = Ok(Workspace::new("W".to_string(), 0));
        let (mut creation, opts) =
            self.service.create(&mut self.store, &self.config, request.into_params(), workspace, true, now)?;
        let container_id = format!("container-of-{}", opts.name);
        let now = self.now();
        let mut action = creation.advance(&mut self.store, CreationEvent::ContainerCreated(Ok(container_id)), now);
        loop {
            let now = self.now();
            action = match action {
                CreationAction::StartContainer { .. } => {
                    creation.advance(&mut self.store, CreationEvent::ContainerStarted(Ok(())), now)
                }
                CreationAction::WaitForAgent { .. } => {
                    creation.advance(&mut self.store, CreationEvent::AgentWaited(false), now)
                }
                CreationAction::Done(sandbox) => return Ok(SandboxResponse::from_sandbox(sandbox)),
                CreationAction::Abort { error, .. } => return Err(error),
            };
        }
    }

    fn get(&self, id: &str) -> Result<SandboxResponse, Error> {
        self.service.get(&self.store, id).map(SandboxResponse::from_sandbox)
    }

    fn list(&self) -> ListSandboxesResponse {
        let listed: Vec<Sandbox> = self.service.list(&self.store, None).expect("Failed to list sandboxes");
        ListSandboxesResponse::from_sandboxes(listed)
    }

    fn delete(&mut self, id: &str, force: Option<&str>) -> Result<(), Error> {
        let force = DeleteQuery { force: force.map(|f| f.to_string()) }.force();
        let now = self.now();
        self.service.delete(&mut self.store, id, force, now)?;
        self.service.finish_delete(&mut self.store, &mut self.pool, id)
    }
}

#[test]
fn test_create_sandbox() {
    let mut server = Server::new();
    let sandbox = server.create(request("test-sandbox-create")).expect("Failed to create sandbox");
    assert!(!sandbox.id.is_empty());
    assert_eq!(sandbox.name, Some("test-sandbox-create".to_string()));
    assert!(sandbox.state == "starting" || sandbox.state == "running");
}

#[test]
fn test_get_sandbox() {
    let mut server = Server::new();
    let created = server.create(request("test-sandbox-get")).expect("Failed to create sandbox");
    let sandbox = server.get(&created.id).expect("Failed to get sandbox");
    assert_eq!(sandbox.id, created.id);
    assert_eq!(sandbox.name, Some("test-sandbox-get".to_string()));
    assert_eq!(sandbox, created);
}

#[test]
fn tests_test_list_sandboxes() {
    let mut server = Server::new();
    let first = server.create(request("test-list-1")).expect("Failed to create sandbox 1");
    let second = server.create(request("test-list-2")).expect("Failed to create sandbox 2");
    let listed = server.list();
    assert!(listed.total >= 2);
    let ids: Vec<&String> = listed.sandboxes.iter().map(|s| &s.id).collect();
    assert!(ids.contains(&&first.id));
    assert!(ids.contains(&&second.id));
    // newest first
    assert_eq!(ids, [&second.id, &first.id]);
}

#[test]
fn tests_test_delete_sandbox() {
    let mut server = Server::new();
    let sandbox = server.create(request("test-sandbox-delete")).expect("Failed to create sandbox");
    server.delete(&sandbox.id, Some("true")).expect("Failed to delete sandbox");
    let gone = server.get(&sandbox.id);
    assert_eq!(gone.as_ref().err().map(|e| e.status_code()), Some(404));
    assert_eq!(gone, Err(Error::SandboxNotFound(sandbox.id.clone())));
    assert_eq!(server.delete(&sandbox.id, Some("true")), Err(Error::SandboxNotFound(sandbox.id)));
}

#[test]
fn running_sandbox_is_not_deleted_without_force() {
    let mut server = Server::new();
    let sandbox = server.create(request("kept")).unwrap();
    let refused = server.delete(&sandbox.id, None);
    assert_eq!(refused.as_ref().err().map(|e| e.status_code()), Some(400));
    assert!(server.get(&sandbox.id).is_ok());
    assert_eq!(server.delete(&sandbox.id, Some("false")).err().map(|e| e.code()), Some(2004));
}

#[test]
fn test_sandbox_with_env_vars() {
    let mut server = Server::new();
    let mut env = StringMap::new();
    env.insert("MY_VAR".to_string(), "my_value".to_string());
    env.insert("ANOTHER_VAR".to_string(), "another_value".to_string());
    let mut wanted = request("test-sandbox-env");
    wanted.env = Some(env.clone());
    let sandbox = server.create(wanted).expect("Failed to create sandbox");
    assert!(sandbox.env.is_some());
    let sandbox_env = sandbox.env.unwrap();
    assert_eq!(sandbox_env.get("MY_VAR"), Some(&"my_value".to_string()));
    assert_eq!(sandbox_env, env);
}

#[test]
fn test_sandbox_with_metadata() {
    let mut server = Server::new();
    let mut metadata = StringMap::new();
    metadata.insert("project".to_string(), "test-project".to_string());
    metadata.insert("owner".to_string(), "test-user".to_string());
    let mut wanted = request("test-sandbox-metadata");
    wanted.metadata = Some(metadata.clone());
    let sandbox = server.create(wanted).expect("Failed to create sandbox");
    assert!(sandbox.metadata.is_some());
    let sandbox_metadata = sandbox.metadata.unwrap();
    assert_eq!(sandbox_metadata.get("project"), Some(&"test-project".to_string()));
    assert_eq!(sandbox_metadata.get("owner"), Some(&"test-user".to_string()));
}
