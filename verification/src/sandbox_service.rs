//! The sandbox lifecycle: what creating and deleting a sandbox decides at
//! each step, between the calls to the container engine that its runner
//! makes.

use vstd::prelude::*;
use crate::agent_pool::AgentConnPool;
use crate::config::Config;
use crate::docker::{CreateContainerOpts, DEFAULT_STOP_GRACE_SECS};
use crate::error::Error;
use crate::ids::{is_uuid_text, new_id};
use crate::sandbox::{opt_text, CreateSandboxParams, Sandbox, SandboxState, SandboxView};
use crate::store::{
    apply_op, has_id, new_row, no_uuid_ids, position, row_views, sources_of, SandboxRepository,
    StoreOp,
};
use crate::string_map::StringMap;
use crate::strings::{clone_opt, clone_strings, concat2, texts};
use crate::workspace::Workspace;

verus! {

/// The label that names the sandbox of a container.
pub open spec fn sandbox_label() -> Seq<char> {
    "workspace.sandbox.id"@
}

/// The label that names the workspace of a container.
pub open spec fn workspace_label() -> Seq<char> {
    "workspace.workspace.id"@
}

/// The directory of the workspace inside a container.
pub open spec fn mount_point() -> Seq<char> {
    "/workspace"@
}

/// How many characters of a sandbox id go into the name of its container.
pub const NAME_ID_CHARS: usize = 8;

/// The first characters of an id that go into a container name: eight, or all
/// of a shorter id.
pub open spec fn short_id(id: Seq<char>) -> Seq<char> {
    if id.len() >= NAME_ID_CHARS {
        id.subrange(0, NAME_ID_CHARS as int)
    } else {
        id
    }
}

/// The name of the container of a sandbox.
pub open spec fn container_name(id: Seq<char>) -> Seq<char> {
    "workspace-"@ + short_id(id)
}

/// The mapping of an optional mapping: empty where there is none.
pub open spec fn opt_map(map: Option<StringMap>) -> Map<Seq<char>, Seq<char>> {
    match map {
        Some(m) => m@,
        None => Map::empty(),
    }
}

/// The variables of a sandbox container: those that the creator asked for,
/// and over them the id of the sandbox, the id of its workspace, and the
/// address at which the agent finds the server.
pub open spec fn container_env(
    params: CreateSandboxParams,
    sandbox_id: Seq<char>,
    workspace_id: Seq<char>,
    server_addr: Seq<char>,
) -> Map<Seq<char>, Seq<char>> {
    opt_map(params.env).insert("WORKSPACE_SANDBOX_ID"@, sandbox_id).insert(
        "WORKSPACE_WORKSPACE_ID"@,
        workspace_id,
    ).insert("WORKSPACE_SERVER_ADDR"@, server_addr)
}

/// Whether the options are those of the container of a sandbox: named after
/// the sandbox, from the template or the base image, with the sandbox's
/// variables, the workspace mounted as working directory, the two labels,
/// the configured network or the bridge, and no limits.
pub open spec fn is_container_of(
    opts: CreateContainerOpts,
    config: Config,
    params: CreateSandboxParams,
    sandbox_id: Seq<char>,
    workspace_id: Seq<char>,
) -> bool {
    &&& opts.name@ == container_name(sandbox_id)
    &&& opts.image@ == (match params.template {
        Some(t) => t@,
        None => config.base_image@,
    })
    &&& opts.env@ == container_env(params, sandbox_id, workspace_id, config.agent_server_addr@)
    &&& opts.volumes.pairs() == seq![(config@.host_path(workspace_id), mount_point())]
    &&& opt_text(opts.working_dir) == Some(mount_point())
    &&& opts.cmd is None
    &&& opts.labels.pairs() == seq![
        (sandbox_label(), sandbox_id),
        (workspace_label(), workspace_id),
    ]
    &&& opt_text(opts.network_mode) == Some(
        match config.docker_network {
            Some(n) => n@,
            None => "bridge"@,
        },
    )
    &&& opts.memory_limit is None
    &&& opts.cpu_quota is None
    &&& texts(opts.extra_hosts@) == texts(config.sandbox_extra_hosts@)
}

/// Where the creation of a sandbox stands.
#[derive(Debug, Clone, Copy, PartialEq, Eq, Structural)]
pub enum CreationStage {
    /// The row is in the store; the container is to be created.
    CreatingContainer,
    /// The container exists; it is to be started.
    StartingContainer,
    /// The container runs; the agent is awaited.
    AwaitingAgent,
    /// The sandbox is running.
    Finished,
    /// The creation failed.
    Failed,
}

/// What the runner reports back.
#[derive(Debug)]
pub enum CreationEvent {
    /// The engine created the container and gave its id, or failed.
    ContainerCreated(Result<String, Error>),
    /// The engine started the container, or failed.
    ContainerStarted(Result<(), Error>),
    /// The wait for the agent is over; whether the agent connected.
    AgentWaited(bool),
}

/// What the runner has to do next.
#[derive(Debug)]
pub enum CreationAction {
    /// Start the container with this id, then report `ContainerStarted`.
    StartContainer { container_id: String },
    /// Wait until the agent of the sandbox is connected, for at most so many
    /// milliseconds, then report `AgentWaited`.
    WaitForAgent { timeout_ms: u64 },
    /// The sandbox is created: hand it to the caller.
    Done(Sandbox),
    /// The creation failed: remove the named container, if one is named,
    /// by force and without regard to the outcome, then hand the error to
    /// the caller.
    Abort { remove: Option<String>, error: Error },
}

/// A creation that has begun: the row is in the store, and the container is
/// to be created with these options. The runner reports the outcome as
/// `ContainerCreated`.
pub struct SandboxCreation {
    sandbox_id: String,
    container_id: Option<String>,
    agent_timeout_ms: u64,
    stage: CreationStage,
}

/// A deletion that has begun: what is to be torn down before it is finished.
#[derive(Debug, PartialEq, Eq)]
pub struct Teardown {
    /// The container to remove, if the sandbox has one.
    pub container_id: Option<String>,
    /// Whether to stop the container before removing it; a failure to stop
    /// is not an obstacle.
    pub stop_first: bool,
    /// The seconds that the container gets to stop.
    pub stop_grace_secs: i64,
    /// Whether to remove the container by force.
    pub force_remove: bool,
}

/// Whether `e` is the error with which a store refuses a change of state.
pub open spec fn update_refused(rows: Seq<SandboxView>, id: Seq<char>, state: SandboxState, e: Error) -> bool {
    if !has_id(rows, id) {
        e matches Error::SandboxNotFound(missing) && missing@ == id
    } else {
        !rows[position(rows, id)].state.allows(state) && (e matches Error::InvalidSandboxState {
            expected,
            actual,
        } && expected@ == sources_of(state) && actual@ == rows[position(rows, id)].state.name())
    }
}

/// Whether a store takes a change of state.
pub open spec fn updatable(rows: Seq<SandboxView>, id: Seq<char>, state: SandboxState) -> bool {
    has_id(rows, id) && rows[position(rows, id)].state.allows(state)
}

/// The milliseconds of a number of seconds, or the most that fits.
pub open spec fn secs_to_ms(secs: u64) -> u64 {
    if secs <= u64::MAX / 1000 {
        (secs * 1000) as u64
    } else {
        u64::MAX
    }
}

/// The first characters of an id that go into a container name.
pub fn short_id_of(id: &str) -> (short: String)
    ensures
        short@ == short_id(id@),
{
    let n = id.unicode_len();
    if n >= NAME_ID_CHARS {
        id.substring_char(0, NAME_ID_CHARS).to_owned()
    } else {
        id.to_owned()
    }
}

/// The options of the container of a sandbox.
pub fn container_options(config: &Config, params: CreateSandboxParams, sandbox_id: &str, workspace_id: &str) -> (opts:
    CreateContainerOpts)
    ensures
        is_container_of(opts, *config, params, sandbox_id@, workspace_id@),
{
    let ghost wanted = opt_map(params.env);
    let image = match params.template {
        Some(t) => t,
        None => config.base_image.clone(),
    };
    let mut env = match params.env {
        Some(env) => env,
        None => StringMap::new(),
    };
    assert(env@ == wanted);
    let _ = env.insert("WORKSPACE_SANDBOX_ID".to_owned(), sandbox_id.to_owned());
    let _ = env.insert("WORKSPACE_WORKSPACE_ID".to_owned(), workspace_id.to_owned());
    let _ = env.insert("WORKSPACE_SERVER_ADDR".to_owned(), config.agent_server_addr.clone());
    let mut volumes = StringMap::new();
    let _ = volumes.insert(
        config.get_sandbox_workspace_host_path(workspace_id),
        "/workspace".to_owned(),
    );
    assert(volumes.pairs() =~= seq![(config@.host_path(workspace_id@), mount_point())]);
    let mut labels = StringMap::new();
    let _ = labels.insert("workspace.sandbox.id".to_owned(), sandbox_id.to_owned());
    assert(labels.pairs() =~= seq![(sandbox_label(), sandbox_id@)]);
    proof {
        reveal_strlit("workspace.sandbox.id");
        reveal_strlit("workspace.workspace.id");
        assert(sandbox_label() != workspace_label()) by {
            assert(sandbox_label()[10] != workspace_label()[10]);
        }
        labels.lemma_view();
        crate::string_map::lemma_value_at(labels.pairs(), 0);
        assert(!labels@.contains_key(workspace_label())) by {
            if labels@.contains_key(workspace_label()) {
                let i = crate::string_map::index_of_key(labels.pairs(), workspace_label());
                assert(labels.pairs()[i].0 == workspace_label());
            }
        }
    }
    let _ = labels.insert("workspace.workspace.id".to_owned(), workspace_id.to_owned());
    assert(labels.pairs() =~= seq![
        (sandbox_label(), sandbox_id@),
        (workspace_label(), workspace_id@),
    ]);
    let network_mode = match &config.docker_network {
        Some(n) => Some(n.clone()),
        None => Some("bridge".to_owned()),
    };
    let name = concat2("workspace-", short_id_of(sandbox_id).as_str());
    let opts = CreateContainerOpts {
        name,
        image,
        env,
        volumes,
        working_dir: Some("/workspace".to_owned()),
        cmd: None,
        labels,
        network_mode,
        memory_limit: None,
        cpu_quota: None,
        extra_hosts: clone_strings(&config.sandbox_extra_hosts),
    };
    opts
}

/// Sandbox service for managing sandbox lifecycle.
pub struct SandboxService {}

impl SandboxService {
    /// Create a new sandbox service.
    pub fn new() -> Self {
        SandboxService {  }
    }

    /// Begins the creation of a sandbox under a fresh id. See
    /// `create_with_id`. With the workspace found, the creation fails only
    /// where the directory of the workspace is missing or the fresh id is
    /// taken; the id cannot be taken in a store that holds no id of its
    /// shape, an empty store among them.
    pub fn create(
        &self,
        store: &mut SandboxRepository,
        config: &Config,
        params: CreateSandboxParams,
        workspace: Result<Workspace, Error>,
        workspace_dir_exists: bool,
        now: i64,
    ) -> (result: Result<(SandboxCreation, CreateContainerOpts), Error>)
        ensures
            final(store).wf(),
            workspace matches Err(cause) ==> result == Err::<
                (SandboxCreation, CreateContainerOpts),
                Error,
            >(cause) && final(store)@ == old(store)@,
            workspace is Ok && no_uuid_ids(old(store)@) ==> (result is Ok == workspace_dir_exists),
            workspace is Ok && no_uuid_ids(old(store)@) && !workspace_dir_exists ==> (
            result matches Err(Error::Internal(m)) && m@ == "Workspace directory not found"@),
            result matches Ok((creation, _)) ==> is_uuid_text(creation.sandbox_id_spec()),
            workspace matches Ok(w) ==> match result {
                Ok((creation, opts)) => workspace_dir_exists && !has_id(
                    old(store)@,
                    creation.sandbox_id_spec(),
                ) && final(store)@ == old(store)@.push(
                    new_row(params, creation.sandbox_id_spec(), now),
                ) && creation.stage_spec() == CreationStage::CreatingContainer && is_container_of(
                    opts,
                    *config,
                    params,
                    creation.sandbox_id_spec(),
                    w.id@,
                ),
                Err(e) => (e is SandboxAlreadyExists && final(store)@ == old(store)@) || (
                !workspace_dir_exists && (e matches Error::Internal(m) && m@
                    == "Workspace directory not found"@) && final(store)@.len() == old(store)@.len()
                    + 1 && final(store)@.last().state == SandboxState::Error),
            },
    {
        self.create_with_id(store, config, params, new_id(), workspace, workspace_dir_exists, now)
    }

    /// Begins the creation of a sandbox under the given id. The workspace
    /// must have been found, and its directory must exist; the sandbox gets
    /// its row, in state `Starting`, and the options of its container are
    /// returned with the creation, for the runner to create the container.
    /// Where the directory is missing, the row is marked as failed.
    pub fn create_with_id(
        &self,
        store: &mut SandboxRepository,
        config: &Config,
        params: CreateSandboxParams,
        sandbox_id: String,
        workspace: Result<Workspace, Error>,
        workspace_dir_exists: bool,
        now: i64,
    ) -> (result: Result<(SandboxCreation, CreateContainerOpts), Error>)
        ensures
            final(store).wf(),
            workspace matches Err(cause) ==> result == Err::<
                (SandboxCreation, CreateContainerOpts),
                Error,
            >(cause) && final(store)@ == old(store)@,
            workspace is Ok && has_id(old(store)@, sandbox_id@) ==> (result matches Err(
                Error::SandboxAlreadyExists(taken),
            ) && taken@ == sandbox_id@ && final(store)@ == old(store)@),
            workspace is Ok && !has_id(old(store)@, sandbox_id@) && !workspace_dir_exists ==> (
            result matches Err(Error::Internal(m)) && m@ == "Workspace directory not found"@
                && final(store)@ == old(store)@.push(
                crate::store::with_state(
                    new_row(params, sandbox_id@, now),
                    SandboxState::Error,
                    Some("Workspace directory not found"@),
                    now,
                ),
            )),
            workspace matches Ok(w) ==> (!has_id(old(store)@, sandbox_id@) && workspace_dir_exists)
                ==> (result matches Ok((creation, opts)) && creation.sandbox_id_spec()
                == sandbox_id@ && creation.stage_spec() == CreationStage::CreatingContainer
                && creation.container_id_spec() is None && creation.agent_timeout_spec()
                == secs_to_ms(config.agent_timeout) && final(store)@ == old(store)@.push(
                new_row(params, sandbox_id@, now),
            ) && is_container_of(opts, *config, params, sandbox_id@, w.id@)),
    {
        proof {
            use_type_invariant(&*store);
        }
        let workspace = match workspace {
            Err(e) => {
                return Err(e);
            },
            Ok(w) => w,
        };
        proof {
            store.lemma_ids_unique();
        }
        let ghost before = store@;
        let for_container = params.clone();
        let ghost row = new_row(params, sandbox_id@, now);
        let id_copy = sandbox_id.clone();
        match store.create_with_id(params, sandbox_id, now) {
            Err(e) => {
                return Err(e);
            },
            Ok(_) => {},
        }
        proof {
            let after = before.push(row);
            assert(after[before.len() as int].id == sandbox_id@);
            assert(has_id(after, sandbox_id@));
            crate::store::lemma_apply_keeps_ids(before, StoreOp::Create { row });
            assert(after[position(after, sandbox_id@)].id == after[before.len() as int].id);
            assert(position(after, sandbox_id@) == before.len());
        }
        if !workspace_dir_exists {
            let _ = store.update_state(
                id_copy.as_str(),
                SandboxState::Error,
                Some("Workspace directory not found"),
                now,
            );
            proof {
                assert(store@ =~= before.push(
                    crate::store::with_state(
                        row,
                        SandboxState::Error,
                        Some("Workspace directory not found"@),
                        now,
                    ),
                ));
            }
            return Err(Error::Internal("Workspace directory not found".to_owned()));
        }
        let opts = container_options(config, for_container, id_copy.as_str(), workspace.id.as_str());
        proof {
            assert(opt_map(for_container.env) == opt_map(params.env)) by {
                match (for_container.env, params.env) {
                    (Some(a), Some(b)) => {
                        a.lemma_view();
                        b.lemma_view();
                    },
                    _ => {},
                }
            }
        }
        let agent_timeout_ms = if config.agent_timeout <= u64::MAX / 1000 {
            config.agent_timeout * 1000
        } else {
            u64::MAX
        };
        Ok(
            (
                SandboxCreation {
                    sandbox_id: id_copy,
                    container_id: None,
                    agent_timeout_ms,
                    stage: CreationStage::CreatingContainer,
                },
                opts,
            ),
        )
    }
}

impl SandboxCreation {
    /// The id of the sandbox that is being created.
    pub closed spec fn sandbox_id_spec(&self) -> Seq<char> {
        self.sandbox_id@
    }

    /// The id of the container, once it is created.
    pub closed spec fn container_id_spec(&self) -> Option<Seq<char>> {
        opt_text(self.container_id)
    }

    /// How long the agent is awaited, in milliseconds.
    pub closed spec fn agent_timeout_spec(&self) -> u64 {
        self.agent_timeout_ms
    }

    /// Where the creation stands.
    pub closed spec fn stage_spec(&self) -> CreationStage {
        self.stage
    }

    /// The id of the sandbox that is being created.
    pub fn sandbox_id(&self) -> (id: &String)
        ensures
            id@ == self.sandbox_id_spec(),
    {
        &self.sandbox_id
    }

    /// Where the creation stands.
    pub fn stage(&self) -> (stage: CreationStage)
        ensures
            stage == self.stage_spec(),
    {
        self.stage
    }
}

impl SandboxCreation {
    /// Takes the report of the runner and decides how the creation goes on.
    ///
    /// - The container was created: its id goes into the row, and the
    ///   container is to be started. It could not be created: the row is
    ///   marked as failed, with the engine's message.
    /// - The container was started: the agent is awaited. It could not be
    ///   started: the container is to be removed, and the row is marked as
    ///   failed.
    /// - The wait for the agent is over: the sandbox is running, whether the
    ///   agent has connected or not, for the agent may attach later.
    ///
    /// A report that does not belong to the stage of the creation fails it,
    /// as does a store that refuses an update.
    pub fn advance(&mut self, store: &mut SandboxRepository, event: CreationEvent, now: i64) -> (action:
        CreationAction)
        ensures
            final(store).wf(),
            final(self).sandbox_id_spec() == old(self).sandbox_id_spec(),
            final(self).agent_timeout_spec() == old(self).agent_timeout_spec(),
            expected_event(old(self).stage_spec(), event) ==> match event {
                CreationEvent::ContainerCreated(Ok(container_id)) => final(store)@ == apply_op(
                    old(store)@,
                    StoreOp::UpdateContainerId {
                        id: old(self).sandbox_id_spec(),
                        container_id: container_id@,
                        now,
                    },
                ) && if has_id(old(store)@, old(self).sandbox_id_spec()) {
                    (action matches CreationAction::StartContainer { container_id: cid } && cid@
                        == container_id@) && final(self).stage_spec()
                        == CreationStage::StartingContainer && final(self).container_id_spec()
                        == Some(container_id@)
                } else {
                    (action matches CreationAction::Abort { remove, error } && remove is None
                        && (error matches Error::SandboxNotFound(m) && m@ == old(self).sandbox_id_spec())) && final(self).stage_spec() == CreationStage::Failed
                },
                CreationEvent::ContainerCreated(Err(cause)) => final(store)@ == apply_op(
                    old(store)@,
                    StoreOp::UpdateState {
                        id: old(self).sandbox_id_spec(),
                        state: SandboxState::Error,
                        error_message: Some(cause.spec_message()),
                        now,
                    },
                ) && final(self).stage_spec() == CreationStage::Failed && (
                action matches CreationAction::Abort { remove, error } && remove is None && if updatable(
                    old(store)@,
                    old(self).sandbox_id_spec(),
                    SandboxState::Error,
                ) {
                    error == cause
                } else {
                    update_refused(
                        old(store)@,
                        old(self).sandbox_id_spec(),
                        SandboxState::Error,
                        error,
                    )
                }),
                CreationEvent::ContainerStarted(Ok(())) => final(store)@ == old(store)@ && final(self).stage_spec() == CreationStage::AwaitingAgent && final(self).container_id_spec()
                    == old(self).container_id_spec() && (
                action matches CreationAction::WaitForAgent { timeout_ms } && timeout_ms == old(self).agent_timeout_spec()),
                CreationEvent::ContainerStarted(Err(cause)) => final(store)@ == apply_op(
                    old(store)@,
                    StoreOp::UpdateState {
                        id: old(self).sandbox_id_spec(),
                        state: SandboxState::Error,
                        error_message: Some(cause.spec_message()),
                        now,
                    },
                ) && final(self).stage_spec() == CreationStage::Failed && (
                action matches CreationAction::Abort { remove, error } && opt_text(remove) == old(self).container_id_spec() && if updatable(
                    old(store)@,
                    old(self).sandbox_id_spec(),
                    SandboxState::Error,
                ) {
                    error == cause
                } else {
                    update_refused(
                        old(store)@,
                        old(self).sandbox_id_spec(),
                        SandboxState::Error,
                        error,
                    )
                }),
                CreationEvent::AgentWaited(_) => final(store)@ == apply_op(
                    old(store)@,
                    StoreOp::UpdateState {
                        id: old(self).sandbox_id_spec(),
                        state: SandboxState::Running,
                        error_message: None,
                        now,
                    },
                ) && if updatable(
                    old(store)@,
                    old(self).sandbox_id_spec(),
                    SandboxState::Running,
                ) {
                    final(self).stage_spec() == CreationStage::Finished && (
                    action matches CreationAction::Done(sandbox) && sandbox@ == final(store)@[position(final(store)@, old(self).sandbox_id_spec())] && sandbox@.state
                        == SandboxState::Running && sandbox@.id == old(self).sandbox_id_spec())
                } else {
                    final(self).stage_spec() == CreationStage::Failed && (
                    action matches CreationAction::Abort { remove, error } && remove is None
                        && update_refused(
                        old(store)@,
                        old(self).sandbox_id_spec(),
                        SandboxState::Running,
                        error,
                    ))
                },
            },
            !expected_event(old(self).stage_spec(), event) ==> final(store)@ == old(store)@
                && final(self).stage_spec() == CreationStage::Failed && (
            action matches CreationAction::Abort { remove, error } && remove is None && (
            error matches Error::Internal(m) && m@ == "Unexpected event for the creation stage"@)),
    {
        proof {
            use_type_invariant(&*store);
            store.lemma_ids_unique();
        }
        let stage = self.stage;
        match (stage, event) {
            (CreationStage::CreatingContainer, CreationEvent::ContainerCreated(Ok(container_id))) => {
                match store.update_container_id(
                    self.sandbox_id.as_str(),
                    container_id.as_str(),
                    now,
                ) {
                    Err(e) => {
                        self.stage = CreationStage::Failed;
                        CreationAction::Abort { remove: None, error: e }
                    },
                    Ok(()) => {
                        self.stage = CreationStage::StartingContainer;
                        self.container_id = Some(container_id.clone());
                        CreationAction::StartContainer { container_id }
                    },
                }
            },
            (CreationStage::CreatingContainer, CreationEvent::ContainerCreated(Err(cause))) => {
                self.stage = CreationStage::Failed;
                let message = cause.message();
                match store.update_state(
                    self.sandbox_id.as_str(),
                    SandboxState::Error,
                    Some(message.as_str()),
                    now,
                ) {
                    Err(e) => CreationAction::Abort { remove: None, error: e },
                    Ok(()) => CreationAction::Abort { remove: None, error: cause },
                }
            },
            (CreationStage::StartingContainer, CreationEvent::ContainerStarted(Ok(()))) => {
                self.stage = CreationStage::AwaitingAgent;
                CreationAction::WaitForAgent { timeout_ms: self.agent_timeout_ms }
            },
            (CreationStage::StartingContainer, CreationEvent::ContainerStarted(Err(cause))) => {
                self.stage = CreationStage::Failed;
                let remove = clone_opt(&self.container_id);
                let message = cause.message();
                match store.update_state(
                    self.sandbox_id.as_str(),
                    SandboxState::Error,
                    Some(message.as_str()),
                    now,
                ) {
                    Err(e) => CreationAction::Abort { remove, error: e },
                    Ok(()) => CreationAction::Abort { remove, error: cause },
                }
            },
            (CreationStage::AwaitingAgent, CreationEvent::AgentWaited(_)) => {
                match store.update_state(
                    self.sandbox_id.as_str(),
                    SandboxState::Running,
                    None,
                    now,
                ) {
                    Err(e) => {
                        self.stage = CreationStage::Failed;
                        CreationAction::Abort { remove: None, error: e }
                    },
                    Ok(()) => {
                        proof {
                            let i = position(old(store)@, self.sandbox_id@);
                            crate::store::lemma_update_keeps_ids(old(store)@, i, store@[i]);
                        }
                        match store.get(self.sandbox_id.as_str()) {
                            Err(e) => {
                                self.stage = CreationStage::Failed;
                                CreationAction::Abort { remove: None, error: e }
                            },
                            Ok(sandbox) => {
                                self.stage = CreationStage::Finished;
                                CreationAction::Done(sandbox)
                            },
                        }
                    },
                }
            },
            _ => {
                self.stage = CreationStage::Failed;
                CreationAction::Abort {
                    remove: None,
                    error: Error::Internal("Unexpected event for the creation stage".to_owned()),
                }
            },
        }
    }
}

/// Whether the report belongs to the stage: the creation of the container
/// while it is being created, its start while it is being started, the end
/// of the wait while the agent is awaited.
pub open spec fn expected_event(stage: CreationStage, event: CreationEvent) -> bool {
    match (stage, event) {
        (CreationStage::CreatingContainer, CreationEvent::ContainerCreated(_)) => true,
        (CreationStage::StartingContainer, CreationEvent::ContainerStarted(_)) => true,
        (CreationStage::AwaitingAgent, CreationEvent::AgentWaited(_)) => true,
        _ => false,
    }
}

/// The ids of a list of sandboxes.
pub open spec fn ids_of(rows: Seq<SandboxView>) -> Seq<Seq<char>> {
    rows.map_values(|row: SandboxView| row.id)
}

impl SandboxService {
    /// Begins the deletion of a sandbox. A running sandbox is deleted only
    /// by force. The sandbox goes to `Stopping` where its state allows that;
    /// what is returned says how its container is to be torn down: stopped
    /// first, with ten seconds of grace, unless the deletion is forced, then
    /// removed. The runner does so, without regard to failures, and calls
    /// `finish_delete`.
    pub fn delete(&self, store: &mut SandboxRepository, id: &str, force: bool, now: i64) -> (result:
        Result<Teardown, Error>)
        ensures
            final(store).wf(),
            !has_id(old(store)@, id@) ==> (result matches Err(Error::SandboxNotFound(missing))
                && missing@ == id@ && final(store)@ == old(store)@),
            has_id(old(store)@, id@) && !force && old(store)@[position(old(store)@, id@)].state
                == SandboxState::Running ==> (result matches Err(
                Error::InvalidSandboxState { expected, actual },
            ) && expected@ == "stopped"@ && actual@ == "running"@ && final(store)@ == old(store)@),
            has_id(old(store)@, id@) && (force || old(store)@[position(old(store)@, id@)].state
                != SandboxState::Running) ==> (result matches Ok(teardown) && opt_text(
                teardown.container_id,
            ) == old(store)@[position(old(store)@, id@)].container_id && teardown.stop_first
                == !force && teardown.stop_grace_secs == DEFAULT_STOP_GRACE_SECS
                && teardown.force_remove == force && final(store)@ == apply_op(
                old(store)@,
                StoreOp::UpdateState {
                    id: id@,
                    state: SandboxState::Stopping,
                    error_message: None,
                    now,
                },
            )),
    {
        proof {
            use_type_invariant(&*store);
            store.lemma_ids_unique();
        }
        let sandbox = match store.get(id) {
            Err(e) => {
                return Err(e);
            },
            Ok(sandbox) => sandbox,
        };
        if !force && sandbox.state == SandboxState::Running {
            return Err(
                Error::InvalidSandboxState {
                    expected: "stopped".to_owned(),
                    actual: sandbox.state.as_str().to_owned(),
                },
            );
        }
        if sandbox.state.can_transition_to(SandboxState::Stopping) {
            let _ = store.update_state(id, SandboxState::Stopping, None, now);
        }
        Ok(
            Teardown {
                container_id: sandbox.container_id,
                stop_first: !force,
                stop_grace_secs: DEFAULT_STOP_GRACE_SECS,
                force_remove: force,
            },
        )
    }

    /// Finishes the deletion of a sandbox, after its container was torn
    /// down: the agent is unregistered, which cancels every request that is
    /// pending on the sandbox, and the row is deleted. The directory of the
    /// workspace is not touched: it belongs to the workspace.
    pub fn finish_delete(&self, store: &mut SandboxRepository, pool: &mut AgentConnPool, id: &str) -> (result:
        Result<(), Error>)
        ensures
            final(store).wf(),
            final(pool)@ == old(pool)@.unregister(id@),
            final(pool).response_timeout() == old(pool).response_timeout(),
            final(store)@ == apply_op(old(store)@, StoreOp::Delete { id: id@ }),
            !has_id(final(store)@, id@),
            has_id(old(store)@, id@) ==> result is Ok,
            !has_id(old(store)@, id@) ==> (result matches Err(Error::SandboxNotFound(missing))
                && missing@ == id@),
    {
        pool.unregister(id);
        store.delete(id)
    }

    /// Get a sandbox by ID.
    pub fn get(&self, store: &SandboxRepository, id: &str) -> (result: Result<Sandbox, Error>)
        ensures
            has_id(store@, id@) ==> (result matches Ok(sandbox) && sandbox@ == store@[position(
                store@,
                id@,
            )] && sandbox@.id == id@),
            !has_id(store@, id@) ==> (result matches Err(Error::SandboxNotFound(missing))
                && missing@ == id@),
    {
        store.get(id)
    }

    /// List all sandboxes with optional state filter, newest first.
    pub fn list(&self, store: &SandboxRepository, state: Option<SandboxState>) -> (result: Result<
        Vec<Sandbox>,
        Error,
    >)
        ensures
            result matches Ok(list) && crate::store::newest_first(row_views(list@)) && row_views(
                list@,
            ).to_multiset() == store@.filter(
                |row: SandboxView| crate::store::passes(state, row),
            ).to_multiset(),
    {
        store.list(state)
    }

    /// Check if agent is connected for a sandbox.
    pub fn is_agent_connected(&self, pool: &AgentConnPool, id: &str) -> (connected: bool)
        ensures
            connected == pool@.connected(id@),
    {
        pool.is_connected(id)
    }

    /// Begins the cleanup of the expired sandboxes at the given time: a sweep
    /// over the ids of the expired sandboxes, in the order of their
    /// creation. The runner lets the sweep begin and finish one deletion
    /// after the other, and at the end the sweep tells what was deleted.
    pub fn cleanup_expired(&self, store: &SandboxRepository, now: i64) -> (result: Result<
        ExpirySweep,
        Error,
    >)
        ensures
            result matches Ok(sweep) && sweep@ == SweepView::start(
                ids_of(store@.filter(|row: SandboxView| crate::store::is_expired(row, now))),
            ),
    {
        let expired = match store.get_expired_sandboxes(now) {
            Err(e) => {
                return Err(e);
            },
            Ok(expired) => expired,
        };
        let mut ids: Vec<String> = Vec::new();
        let mut i: usize = 0;
        while i < expired.len()
            invariant
                i <= expired.len(),
                ids@.len() == i,
                forall|j: int| 0 <= j < i ==> (#[trigger] ids@[j])@ == expired@[j]@.id,
            decreases expired.len() - i,
        {
            ids.push(expired[i].id.clone());
            i += 1;
        }
        assert(texts(ids@) =~= ids_of(row_views(expired@)));
        let sweep = ExpirySweep { expired: ids, next: 0, deleted: Vec::new() };
        assert(texts(sweep.deleted@) =~= Seq::<Seq<char>>::empty());
        Ok(sweep)
    }

    /// The container whose statistics are those of the sandbox. Statistics
    /// are valid only for a running sandbox.
    pub fn get_stats(&self, lookup: Result<Sandbox, Error>) -> (result: Result<String, Error>)
        ensures
            match lookup {
                Err(cause) => result == Err::<String, Error>(cause),
                Ok(sandbox) => if sandbox.state != SandboxState::Running {
                    result matches Err(Error::InvalidSandboxState { expected, actual }) && expected@
                        == "running"@ && actual@ == sandbox.state.name()
                } else {
                    match sandbox.container_id {
                        Some(container_id) => result == Ok::<String, Error>(container_id),
                        None => result matches Err(Error::Internal(m)) && m@ == "No container ID"@,
                    }
                },
            },
    {
        let sandbox = match lookup {
            Err(e) => {
                return Err(e);
            },
            Ok(sandbox) => sandbox,
        };
        if sandbox.state != SandboxState::Running {
            return Err(
                Error::InvalidSandboxState {
                    expected: "running".to_owned(),
                    actual: sandbox.state.as_str().to_owned(),
                },
            );
        }
        match sandbox.container_id {
            Some(container_id) => Ok(container_id),
            None => Err(Error::Internal("No container ID".to_owned())),
        }
    }
}

/// A sandbox that the creation brings to `Running` has a container: the
/// creation writes the id of the container into the row before it marks the
/// sandbox as running.
pub proof fn lemma_running_has_container(
    rows: Seq<SandboxView>,
    row: SandboxView,
    container_id: Seq<char>,
    t1: i64,
    t2: i64,
)
    requires
        crate::store::ids_unique(rows),
        !has_id(rows, row.id),
        row.state == SandboxState::Starting,
    ensures
        ({
            let created = apply_op(rows, StoreOp::Create { row });
            let with_container = apply_op(
                created,
                StoreOp::UpdateContainerId { id: row.id, container_id, now: t1 },
            );
            let running = apply_op(
                with_container,
                StoreOp::UpdateState {
                    id: row.id,
                    state: SandboxState::Running,
                    error_message: None,
                    now: t2,
                },
            );
            &&& has_id(running, row.id)
            &&& running[position(running, row.id)].state == SandboxState::Running
            &&& running[position(running, row.id)].container_id == Some(container_id)
            &&& running[position(running, row.id)].running_has_container()
        }),
{
    let created = apply_op(rows, StoreOp::Create { row });
    crate::store::lemma_create_then_get(rows, row);
    crate::store::lemma_apply_keeps_ids(rows, StoreOp::Create { row });
    let i = position(created, row.id);
    let with_container = apply_op(
        created,
        StoreOp::UpdateContainerId { id: row.id, container_id, now: t1 },
    );
    crate::store::lemma_update_keeps_ids(created, i, with_container[i]);
    let running = apply_op(
        with_container,
        StoreOp::UpdateState {
            id: row.id,
            state: SandboxState::Running,
            error_message: None,
            now: t2,
        },
    );
    crate::store::lemma_update_keeps_ids(with_container, i, running[i]);
}

/// A forced deletion leaves nothing pending: once it is finished, the
/// sandbox is gone from the store, its agent is not connected, and no
/// request is pending on it.
pub proof fn lemma_forced_delete_cancels(
    rows: Seq<SandboxView>,
    pool: crate::agent_pool::PoolModel,
    id: Seq<char>,
)
    requires
        crate::store::ids_unique(rows),
    ensures
        !has_id(apply_op(rows, StoreOp::Delete { id }), id),
        !pool.unregister(id).connected(id),
        pool.unregister(id).pending_on(id) == Set::<Seq<char>>::empty(),
{
    crate::store::lemma_delete_twice(rows, id);
    crate::agent_pool::lemma_unregister_cancels(pool, id);
}

/// The container of a sandbox carries the label of its sandbox and the
/// label of its workspace, from which each is found again.
pub proof fn lemma_container_labels(
    opts: CreateContainerOpts,
    config: Config,
    params: CreateSandboxParams,
    sandbox_id: Seq<char>,
    workspace_id: Seq<char>,
)
    requires
        is_container_of(opts, config, params, sandbox_id, workspace_id),
    ensures
        crate::string_map::pairs_to_map(opts.labels.pairs()).contains_key(sandbox_label()),
        crate::string_map::pairs_to_map(opts.labels.pairs())[sandbox_label()] == sandbox_id,
        crate::string_map::pairs_to_map(opts.labels.pairs()).contains_key(workspace_label()),
        crate::string_map::pairs_to_map(opts.labels.pairs())[workspace_label()] == workspace_id,
{
    reveal_strlit("workspace.sandbox.id");
    reveal_strlit("workspace.workspace.id");
    assert(sandbox_label()[10] != workspace_label()[10]);
    let pairs = opts.labels.pairs();
    assert(pairs[0].0 == sandbox_label());
    assert(pairs[1].0 == workspace_label());
    assert(crate::string_map::keys_distinct(pairs));
    crate::string_map::lemma_value_at(pairs, 0);
    crate::string_map::lemma_value_at(pairs, 1);
}

/// A sweep, as plain values: the ids to delete, how many of them were
/// dealt with, and which of those were deleted.
pub struct SweepView {
    pub ids: Seq<Seq<char>>,
    pub position: nat,
    pub deleted: Seq<Seq<char>>,
}

impl SweepView {
    /// A sweep that has dealt with nothing yet.
    pub open spec fn start(ids: Seq<Seq<char>>) -> SweepView {
        SweepView { ids, position: 0, deleted: Seq::empty() }
    }

    /// Whether every id was dealt with.
    pub open spec fn done(self) -> bool {
        self.position >= self.ids.len()
    }

    /// The sweep after the outcome of the deletion that was due: the next
    /// id is due, whether the deletion succeeded or not, and the id counts
    /// as deleted only if it succeeded. A sweep that is done stays as it is.
    pub open spec fn record(self, deleted: bool) -> SweepView {
        if self.done() {
            self
        } else {
            SweepView {
                ids: self.ids,
                position: self.position + 1,
                deleted: if deleted {
                    self.deleted.push(self.ids[self.position as int])
                } else {
                    self.deleted
                },
            }
        }
    }

    /// The sweep after a sequence of outcomes, first to last.
    pub open spec fn record_all(self, outcomes: Seq<bool>) -> SweepView
        decreases outcomes.len(),
    {
        if outcomes.len() == 0 {
            self
        } else {
            self.record_all(outcomes.drop_last()).record(outcomes.last())
        }
    }
}

/// Those of the ids whose deletion succeeded, in their order: the id at each
/// position for which the outcome at the same position is a success.
pub open spec fn swept(ids: Seq<Seq<char>>, outcomes: Seq<bool>) -> Seq<Seq<char>>
    decreases outcomes.len(),
{
    if outcomes.len() == 0 {
        Seq::empty()
    } else if outcomes.len() <= ids.len() && outcomes.last() {
        swept(ids, outcomes.drop_last()).push(ids[outcomes.len() - 1])
    } else {
        swept(ids, outcomes.drop_last())
    }
}

/// What the sweep does next.
#[derive(Debug, PartialEq, Eq)]
pub enum SweepStep {
    /// The deletion of this sandbox has begun: its container is to be torn
    /// down as said, and the deletion then finished.
    Teardown { id: String, teardown: Teardown },
    /// The deletion of this sandbox could not begin, for the reason given;
    /// the sweep has gone on to the next.
    Skipped { id: String, error: Error },
    /// Every expired sandbox was dealt with.
    Done,
}

/// A sweep over the expired sandboxes. Each is deleted by force; a deletion
/// that fails does not end the sweep.
#[derive(Debug)]
pub struct ExpirySweep {
    expired: Vec<String>,
    next: usize,
    deleted: Vec<String>,
}

impl View for ExpirySweep {
    type V = SweepView;

    closed spec fn view(&self) -> SweepView {
        SweepView {
            ids: texts(self.expired@),
            position: self.next as nat,
            deleted: texts(self.deleted@),
        }
    }
}

impl ExpirySweep {
    /// Takes the outcome of the deletion that was due, and goes on to the
    /// next sandbox whatever the outcome.
    fn record(&mut self, deleted: bool)
        ensures
            final(self)@ == old(self)@.record(deleted),
    {
        if self.next < self.expired.len() {
            if deleted {
                let ghost before = texts(self.deleted@);
                self.deleted.push(self.expired[self.next].clone());
                assert(texts(self.deleted@) =~= before.push(self.expired@[self.next as int]@));
            }
            self.next = self.next + 1;
        }
    }

    /// Begins the deletion that is due: that of the next expired sandbox,
    /// always by force, so that a running sandbox is no obstacle. Where the
    /// sandbox is gone from the store, the deletion counts as failed and
    /// the sweep goes on. Otherwise the runner tears the container down as
    /// said and calls `finish_next`.
    pub fn begin_next(&mut self, service: &SandboxService, store: &mut SandboxRepository, now: i64) -> (step:
        SweepStep)
        ensures
            final(store).wf(),
            old(self)@.done() ==> step is Done && final(self)@ == old(self)@ && final(store)@
                == old(store)@,
            !old(self)@.done() && has_id(old(store)@, old(self)@.ids[old(self)@.position as int])
                ==> (step matches SweepStep::Teardown { id, teardown } && id@
                == old(self)@.ids[old(self)@.position as int] && opt_text(teardown.container_id)
                == old(store)@[position(old(store)@, id@)].container_id && !teardown.stop_first
                && teardown.force_remove && teardown.stop_grace_secs == DEFAULT_STOP_GRACE_SECS
                && final(self)@ == old(self)@ && final(store)@ == apply_op(
                old(store)@,
                StoreOp::UpdateState {
                    id: id@,
                    state: SandboxState::Stopping,
                    error_message: None,
                    now,
                },
            )),
            !old(self)@.done() && !has_id(old(store)@, old(self)@.ids[old(self)@.position as int])
                ==> (step matches SweepStep::Skipped { id, error: Error::SandboxNotFound(missing) }
                && id@ == old(self)@.ids[old(self)@.position as int] && missing@ == id@
                && final(self)@ == old(self)@.record(false) && final(store)@ == old(store)@),
    {
        proof {
            use_type_invariant(&*store);
        }
        if self.next >= self.expired.len() {
            return SweepStep::Done;
        }
        let id = self.expired[self.next].clone();
        match service.delete(store, id.as_str(), true, now) {
            Ok(teardown) => SweepStep::Teardown { id, teardown },
            Err(error) => {
                self.record(false);
                SweepStep::Skipped { id, error }
            },
        }
    }

    /// Finishes the deletion that is due, after the container was torn
    /// down: the agent is unregistered and the row deleted, as for any
    /// deletion, and the sweep goes on to the next sandbox. Says whether
    /// the sandbox was deleted; only then does the sweep tell it as deleted,
    /// and then the store holds it no more.
    pub fn finish_next(
        &mut self,
        service: &SandboxService,
        store: &mut SandboxRepository,
        pool: &mut AgentConnPool,
    ) -> (deleted: bool)
        ensures
            final(store).wf(),
            final(pool).response_timeout() == old(pool).response_timeout(),
            old(self)@.done() ==> !deleted && final(self)@ == old(self)@ && final(store)@ == old(store)@ && final(pool)@ == old(pool)@,
            !old(self)@.done() ==> ({
                let id = old(self)@.ids[old(self)@.position as int];
                &&& deleted == has_id(old(store)@, id)
                &&& final(self)@ == old(self)@.record(deleted)
                &&& final(store)@ == apply_op(old(store)@, StoreOp::Delete { id })
                &&& !has_id(final(store)@, id)
                &&& final(pool)@ == old(pool)@.unregister(id)
            }),
    {
        proof {
            use_type_invariant(&*store);
        }
        if self.next >= self.expired.len() {
            return false;
        }
        let deleted = service.finish_delete(store, pool, self.expired[self.next].as_str()).is_ok();
        self.record(deleted);
        deleted
    }

    /// The sandboxes that were deleted, in the order of the sweep.
    pub fn finish(self) -> (deleted: Vec<String>)
        ensures
            texts(deleted@) == self@.deleted,
    {
        self.deleted
    }
}

/// A sweep deals with every expired sandbox once and with no other, goes on
/// after a failed deletion, and tells exactly what was deleted: after as
/// many outcomes as there are ids, the sweep is done, and what it tells is
/// those ids whose deletion succeeded, in their order.
pub proof fn lemma_sweep_tells_what_was_deleted(ids: Seq<Seq<char>>, outcomes: Seq<bool>)
    requires
        outcomes.len() <= ids.len(),
    ensures
        SweepView::start(ids).record_all(outcomes).ids == ids,
        SweepView::start(ids).record_all(outcomes).position == outcomes.len(),
        SweepView::start(ids).record_all(outcomes).deleted == swept(ids, outcomes),
        SweepView::start(ids).record_all(outcomes).done() <==> outcomes.len() == ids.len(),
        swept(ids, outcomes).len() <= outcomes.len(),
    decreases outcomes.len(),
{
    if outcomes.len() > 0 {
        lemma_sweep_tells_what_was_deleted(ids, outcomes.drop_last());
    }
}

/// Every id that a sweep tells as deleted is one of the expired ids, and
/// its deletion succeeded.
pub proof fn lemma_swept_are_successes(ids: Seq<Seq<char>>, outcomes: Seq<bool>, k: int)
    requires
        outcomes.len() <= ids.len(),
        0 <= k < swept(ids, outcomes).len(),
    ensures
        exists|i: int| 0 <= i < outcomes.len() && outcomes[i] && #[trigger] ids[i] == swept(
            ids,
            outcomes,
        )[k],
    decreases outcomes.len(),
{
    if outcomes.len() > 0 {
        let head = outcomes.drop_last();
        let n = outcomes.len() - 1;
        if outcomes.last() && k == swept(ids, head).len() {
            assert(outcomes[n] && ids[n] == swept(ids, outcomes)[k]);
        } else {
            lemma_swept_are_successes(ids, head, k);
            let i = choose|i: int| 0 <= i < head.len() && head[i] && #[trigger] ids[i] == swept(
                ids,
                head,
            )[k];
            assert(outcomes[i] && ids[i] == swept(ids, outcomes)[k]);
        }
    }
}

} // verus!
