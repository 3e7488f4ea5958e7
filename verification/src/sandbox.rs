//! The sandbox and its lifecycle states.

use vstd::prelude::*;
use crate::string_map::StringMap;
use crate::strings::{clone_opt, str_eq};

verus! {

/// Lifecycle state of a sandbox.
#[derive(Debug, Clone, Copy, PartialEq, Eq, Structural)]
pub enum SandboxState {
    /// The sandbox is being created.
    Starting,
    /// The sandbox is running and ready.
    Running,
    /// The sandbox is being stopped.
    Stopping,
    /// The sandbox is stopped.
    Stopped,
    /// The sandbox met an error.
    Error,
}

impl SandboxState {
    /// The lower-case name of the state.
    pub open spec fn name(self) -> Seq<char> {
        match self {
            SandboxState::Starting => "starting"@,
            SandboxState::Running => "running"@,
            SandboxState::Stopping => "stopping"@,
            SandboxState::Stopped => "stopped"@,
            SandboxState::Error => "error"@,
        }
    }

    /// The state that a name stands for, if it is the name of one.
    pub open spec fn parse(text: Seq<char>) -> Option<SandboxState> {
        if text == "starting"@ {
            Some(SandboxState::Starting)
        } else if text == "running"@ {
            Some(SandboxState::Running)
        } else if text == "stopping"@ {
            Some(SandboxState::Stopping)
        } else if text == "stopped"@ {
            Some(SandboxState::Stopped)
        } else if text == "error"@ {
            Some(SandboxState::Error)
        } else {
            None
        }
    }

    /// The allowed transitions: a sandbox that starts may run or fail, one
    /// that runs may begin to stop or fail, one that is stopping ends stopped
    /// or failed. Nothing else is allowed.
    pub open spec fn allows(self, next: SandboxState) -> bool {
        match (self, next) {
            (SandboxState::Starting, SandboxState::Running) => true,
            (SandboxState::Starting, SandboxState::Error) => true,
            (SandboxState::Running, SandboxState::Stopping) => true,
            (SandboxState::Running, SandboxState::Error) => true,
            (SandboxState::Stopping, SandboxState::Stopped) => true,
            (SandboxState::Stopping, SandboxState::Error) => true,
            _ => false,
        }
    }

    /// A terminal state: stopped or failed.
    pub open spec fn terminal(self) -> bool {
        self == SandboxState::Stopped || self == SandboxState::Error
    }

    /// How far along its life a sandbox in this state is.
    pub open spec fn rank(self) -> nat {
        match self {
            SandboxState::Starting => 0,
            SandboxState::Running => 1,
            SandboxState::Stopping => 2,
            SandboxState::Stopped => 3,
            SandboxState::Error => 3,
        }
    }

    pub fn as_str(&self) -> (name: &'static str)
        ensures
            name@ == self.name(),
    {
        match self {
            SandboxState::Starting => "starting",
            SandboxState::Running => "running",
            SandboxState::Stopping => "stopping",
            SandboxState::Stopped => "stopped",
            SandboxState::Error => "error",
        }
    }

    pub fn from_str(s: &str) -> (state: Option<Self>)
        ensures
            state == Self::parse(s@),
    {
        if str_eq(s, "starting") {
            Some(SandboxState::Starting)
        } else if str_eq(s, "running") {
            Some(SandboxState::Running)
        } else if str_eq(s, "stopping") {
            Some(SandboxState::Stopping)
        } else if str_eq(s, "stopped") {
            Some(SandboxState::Stopped)
        } else if str_eq(s, "error") {
            Some(SandboxState::Error)
        } else {
            None
        }
    }

    /// Whether a sandbox in this state may go to `next`.
    pub fn can_transition_to(&self, next: SandboxState) -> (allowed: bool)
        ensures
            allowed == self.allows(next),
    {
        match (*self, next) {
            (SandboxState::Starting, SandboxState::Running) => true,
            (SandboxState::Starting, SandboxState::Error) => true,
            (SandboxState::Running, SandboxState::Stopping) => true,
            (SandboxState::Running, SandboxState::Error) => true,
            (SandboxState::Stopping, SandboxState::Stopped) => true,
            (SandboxState::Stopping, SandboxState::Error) => true,
            _ => false,
        }
    }
}

/// The five names are five different texts.
pub proof fn lemma_state_names_differ()
    ensures
        forall|a: SandboxState, b: SandboxState| a.name() == b.name() ==> a == b,
{
    reveal_strlit("starting");
    reveal_strlit("running");
    reveal_strlit("stopping");
    reveal_strlit("stopped");
    reveal_strlit("error");
    assert forall|a: SandboxState, b: SandboxState| a.name() == b.name() implies a == b by {
        if a != b {
            assert(a.name().len() != b.name().len() || a.name()[2] != b.name()[2]);
        }
    }
}

/// A state is read back from its own name, and a text is read as a state only
/// if it is that state's name.
pub proof fn lemma_state_name_round_trip(state: SandboxState, text: Seq<char>)
    ensures
        SandboxState::parse(state.name()) == Some(state),
        SandboxState::parse(text) == Some(state) <==> text == state.name(),
{
    lemma_state_names_differ();
    match state {
        SandboxState::Starting => {},
        SandboxState::Running => {
            assert(SandboxState::Running.name() != SandboxState::Starting.name());
        },
        SandboxState::Stopping => {
            assert(SandboxState::Stopping.name() != SandboxState::Starting.name());
            assert(SandboxState::Stopping.name() != SandboxState::Running.name());
        },
        SandboxState::Stopped => {
            assert(SandboxState::Stopped.name() != SandboxState::Starting.name());
            assert(SandboxState::Stopped.name() != SandboxState::Running.name());
            assert(SandboxState::Stopped.name() != SandboxState::Stopping.name());
        },
        SandboxState::Error => {
            assert(SandboxState::Error.name() != SandboxState::Starting.name());
            assert(SandboxState::Error.name() != SandboxState::Running.name());
            assert(SandboxState::Error.name() != SandboxState::Stopping.name());
            assert(SandboxState::Error.name() != SandboxState::Stopped.name());
        },
    }
    if SandboxState::parse(text) == Some(state) {
        assert(text == state.name());
    }
}

/// Every allowed transition moves a sandbox strictly forward in its life:
/// nothing leaves a terminal state, nothing returns to `Starting`, and no
/// state is entered twice.
pub proof fn lemma_transitions_move_forward(from: SandboxState, to: SandboxState)
    requires
        from.allows(to),
    ensures
        from.rank() < to.rank(),
        !from.terminal(),
        to != SandboxState::Starting,
        from != to,
{
}

/// A sandbox, as the service sees it.
#[derive(Debug, PartialEq, Eq)]
pub struct Sandbox {
    /// Unique identifier.
    pub id: String,
    /// The workspace whose directory the sandbox mounts.
    pub workspace_id: String,
    /// Optional human-readable name.
    pub name: Option<String>,
    /// Image reference that the sandbox was created from.
    pub template: String,
    /// Current state.
    pub state: SandboxState,
    /// Identifier of the container, once there is one.
    pub container_id: Option<String>,
    /// Environment variables.
    pub env: StringMap,
    /// Custom metadata.
    pub metadata: StringMap,
    /// NFS mount URL, if the workspace is exported.
    pub nfs_url: Option<String>,
    /// Creation time, in milliseconds since the Unix epoch.
    pub created_at: i64,
    /// Time of the last update, in milliseconds since the Unix epoch.
    pub updated_at: i64,
    /// Timeout in seconds (0 = no timeout).
    pub timeout: u64,
    /// Error message, if the state is `Error`.
    pub error_message: Option<String>,
}

/// What a sandbox holds, as plain mathematical values.
pub struct SandboxView {
    pub id: Seq<char>,
    pub workspace_id: Seq<char>,
    pub name: Option<Seq<char>>,
    pub template: Seq<char>,
    pub state: SandboxState,
    pub container_id: Option<Seq<char>>,
    pub env: Seq<(Seq<char>, Seq<char>)>,
    pub metadata: Seq<(Seq<char>, Seq<char>)>,
    pub nfs_url: Option<Seq<char>>,
    pub created_at: i64,
    pub updated_at: i64,
    pub timeout: u64,
    pub error_message: Option<Seq<char>>,
}

/// The text of an optional string.
pub open spec fn opt_text(value: Option<String>) -> Option<Seq<char>> {
    match value {
        Some(s) => Some(s@),
        None => None,
    }
}

impl View for Sandbox {
    type V = SandboxView;

    open spec fn view(&self) -> SandboxView {
        SandboxView {
            id: self.id@,
            workspace_id: self.workspace_id@,
            name: opt_text(self.name),
            template: self.template@,
            state: self.state,
            container_id: opt_text(self.container_id),
            env: self.env.pairs(),
            metadata: self.metadata.pairs(),
            nfs_url: opt_text(self.nfs_url),
            created_at: self.created_at,
            updated_at: self.updated_at,
            timeout: self.timeout,
            error_message: opt_text(self.error_message),
        }
    }
}

impl SandboxView {
    /// A sandbox as it is when first made: starting, with no container, no
    /// variables and no timeout.
    pub open spec fn fresh(id: Seq<char>, template: Seq<char>, now: i64) -> SandboxView {
        SandboxView {
            id,
            workspace_id: Seq::empty(),
            name: None,
            template,
            state: SandboxState::Starting,
            container_id: None,
            env: Seq::empty(),
            metadata: Seq::empty(),
            nfs_url: None,
            created_at: now,
            updated_at: now,
            timeout: 0,
            error_message: None,
        }
    }

    /// The sandbox after a transition at the given time: in the new state and
    /// stamped, if the transition is allowed; unchanged, if it is not.
    pub open spec fn transitioned(self, next: SandboxState, now: i64) -> SandboxView {
        if self.state.allows(next) {
            SandboxView { state: next, updated_at: now, ..self }
        } else {
            self
        }
    }

    /// The same sandbox but for the time of its last update.
    pub open spec fn same_but_updated_at(self, other: SandboxView) -> bool {
        SandboxView { updated_at: 0, ..self } == SandboxView { updated_at: 0, ..other }
    }

    /// A running sandbox has a container.
    pub open spec fn running_has_container(self) -> bool {
        self.state == SandboxState::Running ==> self.container_id is Some
    }
}

impl Sandbox {
    /// Create a new sandbox, starting at the given time.
    pub fn new(id: String, template: String, now: i64) -> (sandbox: Self)
        ensures
            sandbox@ == SandboxView::fresh(id@, template@, now),
    {
        let workspace_id = String::new();
        let env = StringMap::new();
        let metadata = StringMap::new();
        Sandbox {
            id,
            workspace_id,
            name: None,
            template,
            state: SandboxState::Starting,
            container_id: None,
            env,
            metadata,
            nfs_url: None,
            created_at: now,
            updated_at: now,
            timeout: 0,
            error_message: None,
        }
    }

    /// Check if the sandbox is in a terminal state.
    pub fn is_terminal(&self) -> (terminal: bool)
        ensures
            terminal == self@.state.terminal(),
    {
        match self.state {
            SandboxState::Stopped | SandboxState::Error => true,
            _ => false,
        }
    }

    /// Check if the sandbox can accept commands.
    pub fn is_ready(&self) -> (ready: bool)
        ensures
            ready == (self@.state == SandboxState::Running),
    {
        self.state == SandboxState::Running
    }

    /// Transition to a new state at the given time. Returns whether the
    /// transition is allowed; a sandbox is changed only by an allowed one.
    pub fn transition_to(&mut self, new_state: SandboxState, now: i64) -> (valid: bool)
        ensures
            valid == old(self)@.state.allows(new_state),
            final(self)@ == old(self)@.transitioned(new_state, now),
    {
        let valid = self.state.can_transition_to(new_state);
        if valid {
            self.state = new_state;
            self.updated_at = now;
        }
        valid
    }
}

impl Clone for Sandbox {
    fn clone(&self) -> (copy: Self)
        ensures
            copy@ == self@,
    {
        Sandbox {
            id: self.id.clone(),
            workspace_id: self.workspace_id.clone(),
            name: clone_opt(&self.name),
            template: self.template.clone(),
            state: self.state,
            container_id: clone_opt(&self.container_id),
            env: self.env.clone(),
            metadata: self.metadata.clone(),
            nfs_url: clone_opt(&self.nfs_url),
            created_at: self.created_at,
            updated_at: self.updated_at,
            timeout: self.timeout,
            error_message: clone_opt(&self.error_message),
        }
    }
}

/// Parameters for creating a sandbox.
#[derive(Debug, PartialEq, Eq)]
pub struct CreateSandboxParams {
    /// The workspace to bind to.
    pub workspace_id: String,
    /// Template to use.
    pub template: Option<String>,
    /// Optional name.
    pub name: Option<String>,
    /// Environment variables.
    pub env: Option<StringMap>,
    /// Custom metadata.
    pub metadata: Option<StringMap>,
    /// Timeout in seconds.
    pub timeout: Option<u64>,
}

/// The pairs of an optional mapping; none where there is no mapping.
pub open spec fn opt_pairs(map: Option<StringMap>) -> Seq<(Seq<char>, Seq<char>)> {
    match map {
        Some(m) => m.pairs(),
        None => Seq::empty(),
    }
}

/// An owned copy of an optional mapping.
pub fn clone_opt_map(map: &Option<StringMap>) -> (copy: Option<StringMap>)
    ensures
        copy is Some == map is Some,
        opt_pairs(copy) == opt_pairs(*map),
{
    match map {
        Some(m) => Some(m.clone()),
        None => None,
    }
}

impl Clone for CreateSandboxParams {
    fn clone(&self) -> (copy: Self)
        ensures
            copy.workspace_id@ == self.workspace_id@,
            opt_text(copy.template) == opt_text(self.template),
            opt_text(copy.name) == opt_text(self.name),
            copy.env is Some == self.env is Some,
            opt_pairs(copy.env) == opt_pairs(self.env),
            copy.metadata is Some == self.metadata is Some,
            opt_pairs(copy.metadata) == opt_pairs(self.metadata),
            copy.timeout == self.timeout,
    {
        CreateSandboxParams {
            workspace_id: self.workspace_id.clone(),
            template: clone_opt(&self.template),
            name: clone_opt(&self.name),
            env: clone_opt_map(&self.env),
            metadata: clone_opt_map(&self.metadata),
            timeout: self.timeout,
        }
    }
}

} // verus!
