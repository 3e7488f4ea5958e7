//! Requests and replies of the sandbox operations.

use vstd::prelude::*;
use crate::api::http::filesystem::flag_set;
use crate::sandbox::{opt_pairs, opt_text, CreateSandboxParams, Sandbox, SandboxState, SandboxView};
use crate::string_map::StringMap;
use crate::timefmt::{format_time, time_text};

verus! {

/// Create sandbox request.
#[derive(Debug, Clone, PartialEq, Eq)]
pub struct CreateSandboxRequest {
    pub workspace_id: String,
    pub template: Option<String>,
    pub name: Option<String>,
    pub env: Option<StringMap>,
    pub metadata: Option<StringMap>,
    pub timeout: Option<u64>,
}

/// Sandbox response.
#[derive(Debug, Clone, PartialEq, Eq)]
pub struct SandboxResponse {
    pub id: String,
    pub workspace_id: String,
    pub name: Option<String>,
    pub template: String,
    pub state: String,
    pub env: Option<StringMap>,
    pub metadata: Option<StringMap>,
    pub created_at: String,
    pub updated_at: String,
    pub timeout: Option<u64>,
    pub error_message: Option<String>,
}

/// List sandboxes response.
#[derive(Debug, Clone, PartialEq, Eq)]
pub struct ListSandboxesResponse {
    pub sandboxes: Vec<SandboxResponse>,
    pub total: usize,
}

/// List query parameters.
#[derive(Debug, Clone, PartialEq, Eq)]
pub struct ListQuery {
    pub state: Option<String>,
}

/// Delete query parameters.
#[derive(Debug, Clone, PartialEq, Eq)]
pub struct DeleteQuery {
    pub force: Option<String>,
}

/// Whether the reply says what the sandbox is: its fields as they are, its
/// state by name, and its times as RFC 3339 texts.
pub open spec fn replies_for(reply: SandboxResponse, sandbox: SandboxView) -> bool {
    &&& reply.id@ == sandbox.id
    &&& reply.workspace_id@ == sandbox.workspace_id
    &&& opt_text(reply.name) == sandbox.name
    &&& reply.template@ == sandbox.template
    &&& reply.state@ == sandbox.state.name()
    &&& reply.env is Some
    &&& opt_pairs(reply.env) == sandbox.env
    &&& reply.metadata is Some
    &&& opt_pairs(reply.metadata) == sandbox.metadata
    &&& reply.created_at@ == time_text(sandbox.created_at)
    &&& reply.updated_at@ == time_text(sandbox.updated_at)
    &&& reply.timeout == Some(sandbox.timeout)
    &&& opt_text(reply.error_message) == sandbox.error_message
}

impl CreateSandboxRequest {
    /// The parameters that the request stands for.
    pub fn into_params(self) -> (params: CreateSandboxParams)
        ensures
            params.workspace_id == self.workspace_id,
            params.template == self.template,
            params.name == self.name,
            params.env == self.env,
            params.metadata == self.metadata,
            params.timeout == self.timeout,
    {
        CreateSandboxParams {
            workspace_id: self.workspace_id,
            template: self.template,
            name: self.name,
            env: self.env,
            metadata: self.metadata,
            timeout: self.timeout,
        }
    }
}

impl SandboxResponse {
    /// The reply for a sandbox.
    pub fn from_sandbox(sandbox: Sandbox) -> (reply: Self)
        ensures
            replies_for(reply, sandbox@),
    {
        SandboxResponse {
            id: sandbox.id,
            workspace_id: sandbox.workspace_id,
            name: sandbox.name,
            template: sandbox.template,
            state: sandbox.state.as_str().to_owned(),
            env: Some(sandbox.env),
            metadata: Some(sandbox.metadata),
            created_at: format_time(sandbox.created_at),
            updated_at: format_time(sandbox.updated_at),
            timeout: Some(sandbox.timeout),
            error_message: sandbox.error_message,
        }
    }
}

impl ListSandboxesResponse {
    /// The reply for a list of sandboxes: a reply for each, in the same
    /// order, and their number.
    pub fn from_sandboxes(sandboxes: Vec<Sandbox>) -> (reply: Self)
        ensures
            reply.total == sandboxes@.len(),
            reply.sandboxes@.len() == sandboxes@.len(),
            forall|i: int|
                0 <= i < sandboxes@.len() ==> replies_for(
                    #[trigger] reply.sandboxes@[i],
                    sandboxes@[i]@,
                ),
    {
        let total = sandboxes.len();
        let mut replies: Vec<SandboxResponse> = Vec::new();
        let mut i: usize = 0;
        while i < sandboxes.len()
            invariant
                i <= sandboxes.len(),
                replies@.len() == i,
                forall|j: int| 0 <= j < i ==> replies_for(#[trigger] replies@[j], sandboxes@[j]@),
            decreases sandboxes.len() - i,
        {
            replies.push(SandboxResponse::from_sandbox(sandboxes[i].clone()));
            i += 1;
        }
        ListSandboxesResponse { sandboxes: replies, total }
    }
}

impl ListQuery {
    /// The state that the query filters by, if it names one; a name that is
    /// no state filters nothing.
    pub fn state_filter(&self) -> (filter: Option<SandboxState>)
        ensures
            filter == (match self.state {
                Some(name) => SandboxState::parse(name@),
                None => None,
            }),
    {
        match &self.state {
            Some(name) => SandboxState::from_str(name.as_str()),
            None => None,
        }
    }
}

impl DeleteQuery {
    /// Whether the deletion is forced: it is, if `force` is given as `true`.
    pub fn force(&self) -> (force: bool)
        ensures
            force == flag_set(self.force),
    {
        crate::api::http::filesystem::query_flag(&self.force)
    }
}

} // verus!
