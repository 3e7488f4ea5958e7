//! Requests and replies of the workspace operations.

use vstd::prelude::*;
use crate::sandbox::opt_text;
use crate::string_map::StringMap;
use crate::timefmt::{format_time, time_text};
use crate::workspace::{CreateWorkspaceParams, Workspace, WorkspaceView};

verus! {

/// Create workspace request.
#[derive(Debug, Clone, PartialEq, Eq)]
pub struct CreateWorkspaceRequest {
    pub name: Option<String>,
    pub metadata: Option<StringMap>,
}

/// Workspace response.
#[derive(Debug, Clone, PartialEq, Eq)]
pub struct WorkspaceResponse {
    pub id: String,
    pub name: Option<String>,
    pub nfs_url: Option<String>,
    pub metadata: StringMap,
    pub created_at: String,
    pub updated_at: String,
}

/// List workspaces response.
#[derive(Debug, Clone, PartialEq, Eq)]
pub struct ListWorkspacesResponse {
    pub workspaces: Vec<WorkspaceResponse>,
    pub total: usize,
}

/// Whether the reply says what the workspace is.
pub open spec fn replies_for(reply: WorkspaceResponse, workspace: WorkspaceView) -> bool {
    &&& reply.id@ == workspace.id
    &&& opt_text(reply.name) == workspace.name
    &&& opt_text(reply.nfs_url) == workspace.nfs_url
    &&& reply.metadata.pairs() == workspace.metadata
    &&& reply.created_at@ == time_text(workspace.created_at)
    &&& reply.updated_at@ == time_text(workspace.updated_at)
}

impl CreateWorkspaceRequest {
    /// The parameters that the request stands for.
    pub fn into_params(self) -> (params: CreateWorkspaceParams)
        ensures
            params.name == self.name,
            params.metadata == self.metadata,
    {
        CreateWorkspaceParams { name: self.name, metadata: self.metadata }
    }
}

impl WorkspaceResponse {
    /// The reply for a workspace.
    pub fn from_workspace(workspace: Workspace) -> (reply: Self)
        ensures
            replies_for(reply, workspace@),
    {
        WorkspaceResponse {
            id: workspace.id,
            name: workspace.name,
            nfs_url: workspace.nfs_url,
            metadata: workspace.metadata,
            created_at: format_time(workspace.created_at),
            updated_at: format_time(workspace.updated_at),
        }
    }
}

impl ListWorkspacesResponse {
    /// The reply for a list of workspaces: a reply for each, in the same
    /// order, and their number.
    pub fn from_workspaces(workspaces: Vec<Workspace>) -> (reply: Self)
        ensures
            reply.total == workspaces@.len(),
            reply.workspaces@.len() == workspaces@.len(),
            forall|i: int|
                0 <= i < workspaces@.len() ==> replies_for(
                    #[trigger] reply.workspaces@[i],
                    workspaces@[i]@,
                ),
    {
        let total = workspaces.len();
        let mut replies: Vec<WorkspaceResponse> = Vec::new();
        let mut i: usize = 0;
        while i < workspaces.len()
            invariant
                i <= workspaces.len(),
                replies@.len() == i,
                forall|j: int| 0 <= j < i ==> replies_for(#[trigger] replies@[j], workspaces@[j]@),
            decreases workspaces.len() - i,
        {
            replies.push(WorkspaceResponse::from_workspace(workspaces[i].clone()));
            i += 1;
        }
        ListWorkspacesResponse { workspaces: replies, total }
    }
}

} // verus!
