//! The workspace: a persistent directory that sandboxes mount.

use vstd::prelude::*;
use crate::sandbox::opt_text;
use crate::string_map::StringMap;
use crate::strings::clone_opt;

verus! {

/// Workspace entity.
///
/// A workspace is an independent, persistent working directory that can be
/// mounted by multiple sandboxes. It has its own lifecycle and NFS export.
#[derive(Debug, PartialEq, Eq)]
pub struct Workspace {
    /// Unique identifier.
    pub id: String,
    /// Optional human-readable name.
    pub name: Option<String>,
    /// NFS mount URL (if available).
    pub nfs_url: Option<String>,
    /// Custom metadata.
    pub metadata: StringMap,
    /// Creation time, in milliseconds since the Unix epoch.
    pub created_at: i64,
    /// Time of the last update, in milliseconds since the Unix epoch.
    pub updated_at: i64,
}

/// A workspace, as plain values.
pub struct WorkspaceView {
    pub id: Seq<char>,
    pub name: Option<Seq<char>>,
    pub nfs_url: Option<Seq<char>>,
    pub metadata: Seq<(Seq<char>, Seq<char>)>,
    pub created_at: i64,
    pub updated_at: i64,
}

impl View for Workspace {
    type V = WorkspaceView;

    open spec fn view(&self) -> WorkspaceView {
        WorkspaceView {
            id: self.id@,
            name: opt_text(self.name),
            nfs_url: opt_text(self.nfs_url),
            metadata: self.metadata.pairs(),
            created_at: self.created_at,
            updated_at: self.updated_at,
        }
    }
}

impl Workspace {
    /// Create a new workspace at the given time: unnamed, not exported,
    /// without metadata.
    pub fn new(id: String, now: i64) -> (workspace: Self)
        ensures
            workspace@ == (WorkspaceView {
                id: id@,
                name: None,
                nfs_url: None,
                metadata: Seq::empty(),
                created_at: now,
                updated_at: now,
            }),
    {
        Workspace {
            id,
            name: None,
            nfs_url: None,
            metadata: StringMap::new(),
            created_at: now,
            updated_at: now,
        }
    }

    /// Update the NFS URL at the given time.
    pub fn set_nfs_url(&mut self, nfs_url: String, now: i64)
        ensures
            final(self)@ == (WorkspaceView {
                nfs_url: Some(nfs_url@),
                updated_at: now,
                ..old(self)@
            }),
    {
        self.nfs_url = Some(nfs_url);
        self.updated_at = now;
    }
}

impl Clone for Workspace {
    fn clone(&self) -> (copy: Self)
        ensures
            copy@ == self@,
    {
        Workspace {
            id: self.id.clone(),
            name: clone_opt(&self.name),
            nfs_url: clone_opt(&self.nfs_url),
            metadata: self.metadata.clone(),
            created_at: self.created_at,
            updated_at: self.updated_at,
        }
    }
}

/// Parameters for creating a workspace.
#[derive(Debug, Clone, PartialEq, Eq)]
pub struct CreateWorkspaceParams {
    /// Optional name.
    pub name: Option<String>,
    /// Custom metadata.
    pub metadata: Option<StringMap>,
}

impl Default for CreateWorkspaceParams {
    fn default() -> (params: Self)
        ensures
            params.name is None,
            params.metadata is None,
    {
        CreateWorkspaceParams { name: None, metadata: None }
    }
}

} // verus!
