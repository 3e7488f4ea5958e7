//! Workspace service: the lifecycle of workspaces, and the checks before
//! the operations on their files.

use vstd::prelude::*;
use crate::config::Config;
use crate::error::Error;
use crate::nfs::{nfs_url, NfsManager};
use crate::paths::{resolve_path, resolved};
use crate::ids::is_uuid_text;
use crate::store::SandboxRepository;
use crate::sandbox::SandboxView;
use crate::strings::{concat2, concat3};
use crate::workspace::{CreateWorkspaceParams, Workspace, WorkspaceView};
use crate::workspace_repository::{
    has_workspace, new_workspace, no_uuid_workspaces, workspace_position, WorkspaceRepository,
};

verus! {

/// File information.
#[derive(Debug, Clone, PartialEq, Eq)]
pub struct FileInfo {
    pub name: String,
    pub path: String,
    /// `file` or `directory`.
    pub file_type: String,
    pub size: u64,
    /// Time of the last change, in milliseconds since the Unix epoch, where
    /// the file system tells it.
    pub modified_at: Option<i64>,
}

/// What is at a path.
#[derive(Debug, Clone, Copy, PartialEq, Eq, Structural)]
pub enum PathKind {
    /// Nothing.
    Missing,
    /// A file.
    File,
    /// A directory.
    Directory,
}

/// Why a directory could not be removed.
#[derive(Debug, Clone, PartialEq, Eq)]
pub enum RemoveDirFailure {
    /// The directory is not empty.
    NotEmpty,
    /// Anything else, with its message.
    Other(String),
}

/// The directory of a workspace: the configured base directory, a slash,
/// and the id.
pub open spec fn workspace_dir_of(config: Config, id: Seq<char>) -> Seq<char> {
    config.workspace_dir@ + "/"@ + id
}

/// The rows without the row of the workspace: all others stay, in their
/// order.
pub open spec fn rows_without(rows: Seq<WorkspaceView>, id: Seq<char>) -> Seq<WorkspaceView> {
    if has_workspace(rows, id) {
        rows.remove(workspace_position(rows, id))
    } else {
        rows
    }
}

/// The rows with the URL of its export in the row of the workspace, stamped
/// with the time; all other rows stay as they are, and so do all rows where
/// the workspace has none.
pub open spec fn rows_with_url(
    rows: Seq<WorkspaceView>,
    id: Seq<char>,
    url: Seq<char>,
    now: i64,
) -> Seq<WorkspaceView> {
    if has_workspace(rows, id) {
        rows.update(
            workspace_position(rows, id),
            WorkspaceView { nfs_url: Some(url), updated_at: now, ..rows[workspace_position(rows, id)] },
        )
    } else {
        rows
    }
}

/// Workspace service for managing workspace lifecycle and file operations.
pub struct WorkspaceService {}

impl WorkspaceService {
    /// Create a new workspace service.
    pub fn new() -> Self {
        WorkspaceService {  }
    }

    /// Get workspace directory path.
    pub fn get_workspace_dir(&self, config: &Config, workspace_id: &str) -> (dir: String)
        ensures
            dir@ == workspace_dir_of(*config, workspace_id@),
    {
        concat3(config.workspace_dir.as_str(), "/", workspace_id)
    }

    /// Begins the creation of a workspace: the workspace gets its row,
    /// under a fresh id. The runner then creates the directory of the
    /// workspace and reports the outcome to `directory_created`. The
    /// creation fails only where the fresh id is taken.
    pub fn create(&self, repository: &mut WorkspaceRepository, params: CreateWorkspaceParams, now: i64) -> (result:
        Result<Workspace, Error>)
        ensures
            no_uuid_workspaces(old(repository)@) ==> result is Ok,
            result matches Ok(workspace) ==> is_uuid_text(workspace@.id),
            match result {
                Ok(workspace) => !has_workspace(old(repository)@, workspace@.id) && workspace@
                    == new_workspace(params, workspace@.id, now) && final(repository)@ == old(repository)@.push(workspace@),
                Err(e) => e is Internal && final(repository)@ == old(repository)@,
            },
    {
        repository.create(params, now)
    }

    /// Finishes the creation of a workspace. Where its directory could not
    /// be created, the row is taken back and the creation fails. Else the
    /// directory is exported, the URL of the export goes into the row, and
    /// the workspace is returned as it is then.
    pub fn directory_created(
        &self,
        repository: &mut WorkspaceRepository,
        nfs: &mut NfsManager,
        config: &Config,
        workspace_id: &str,
        outcome: Result<(), String>,
        now: i64,
    ) -> (result: Result<Workspace, Error>)
        ensures
            final(nfs).host_spec() == old(nfs).host_spec(),
            final(nfs).port_spec() == old(nfs).port_spec(),
            match outcome {
                Err(cause) => (result matches Err(Error::Internal(m)) && m@
                    == "Failed to create workspace directory: "@ + cause@) && final(repository)@
                    == rows_without(old(repository)@, workspace_id@) && !has_workspace(
                    final(repository)@,
                    workspace_id@,
                ) && final(nfs).exports() == old(nfs).exports(),
                Ok(()) => final(nfs).exports() == old(nfs).exports().insert(
                    workspace_id@,
                    workspace_dir_of(*config, workspace_id@),
                ) && final(repository)@ == rows_with_url(
                    old(repository)@,
                    workspace_id@,
                    nfs_url(old(nfs).host_spec(), old(nfs).port_spec(), workspace_id@),
                    now,
                ) && if has_workspace(old(repository)@, workspace_id@) {
                    result matches Ok(workspace) && has_workspace(
                        final(repository)@,
                        workspace_id@,
                    ) && workspace@ == final(repository)@[workspace_position(
                        final(repository)@,
                        workspace_id@,
                    )] && workspace@ == (WorkspaceView {
                        nfs_url: Some(
                            nfs_url(old(nfs).host_spec(), old(nfs).port_spec(), workspace_id@),
                        ),
                        updated_at: now,
                        ..old(repository)@[workspace_position(old(repository)@, workspace_id@)]
                    })
                } else {
                    (result matches Err(Error::WorkspaceNotFound(missing)) && missing@
                        == workspace_id@) && final(repository)@ == old(repository)@
                },
            },
    {
        match outcome {
            Err(cause) => {
                let _ = repository.delete(workspace_id);
                Err(
                    Error::Internal(
                        concat2("Failed to create workspace directory: ", cause.as_str()),
                    ),
                )
            },
            Ok(()) => {
                let dir = self.get_workspace_dir(config, workspace_id);
                let url = nfs.export(workspace_id, dir.as_str());
                let _ = repository.update_nfs_url(workspace_id, url.as_str(), now);
                repository.get(workspace_id)
            },
        }
    }

    /// Begins the deletion of a workspace. A workspace that a sandbox still
    /// mounts cannot be deleted. Else its export is taken back, and the
    /// directory that the runner is to remove is returned; the runner then
    /// calls `finish_delete`.
    pub fn delete(
        &self,
        sandboxes: &SandboxRepository,
        nfs: &mut NfsManager,
        config: &Config,
        workspace_id: &str,
    ) -> (result: Result<String, Error>)
        ensures
            final(nfs).host_spec() == old(nfs).host_spec(),
            final(nfs).port_spec() == old(nfs).port_spec(),
            sandboxes@.filter(|row: SandboxView| row.workspace_id == workspace_id@).len() > 0 ==> (
            result == Err::<String, Error>(Error::WorkspaceHasActiveSandboxes) && final(nfs).exports() == old(nfs).exports()),
            sandboxes@.filter(|row: SandboxView| row.workspace_id == workspace_id@).len() == 0
                ==> (result matches Ok(dir) && dir@ == workspace_dir_of(*config, workspace_id@))
                && final(nfs).exports() == old(nfs).exports().remove(workspace_id@),
    {
        if sandboxes.count_for_workspace(workspace_id) > 0 {
            return Err(Error::WorkspaceHasActiveSandboxes);
        }
        let _ = nfs.unexport(workspace_id);
        Ok(self.get_workspace_dir(config, workspace_id))
    }

    /// Finishes the deletion of a workspace: its row goes.
    pub fn finish_delete(&self, repository: &mut WorkspaceRepository, workspace_id: &str) -> (result: Result<
        (),
        Error,
    >)
        ensures
            !has_workspace(final(repository)@, workspace_id@),
            has_workspace(old(repository)@, workspace_id@) ==> result is Ok,
            !has_workspace(old(repository)@, workspace_id@) ==> (result matches Err(
                Error::WorkspaceNotFound(missing),
            ) && missing@ == workspace_id@ && final(repository)@ == old(repository)@),
    {
        repository.delete(workspace_id)
    }

    /// Get a workspace by ID.
    pub fn get(&self, repository: &WorkspaceRepository, id: &str) -> (result: Result<Workspace, Error>)
        ensures
            has_workspace(repository@, id@) ==> (result matches Ok(workspace) && workspace@
                == repository@[workspace_position(repository@, id@)] && workspace@.id == id@),
            !has_workspace(repository@, id@) ==> (result matches Err(
                Error::WorkspaceNotFound(missing),
            ) && missing@ == id@),
    {
        repository.get(id)
    }

    /// List all workspaces, newest first.
    pub fn list(&self, repository: &WorkspaceRepository) -> (result: Result<Vec<Workspace>, Error>)
        ensures
            result matches Ok(list) && crate::workspace_repository::newest_workspace_first(
                crate::workspace_repository::workspace_views(list@),
            ) && crate::workspace_repository::workspace_views(list@).to_multiset()
                == repository@.to_multiset(),
    {
        repository.list()
    }

    /// Get NFS URL for a workspace, if it is exported.
    pub fn get_nfs_url(&self, nfs: &NfsManager, workspace_id: &str) -> (url: Option<String>)
        ensures
            match url {
                Some(u) => nfs.exports().contains_key(workspace_id@) && u@ == nfs_url(
                    nfs.host_spec(),
                    nfs.port_spec(),
                    workspace_id@,
                ),
                None => !nfs.exports().contains_key(workspace_id@),
            },
    {
        nfs.get_nfs_url(workspace_id)
    }

    /// Validate and resolve a file path within a workspace.
    pub fn resolve_path(&self, config: &Config, workspace_id: &str, path: &str) -> (result: Result<
        String,
        Error,
    >)
        ensures
            match resolved(workspace_dir_of(*config, workspace_id@), path@) {
                Some(full) => result matches Ok(p) && p@ == full,
                None => result matches Err(Error::PathNotAllowed(refused)) && refused@ == path@,
            },
    {
        let dir = self.get_workspace_dir(config, workspace_id);
        resolve_path(dir.as_str(), path)
    }

    /// The check before a file is read: there must be something at the
    /// path, and it must not be a directory.
    pub fn read_file(&self, kind: PathKind, path: &str) -> (result: Result<(), Error>)
        ensures
            match kind {
                PathKind::Missing => result matches Err(Error::FileNotFound(p)) && p@ == path@,
                PathKind::Directory => result matches Err(Error::NotADirectory(p)) && p@ == path@,
                PathKind::File => result is Ok,
            },
    {
        match kind {
            PathKind::Missing => Err(Error::FileNotFound(path.to_owned())),
            PathKind::Directory => Err(Error::NotADirectory(path.to_owned())),
            PathKind::File => Ok(()),
        }
    }

    /// The check before a directory is listed: there must be a directory at
    /// the path.
    pub fn list_files(&self, kind: PathKind, path: &str) -> (result: Result<(), Error>)
        ensures
            match kind {
                PathKind::Missing => result matches Err(Error::FileNotFound(p)) && p@ == path@,
                PathKind::File => result matches Err(Error::NotADirectory(p)) && p@ == path@,
                PathKind::Directory => result is Ok,
            },
    {
        match kind {
            PathKind::Missing => Err(Error::FileNotFound(path.to_owned())),
            PathKind::File => Err(Error::NotADirectory(path.to_owned())),
            PathKind::Directory => Ok(()),
        }
    }

    /// The check before something is deleted, moved, copied or described:
    /// there must be something at the path.
    pub fn check_exists(&self, kind: PathKind, path: &str) -> (result: Result<(), Error>)
        ensures
            match kind {
                PathKind::Missing => result matches Err(Error::FileNotFound(p)) && p@ == path@,
                _ => result is Ok,
            },
    {
        match kind {
            PathKind::Missing => Err(Error::FileNotFound(path.to_owned())),
            _ => Ok(()),
        }
    }

    /// The error for a directory that could not be removed.
    pub fn delete_file(&self, failure: RemoveDirFailure, path: &str) -> (error: Error)
        ensures
            match failure {
                RemoveDirFailure::NotEmpty => error matches Error::DirectoryNotEmpty(p) && p@
                    == path@,
                RemoveDirFailure::Other(cause) => error matches Error::Internal(m) && m@
                    == "Failed to remove directory: "@ + cause@,
            },
    {
        match failure {
            RemoveDirFailure::NotEmpty => Error::DirectoryNotEmpty(path.to_owned()),
            RemoveDirFailure::Other(cause) => Error::Internal(
                concat2("Failed to remove directory: ", cause.as_str()),
            ),
        }
    }

    /// What is known of a file.
    pub fn get_file_info(&self, name: String, path: String, is_dir: bool, size: u64, modified_at: Option<i64>) -> (info:
        FileInfo)
        ensures
            info.name == name,
            info.path == path,
            info.file_type@ == (if is_dir {
                "directory"@
            } else {
                "file"@
            }),
            info.size == size,
            info.modified_at == modified_at,
    {
        FileInfo {
            name,
            path,
            file_type: crate::api::http::filesystem::file_type_name(is_dir),
            size,
            modified_at,
        }
    }
}

} // verus!
