//! The workspace store: the rows of all workspaces, held in memory in the
//! order in which they were created.

use vstd::prelude::*;
use vstd::seq_lib::*;
use crate::error::Error;
use crate::ids::{is_uuid_text, new_id};
use crate::sandbox::{opt_pairs, opt_text, SandboxView};
use crate::store::SandboxRepository;
use crate::string_map::StringMap;
use crate::strings::str_eq;
use crate::workspace::{CreateWorkspaceParams, Workspace, WorkspaceView};

verus! {

/// The views of a list of workspaces.
pub open spec fn workspace_views(rows: Seq<Workspace>) -> Seq<WorkspaceView> {
    rows.map_values(|w: Workspace| w@)
}

/// Whether some row has the id.
pub open spec fn has_workspace(rows: Seq<WorkspaceView>, id: Seq<char>) -> bool {
    exists|i: int| 0 <= i < rows.len() && (#[trigger] rows[i]).id == id
}

/// Whether no row stands under an id of the shape that fresh ids have. In
/// such a repository no fresh id is taken.
pub open spec fn no_uuid_workspaces(rows: Seq<WorkspaceView>) -> bool {
    forall|i: int| 0 <= i < rows.len() ==> !is_uuid_text((#[trigger] rows[i]).id)
}

/// The position of the row with the id.
pub open spec fn workspace_position(rows: Seq<WorkspaceView>, id: Seq<char>) -> int {
    choose|i: int| 0 <= i < rows.len() && (#[trigger] rows[i]).id == id
}

/// No two rows have the same id.
pub open spec fn workspace_ids_unique(rows: Seq<WorkspaceView>) -> bool {
    forall|i: int, j: int|
        0 <= i < rows.len() && 0 <= j < rows.len() && (#[trigger] rows[i]).id == (
        #[trigger] rows[j]).id ==> i == j
}

/// The row that a store makes of the parameters of a creation.
pub open spec fn new_workspace(params: CreateWorkspaceParams, id: Seq<char>, now: i64) -> WorkspaceView {
    WorkspaceView {
        id,
        name: opt_text(params.name),
        nfs_url: None,
        metadata: opt_pairs(params.metadata),
        created_at: now,
        updated_at: now,
    }
}

/// Newest first: no row is older than a row after it.
pub open spec fn newest_workspace_first(rows: Seq<WorkspaceView>) -> bool {
    forall|i: int, j: int|
        0 <= i < j < rows.len() ==> (#[trigger] rows[i]).created_at >= (
        #[trigger] rows[j]).created_at
}

/// Workspace repository: the rows of all workspaces.
#[derive(Debug)]
pub struct WorkspaceRepository {
    rows: Vec<Workspace>,
}

impl View for WorkspaceRepository {
    type V = Seq<WorkspaceView>;

    closed spec fn view(&self) -> Seq<WorkspaceView> {
        workspace_views(self.rows@)
    }
}

impl WorkspaceRepository {
    /// Ids are unique.
    #[verifier::type_invariant]
    pub closed spec fn wf(&self) -> bool {
        workspace_ids_unique(workspace_views(self.rows@))
    }

    /// Create a new, empty repository.
    pub fn new() -> (repo: Self)
        ensures
            repo@ == Seq::<WorkspaceView>::empty(),
    {
        let repo = WorkspaceRepository { rows: Vec::new() };
        assert(repo@ =~= Seq::<WorkspaceView>::empty());
        repo
    }

    fn take_rows(&mut self) -> (rows: Vec<Workspace>)
        ensures
            rows == old(self).rows,
            final(self).rows@.len() == 0,
    {
        let mut taken = WorkspaceRepository { rows: Vec::new() };
        core::mem::swap(self, &mut taken);
        taken.rows
    }

    fn find(&self, id: &str) -> (found: Option<usize>)
        ensures
            self.wf(),
            match found {
                Some(i) => i < self@.len() && self@[i as int].id == id@ && has_workspace(self@, id@)
                    && workspace_position(self@, id@) == i,
                None => !has_workspace(self@, id@),
            },
    {
        proof {
            use_type_invariant(self);
        }
        let mut i: usize = 0;
        while i < self.rows.len()
            invariant
                i <= self.rows.len(),
                self.wf(),
                forall|j: int| 0 <= j < i ==> (#[trigger] self@[j]).id != id@,
            decreases self.rows.len() - i,
        {
            if str_eq(self.rows[i].id.as_str(), id) {
                assert(self@[i as int].id == id@);
                assert(has_workspace(self@, id@));
                assert(self@[workspace_position(self@, id@)].id == self@[i as int].id);
                return Some(i);
            }
            i += 1;
        }
        None
    }

    /// The number of rows.
    pub fn len(&self) -> (count: usize)
        ensures
            count == self@.len(),
    {
        self.rows.len()
    }

    /// Create a new workspace under a fresh id. The creation fails only
    /// where the fresh id is taken, which it cannot be in a repository that
    /// holds no id of its shape, an empty repository among them.
    pub fn create(&mut self, params: CreateWorkspaceParams, now: i64) -> (result: Result<Workspace, Error>)
        ensures
            no_uuid_workspaces(old(self)@) ==> result is Ok,
            result matches Ok(workspace) ==> is_uuid_text(workspace@.id),
            match result {
                Ok(workspace) => !has_workspace(old(self)@, workspace@.id) && workspace@
                    == new_workspace(params, workspace@.id, now) && final(self)@ == old(self)@.push(
                    workspace@,
                ),
                Err(e) => e is Internal && final(self)@ == old(self)@,
            },
    {
        self.create_with_id(params, new_id(), now)
    }

    /// Create a new workspace under the given id. An id that is taken is
    /// refused.
    pub fn create_with_id(&mut self, params: CreateWorkspaceParams, id: String, now: i64) -> (result:
        Result<Workspace, Error>)
        ensures
            has_workspace(old(self)@, id@) ==> (result matches Err(Error::Internal(m)) && m@
                == "Workspace already exists"@ && final(self)@ == old(self)@),
            !has_workspace(old(self)@, id@) ==> (result matches Ok(workspace) && workspace@
                == new_workspace(params, id@, now) && final(self)@ == old(self)@.push(workspace@)),
    {
        proof {
            use_type_invariant(&*self);
        }
        if self.find(id.as_str()).is_some() {
            return Err(Error::Internal("Workspace already exists".to_owned()));
        }
        let metadata = match params.metadata {
            Some(metadata) => metadata,
            None => StringMap::new(),
        };
        let workspace = Workspace {
            id,
            name: params.name,
            nfs_url: None,
            metadata,
            created_at: now,
            updated_at: now,
        };
        let copy = workspace.clone();
        let ghost before = self@;
        let mut rows = self.take_rows();
        rows.push(workspace);
        proof {
            let after = workspace_views(rows@);
            assert(after =~= before.push(copy@));
            assert forall|i: int, j: int|
                0 <= i < after.len() && 0 <= j < after.len() && (#[trigger] after[i]).id == (
                #[trigger] after[j]).id implies i == j by {
                if i < before.len() {
                    assert(before[i].id == after[i].id);
                }
                if j < before.len() {
                    assert(before[j].id == after[j].id);
                }
            }
        }
        self.rows = rows;
        Ok(copy)
    }

    /// Puts back a workspace as it is: a row that was read from where the
    /// rows are kept. An id that is taken is refused.
    pub fn restore(&mut self, workspace: Workspace) -> (result: Result<(), Error>)
        ensures
            has_workspace(old(self)@, workspace@.id) ==> (result matches Err(Error::Internal(m))
                && m@ == "Workspace already exists"@ && final(self)@ == old(self)@),
            !has_workspace(old(self)@, workspace@.id) ==> (result is Ok && final(self)@ == old(self)@.push(workspace@)),
    {
        proof {
            use_type_invariant(&*self);
        }
        if self.find(workspace.id.as_str()).is_some() {
            return Err(Error::Internal("Workspace already exists".to_owned()));
        }
        let ghost before = self@;
        let ghost row = workspace@;
        let mut rows = self.take_rows();
        rows.push(workspace);
        proof {
            let after = workspace_views(rows@);
            assert(after =~= before.push(row));
            assert forall|i: int, j: int|
                0 <= i < after.len() && 0 <= j < after.len() && (#[trigger] after[i]).id == (
                #[trigger] after[j]).id implies i == j by {
                if i < before.len() {
                    assert(before[i].id == after[i].id);
                }
                if j < before.len() {
                    assert(before[j].id == after[j].id);
                }
            }
        }
        self.rows = rows;
        Ok(())
    }

    /// Get a workspace by ID.
    pub fn get(&self, id: &str) -> (result: Result<Workspace, Error>)
        ensures
            has_workspace(self@, id@) ==> (result matches Ok(workspace) && workspace@
                == self@[workspace_position(self@, id@)] && workspace@.id == id@),
            !has_workspace(self@, id@) ==> (result matches Err(Error::WorkspaceNotFound(missing))
                && missing@ == id@),
    {
        match self.find(id) {
            Some(i) => Ok(self.rows[i].clone()),
            None => Err(Error::WorkspaceNotFound(id.to_owned())),
        }
    }

    /// List all workspaces, newest first.
    pub fn list(&self) -> (result: Result<Vec<Workspace>, Error>)
        ensures
            result matches Ok(list) && newest_workspace_first(workspace_views(list@))
                && workspace_views(list@).to_multiset() == self@.to_multiset(),
    {
        let mut list: Vec<Workspace> = Vec::new();
        let mut j: usize = 0;
        proof {
            assert(self@.subrange(0, 0) =~= Seq::<WorkspaceView>::empty());
            assert(workspace_views(list@) =~= Seq::<WorkspaceView>::empty());
        }
        while j < self.rows.len()
            invariant
                j <= self.rows.len(),
                newest_workspace_first(workspace_views(list@)),
                workspace_views(list@).to_multiset() == self@.subrange(0, j as int).to_multiset(),
            decreases self.rows.len() - j,
        {
            let row = &self.rows[j];
            let created_at = row.created_at;
            let mut p: usize = 0;
            while p < list.len() && list[p].created_at >= created_at
                invariant
                    p <= list.len(),
                    forall|k: int|
                        0 <= k < p ==> (#[trigger] workspace_views(list@)[k]).created_at
                            >= created_at,
                decreases list.len() - p,
            {
                p += 1;
            }
            let ghost before = workspace_views(list@);
            list.insert(p, row.clone());
            proof {
                let after = workspace_views(list@);
                assert(after =~= before.insert(p as int, self@[j as int]));
                assert(self@.subrange(0, j + 1) =~= self@.subrange(0, j as int).push(self@[j as int]));
                to_multiset_insert(before, p as int, self@[j as int]);
                to_multiset_build(self@.subrange(0, j as int), self@[j as int]);
                assert forall|a: int, b: int| 0 <= a < b < after.len() implies (
                #[trigger] after[a]).created_at >= (#[trigger] after[b]).created_at by {
                    if a < p && b < p {
                        assert(after[a] == before[a] && after[b] == before[b]);
                    } else if a < p && b == p {
                        assert(after[a] == before[a]);
                    } else if a < p && b > p {
                        assert(after[a] == before[a] && after[b] == before[b - 1]);
                    } else if a == p {
                        assert(after[b] == before[b - 1]);
                        assert(before[p as int].created_at < created_at);
                        assert(before[p as int].created_at >= before[b - 1].created_at || p == b
                            - 1);
                    } else {
                        assert(after[a] == before[a - 1] && after[b] == before[b - 1]);
                    }
                }
            }
            j += 1;
        }
        proof {
            assert(self@.subrange(0, self@.len() as int) =~= self@);
        }
        Ok(list)
    }

    /// Update workspace NFS URL.
    pub fn update_nfs_url(&mut self, id: &str, nfs_url: &str, now: i64) -> (result: Result<(), Error>)
        ensures
            !has_workspace(old(self)@, id@) ==> (result matches Err(
                Error::WorkspaceNotFound(missing),
            ) && missing@ == id@ && final(self)@ == old(self)@),
            has_workspace(old(self)@, id@) ==> (result is Ok && final(self)@ == old(self)@.update(
                workspace_position(old(self)@, id@),
                WorkspaceView {
                    nfs_url: Some(nfs_url@),
                    updated_at: now,
                    ..old(self)@[workspace_position(old(self)@, id@)]
                },
            )),
            has_workspace(old(self)@, id@) ==> has_workspace(final(self)@, id@)
                && workspace_position(final(self)@, id@) == workspace_position(old(self)@, id@),
    {
        let i = match self.find(id) {
            Some(i) => i,
            None => {
                return Err(Error::WorkspaceNotFound(id.to_owned()));
            },
        };
        let ghost before = self@;
        let mut rows = self.take_rows();
        let mut row = rows.remove(i);
        row.set_nfs_url(nfs_url.to_owned(), now);
        let ghost changed = row@;
        rows.insert(i, row);
        proof {
            let after = workspace_views(rows@);
            assert(after =~= before.update(i as int, changed));
            assert forall|a: int, b: int|
                0 <= a < after.len() && 0 <= b < after.len() && (#[trigger] after[a]).id == (
                #[trigger] after[b]).id implies a == b by {
                assert(after[a].id == before[a].id);
                assert(after[b].id == before[b].id);
            }
            assert(after[i as int].id == id@);
            assert(has_workspace(after, id@));
            assert(after[workspace_position(after, id@)].id == after[i as int].id);
        }
        self.rows = rows;
        Ok(())
    }

    /// Check if a workspace has any sandboxes.
    pub fn has_sandboxes(&self, sandboxes: &SandboxRepository, workspace_id: &str) -> (result: Result<
        bool,
        Error,
    >)
        ensures
            result matches Ok(any) && any == (sandboxes@.filter(
                |row: SandboxView| row.workspace_id == workspace_id@,
            ).len() > 0),
    {
        Ok(sandboxes.count_for_workspace(workspace_id) > 0)
    }

    /// Count sandboxes for a workspace.
    pub fn count_sandboxes(&self, sandboxes: &SandboxRepository, workspace_id: &str) -> (result: Result<
        usize,
        Error,
    >)
        ensures
            result matches Ok(count) && count == sandboxes@.filter(
                |row: SandboxView| row.workspace_id == workspace_id@,
            ).len(),
    {
        Ok(sandboxes.count_for_workspace(workspace_id))
    }

    /// Delete a workspace.
    pub fn delete(&mut self, id: &str) -> (result: Result<(), Error>)
        ensures
            !has_workspace(final(self)@, id@),
            !has_workspace(old(self)@, id@) ==> (result matches Err(
                Error::WorkspaceNotFound(missing),
            ) && missing@ == id@ && final(self)@ == old(self)@),
            has_workspace(old(self)@, id@) ==> (result is Ok && final(self)@ == old(self)@.remove(
                workspace_position(old(self)@, id@),
            )),
    {
        let i = match self.find(id) {
            Some(i) => i,
            None => {
                return Err(Error::WorkspaceNotFound(id.to_owned()));
            },
        };
        let ghost before = self@;
        let mut rows = self.take_rows();
        let _ = rows.remove(i);
        proof {
            let after = workspace_views(rows@);
            assert(after =~= before.remove(i as int));
            assert forall|a: int| 0 <= a < after.len() implies #[trigger] after[a] == before[if a
                < i {
                a
            } else {
                a + 1
            }] by {}
            assert forall|a: int, b: int|
                0 <= a < after.len() && 0 <= b < after.len() && (#[trigger] after[a]).id == (
                #[trigger] after[b]).id implies a == b by {
                let a2 = if a < i { a } else { a + 1 };
                let b2 = if b < i { b } else { b + 1 };
                assert(before[a2].id == before[b2].id);
            }
            if has_workspace(after, id@) {
                let k = workspace_position(after, id@);
                let k2 = if k < i { k } else { k + 1 };
                assert(before[k2].id == before[i as int].id);
            }
        }
        self.rows = rows;
        Ok(())
    }
}

} // verus!
