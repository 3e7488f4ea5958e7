//! The sandbox store: the rows of all sandboxes, with the rules that every
//! store of sandboxes keeps. Rows are held in memory, in the order in which
//! they were created.

use vstd::prelude::*;
use vstd::seq_lib::*;
use crate::error::Error;
use crate::ids::{is_uuid_text, new_id};
use crate::sandbox::{
    opt_pairs, opt_text, CreateSandboxParams, Sandbox, SandboxState, SandboxView,
};
use crate::string_map::StringMap;
use crate::strings::str_eq;

verus! {

/// The template of a sandbox whose creator names none.
pub open spec fn default_template() -> Seq<char> {
    "default"@
}

/// The views of a list of sandboxes.
pub open spec fn row_views(rows: Seq<Sandbox>) -> Seq<SandboxView> {
    rows.map_values(|s: Sandbox| s@)
}

/// Whether some row has the id.
pub open spec fn has_id(rows: Seq<SandboxView>, id: Seq<char>) -> bool {
    exists|i: int| 0 <= i < rows.len() && (#[trigger] rows[i]).id == id
}

/// Whether no row stands under an id of the shape that fresh ids have. In
/// such a store no fresh id is taken.
pub open spec fn no_uuid_ids(rows: Seq<SandboxView>) -> bool {
    forall|i: int| 0 <= i < rows.len() ==> !is_uuid_text((#[trigger] rows[i]).id)
}

/// The position of the row with the id.
pub open spec fn position(rows: Seq<SandboxView>, id: Seq<char>) -> int {
    choose|i: int| 0 <= i < rows.len() && (#[trigger] rows[i]).id == id
}

/// No two rows have the same id.
pub open spec fn ids_unique(rows: Seq<SandboxView>) -> bool {
    forall|i: int, j: int|
        0 <= i < rows.len() && 0 <= j < rows.len() && (#[trigger] rows[i]).id == (
        #[trigger] rows[j]).id ==> i == j
}

/// The two lists of rows hold the same ids at the same positions.
pub open spec fn same_ids(before: Seq<SandboxView>, after: Seq<SandboxView>) -> bool {
    &&& forall|id: Seq<char>| #[trigger] has_id(after, id) == has_id(before, id)
    &&& forall|id: Seq<char>|
        has_id(before, id) ==> #[trigger] position(after, id) == position(before, id)
}

/// The row that a store makes of the parameters of a creation.
pub open spec fn new_row(params: CreateSandboxParams, id: Seq<char>, now: i64) -> SandboxView {
    SandboxView {
        id,
        workspace_id: params.workspace_id@,
        name: opt_text(params.name),
        template: match params.template {
            Some(t) => t@,
            None => default_template(),
        },
        state: SandboxState::Starting,
        container_id: None,
        env: opt_pairs(params.env),
        metadata: opt_pairs(params.metadata),
        nfs_url: None,
        created_at: now,
        updated_at: now,
        timeout: match params.timeout {
            Some(t) => t,
            None => 0,
        },
        error_message: None,
    }
}

/// A row is expired when it is running, has a timeout, and was created more
/// than its timeout before `now`. Times are in milliseconds, timeouts in
/// seconds.
pub open spec fn is_expired(row: SandboxView, now: i64) -> bool {
    row.state == SandboxState::Running && row.timeout > 0 && row.created_at + row.timeout * 1000
        < now
}

/// Whether a row passes the filter of a listing.
pub open spec fn passes(filter: Option<SandboxState>, row: SandboxView) -> bool {
    match filter {
        Some(state) => row.state == state,
        None => true,
    }
}

/// Newest first: no row is older than a row after it.
pub open spec fn newest_first(rows: Seq<SandboxView>) -> bool {
    forall|i: int, j: int|
        0 <= i < j < rows.len() ==> (#[trigger] rows[i]).created_at >= (
        #[trigger] rows[j]).created_at
}

/// The states from which a state can be entered, in words.
pub open spec fn sources_of(target: SandboxState) -> Seq<char> {
    match target {
        SandboxState::Starting => "none"@,
        SandboxState::Running => "starting"@,
        SandboxState::Stopping => "running"@,
        SandboxState::Stopped => "stopping"@,
        SandboxState::Error => "starting, running or stopping"@,
    }
}

/// A row after a change of state at the given time.
pub open spec fn with_state(
    row: SandboxView,
    state: SandboxState,
    error_message: Option<Seq<char>>,
    now: i64,
) -> SandboxView {
    SandboxView { state, error_message, updated_at: now, ..row }
}

/// One change of the rows of a store.
pub enum StoreOp {
    Create { row: SandboxView },
    UpdateState { id: Seq<char>, state: SandboxState, error_message: Option<Seq<char>>, now: i64 },
    UpdateContainerId { id: Seq<char>, container_id: Seq<char>, now: i64 },
    UpdateNfsUrl { id: Seq<char>, nfs_url: Seq<char>, now: i64 },
    Delete { id: Seq<char> },
}

/// The rows after a change. A change that the store refuses leaves the rows
/// as they are: a creation under a taken id, any change of a sandbox that is
/// not there, and a change of state that is out of order.
pub open spec fn apply_op(rows: Seq<SandboxView>, op: StoreOp) -> Seq<SandboxView> {
    match op {
        StoreOp::Create { row } => if has_id(rows, row.id) {
            rows
        } else {
            rows.push(row)
        },
        StoreOp::UpdateState { id, state, error_message, now } => if has_id(rows, id)
            && rows[position(rows, id)].state.allows(state) {
            rows.update(
                position(rows, id),
                with_state(rows[position(rows, id)], state, error_message, now),
            )
        } else {
            rows
        },
        StoreOp::UpdateContainerId { id, container_id, now } => if has_id(rows, id) {
            rows.update(
                position(rows, id),
                SandboxView {
                    container_id: Some(container_id),
                    updated_at: now,
                    ..rows[position(rows, id)]
                },
            )
        } else {
            rows
        },
        StoreOp::UpdateNfsUrl { id, nfs_url, now } => if has_id(rows, id) {
            rows.update(
                position(rows, id),
                SandboxView { nfs_url: Some(nfs_url), updated_at: now, ..rows[position(rows, id)] },
            )
        } else {
            rows
        },
        StoreOp::Delete { id } => if has_id(rows, id) {
            rows.remove(position(rows, id))
        } else {
            rows
        },
    }
}

/// The state of the sandbox with the id.
pub open spec fn state_of(rows: Seq<SandboxView>, id: Seq<char>) -> SandboxState {
    rows[position(rows, id)].state
}

/// The text of an optional string slice.
pub open spec fn opt_str(value: Option<&str>) -> Option<Seq<char>> {
    match value {
        Some(m) => Some(m@),
        None => None,
    }
}

/// Sandbox repository: the rows of all sandboxes.
#[derive(Debug)]
pub struct SandboxRepository {
    rows: Vec<Sandbox>,
}

impl View for SandboxRepository {
    type V = Seq<SandboxView>;

    closed spec fn view(&self) -> Seq<SandboxView> {
        row_views(self.rows@)
    }
}

impl SandboxRepository {
    /// Ids are unique.
    #[verifier::type_invariant]
    pub closed spec fn wf(&self) -> bool {
        ids_unique(row_views(self.rows@))
    }

    /// In a well-formed repository no two rows have the same id.
    pub proof fn lemma_ids_unique(&self)
        requires
            self.wf(),
        ensures
            ids_unique(self@),
    {
    }

    /// Create a new, empty repository.
    pub fn new() -> (repo: Self)
        ensures
            repo@ == Seq::<SandboxView>::empty(),
            repo.wf(),
    {
        let repo = SandboxRepository { rows: Vec::new() };
        assert(repo@ =~= Seq::<SandboxView>::empty());
        repo
    }

    /// Moves the rows out, leaving the repository empty.
    fn take_rows(&mut self) -> (rows: Vec<Sandbox>)
        ensures
            rows == old(self).rows,
            final(self).rows@.len() == 0,
    {
        let mut taken = SandboxRepository { rows: Vec::new() };
        core::mem::swap(self, &mut taken);
        taken.rows
    }

    /// The position of the row with the id, if there is one.
    fn find(&self, id: &str) -> (found: Option<usize>)
        ensures
            self.wf(),
            match found {
                Some(i) => i < self@.len() && self@[i as int].id == id@ && position(self@, id@)
                    == i,
                None => !has_id(self@, id@),
            },
    {
        proof {
            use_type_invariant(self);
        }
        let mut i: usize = 0;
        while i < self.rows.len()
            invariant
                i <= self.rows.len(),
                self.wf(),
                forall|j: int| 0 <= j < i ==> (#[trigger] self@[j]).id != id@,
            decreases self.rows.len() - i,
        {
            if str_eq(self.rows[i].id.as_str(), id) {
                assert(self@[i as int].id == id@);
                assert(has_id(self@, id@));
                assert(self@[position(self@, id@)].id == self@[i as int].id);
                return Some(i);
            }
            i += 1;
        }
        None
    }

    /// The number of rows.
    pub fn len(&self) -> (count: usize)
        ensures
            count == self@.len(),
            self.wf(),
    {
        proof {
            use_type_invariant(self);
        }
        self.rows.len()
    }

    /// Create a new sandbox under a fresh id, in state `Starting`. The
    /// creation fails only where the fresh id is taken, which it cannot be
    /// in a store that holds no id of its shape, an empty store among them.
    pub fn create(&mut self, params: CreateSandboxParams, now: i64) -> (result: Result<Sandbox, Error>)
        ensures
            final(self).wf(),
            no_uuid_ids(old(self)@) ==> result is Ok,
            result matches Ok(sandbox) ==> is_uuid_text(sandbox@.id),
            match result {
                Ok(sandbox) => !has_id(old(self)@, sandbox@.id) && sandbox@ == new_row(
                    params,
                    sandbox@.id,
                    now,
                ) && final(self)@ == old(self)@.push(sandbox@),
                Err(e) => e is SandboxAlreadyExists && final(self)@ == old(self)@,
            },
    {
        self.create_with_id(params, new_id(), now)
    }

    /// Create a new sandbox under the given id, in state `Starting`. An id
    /// that is taken is refused.
    pub fn create_with_id(&mut self, params: CreateSandboxParams, id: String, now: i64) -> (result:
        Result<Sandbox, Error>)
        ensures
            final(self).wf(),
            final(self)@ == apply_op(old(self)@, StoreOp::Create { row: new_row(params, id@, now) }),
            has_id(old(self)@, id@) ==> (result matches Err(Error::SandboxAlreadyExists(taken))
                && taken@ == id@ && final(self)@ == old(self)@),
            !has_id(old(self)@, id@) ==> (result matches Ok(sandbox) && sandbox@ == new_row(
                params,
                id@,
                now,
            ) && final(self)@ == old(self)@.push(sandbox@)),
    {
        proof {
            use_type_invariant(&*self);
        }
        if self.find(id.as_str()).is_some() {
            return Err(Error::SandboxAlreadyExists(id));
        }
        let template = match params.template {
            Some(t) => t,
            None => "default".to_owned(),
        };
        let env = match params.env {
            Some(env) => env,
            None => StringMap::new(),
        };
        let metadata = match params.metadata {
            Some(metadata) => metadata,
            None => StringMap::new(),
        };
        let timeout = match params.timeout {
            Some(t) => t,
            None => 0,
        };
        let sandbox = Sandbox {
            id,
            workspace_id: params.workspace_id,
            name: params.name,
            template,
            state: SandboxState::Starting,
            container_id: None,
            env,
            metadata,
            nfs_url: None,
            created_at: now,
            updated_at: now,
            timeout,
            error_message: None,
        };
        let copy = sandbox.clone();
        let ghost before = self@;
        let mut rows = self.take_rows();
        rows.push(sandbox);
        proof {
            assert(row_views(rows@) =~= before.push(copy@));
            assert forall|i: int, j: int|
                0 <= i < row_views(rows@).len() && 0 <= j < row_views(rows@).len() && (
                #[trigger] row_views(rows@)[i]).id == (#[trigger] row_views(
                    rows@,
                )[j]).id implies i == j by {
                if i < before.len() {
                    assert(before[i].id == row_views(rows@)[i].id);
                }
                if j < before.len() {
                    assert(before[j].id == row_views(rows@)[j].id);
                }
            }
        }
        self.rows = rows;
        Ok(copy)
    }

    /// Puts back a sandbox as it is, in whatever state: a row that was read
    /// from where the rows are kept. An id that is taken is refused.
    pub fn restore(&mut self, sandbox: Sandbox) -> (result: Result<(), Error>)
        ensures
            final(self).wf(),
            final(self)@ == apply_op(old(self)@, StoreOp::Create { row: sandbox@ }),
            has_id(old(self)@, sandbox@.id) ==> (result matches Err(
                Error::SandboxAlreadyExists(taken),
            ) && taken@ == sandbox@.id),
            !has_id(old(self)@, sandbox@.id) ==> result is Ok,
    {
        proof {
            use_type_invariant(&*self);
        }
        if self.find(sandbox.id.as_str()).is_some() {
            return Err(Error::SandboxAlreadyExists(sandbox.id));
        }
        let ghost before = self@;
        let ghost row = sandbox@;
        let mut rows = self.take_rows();
        rows.push(sandbox);
        proof {
            assert(row_views(rows@) =~= before.push(row));
            lemma_apply_keeps_ids(before, StoreOp::Create { row });
        }
        self.rows = rows;
        Ok(())
    }

    /// Get a sandbox by ID.
    pub fn get(&self, id: &str) -> (result: Result<Sandbox, Error>)
        ensures
            has_id(self@, id@) ==> (result matches Ok(sandbox) && sandbox@ == self@[position(
                self@,
                id@,
            )] && sandbox@.id == id@),
            !has_id(self@, id@) ==> (result matches Err(Error::SandboxNotFound(missing))
                && missing@ == id@),
    {
        match self.find(id) {
            Some(i) => Ok(self.rows[i].clone()),
            None => Err(Error::SandboxNotFound(id.to_owned())),
        }
    }

    /// List all sandboxes with optional state filter, newest first.
    pub fn list(&self, state_filter: Option<SandboxState>) -> (result: Result<Vec<Sandbox>, Error>)
        ensures
            result matches Ok(list) && newest_first(row_views(list@)) && row_views(
                list@,
            ).to_multiset() == self@.filter(
                |row: SandboxView| passes(state_filter, row),
            ).to_multiset(),
    {
        let ghost pred = |row: SandboxView| passes(state_filter, row);
        let mut list: Vec<Sandbox> = Vec::new();
        let mut j: usize = 0;
        proof {
            assert(self@.subrange(0, 0) =~= Seq::<SandboxView>::empty());
            assert(row_views(list@) =~= Seq::<SandboxView>::empty());
            assert(Seq::<SandboxView>::empty().filter(pred) =~= Seq::<SandboxView>::empty()) by {
                reveal(Seq::filter);
            }
        }
        while j < self.rows.len()
            invariant
                j <= self.rows.len(),
                pred == |row: SandboxView| passes(state_filter, row),
                newest_first(row_views(list@)),
                row_views(list@).to_multiset() == self@.subrange(0, j as int).filter(
                    pred,
                ).to_multiset(),
            decreases self.rows.len() - j,
        {
            let row = &self.rows[j];
            let wanted = match state_filter {
                Some(state) => row.state == state,
                None => true,
            };
            proof {
                assert(self@.subrange(0, j + 1) =~= self@.subrange(0, j as int).push(self@[j as int]));
                self@.subrange(0, j as int).lemma_filter_push(self@[j as int], pred);
                assert(pred(self@[j as int]) == wanted);
            }
            if wanted {
                let created_at = row.created_at;
                let mut p: usize = 0;
                while p < list.len() && list[p].created_at >= created_at
                    invariant
                        p <= list.len(),
                        forall|k: int|
                            0 <= k < p ==> (#[trigger] row_views(list@)[k]).created_at
                                >= created_at,
                    decreases list.len() - p,
                {
                    p += 1;
                }
                let ghost before = row_views(list@);
                let copy = row.clone();
                list.insert(p, copy);
                proof {
                    assert(row_views(list@) =~= before.insert(p as int, self@[j as int]));
                    to_multiset_insert(before, p as int, self@[j as int]);
                    to_multiset_build(self@.subrange(0, j as int).filter(pred), self@[j as int]);
                    assert forall|a: int, b: int| 0 <= a < b < row_views(list@).len() implies (
                    #[trigger] row_views(list@)[a]).created_at >= (#[trigger] row_views(
                        list@,
                    )[b]).created_at by {
                        let after = row_views(list@);
                        if a < p && b < p {
                            assert(after[a] == before[a] && after[b] == before[b]);
                        } else if a < p && b == p {
                            assert(after[a] == before[a]);
                        } else if a < p && b > p {
                            assert(after[a] == before[a] && after[b] == before[b - 1]);
                        } else if a == p {
                            assert(after[b] == before[b - 1]);
                            assert(before[p as int].created_at < created_at);
                            assert(before[p as int].created_at >= before[b - 1].created_at || p == b
                                - 1);
                        } else {
                            assert(after[a] == before[a - 1] && after[b] == before[b - 1]);
                        }
                    }
                }
            }
            j += 1;
        }
        proof {
            assert(self@.subrange(0, self@.len() as int) =~= self@);
        }
        Ok(list)
    }

    /// Update sandbox state at the given time. Only the allowed transitions
    /// are taken: an update out of order is refused, with the state that the
    /// sandbox is in.
    pub fn update_state(
        &mut self,
        id: &str,
        state: SandboxState,
        error_message: Option<&str>,
        now: i64,
    ) -> (result: Result<(), Error>)
        ensures
            final(self).wf(),
            same_ids(old(self)@, final(self)@),
            final(self)@ == apply_op(
                old(self)@,
                StoreOp::UpdateState { id: id@, state, error_message: opt_str(error_message), now },
            ),
            !has_id(old(self)@, id@) ==> (result matches Err(Error::SandboxNotFound(missing))
                && missing@ == id@ && final(self)@ == old(self)@),
            has_id(old(self)@, id@) && !old(self)@[position(old(self)@, id@)].state.allows(state)
                ==> (result matches Err(Error::InvalidSandboxState { expected, actual })
                && expected@ == sources_of(state) && actual@ == old(self)@[position(
                old(self)@,
                id@,
            )].state.name() && final(self)@ == old(self)@),
            has_id(old(self)@, id@) && old(self)@[position(old(self)@, id@)].state.allows(state)
                ==> (result is Ok && final(self)@ == old(self)@.update(
                position(old(self)@, id@),
                with_state(
                    old(self)@[position(old(self)@, id@)],
                    state,
                    opt_str(error_message),
                    now,
                ),
            )),
    {
        let i = match self.find(id) {
            Some(i) => i,
            None => {
                return Err(Error::SandboxNotFound(id.to_owned()));
            },
        };
        let current = self.rows[i].state;
        if !current.can_transition_to(state) {
            let expected = match state {
                SandboxState::Starting => "none",
                SandboxState::Running => "starting",
                SandboxState::Stopping => "running",
                SandboxState::Stopped => "stopping",
                SandboxState::Error => "starting, running or stopping",
            };
            return Err(
                Error::InvalidSandboxState {
                    expected: expected.to_owned(),
                    actual: current.as_str().to_owned(),
                },
            );
        }
        let ghost before = self@;
        let mut rows = self.take_rows();
        let mut row = rows.remove(i);
        row.state = state;
        row.error_message = match error_message {
            Some(m) => Some(m.to_owned()),
            None => None,
        };
        row.updated_at = now;
        let ghost changed = row@;
        rows.insert(i, row);
        proof {
            assert(row_views(rows@) =~= before.update(i as int, changed));
            lemma_update_keeps_ids(before, i as int, changed);
        }
        self.rows = rows;
        Ok(())
    }

    /// Update sandbox container ID.
    pub fn update_container_id(&mut self, id: &str, container_id: &str, now: i64) -> (result: Result<
        (),
        Error,
    >)
        ensures
            final(self).wf(),
            same_ids(old(self)@, final(self)@),
            final(self)@ == apply_op(
                old(self)@,
                StoreOp::UpdateContainerId { id: id@, container_id: container_id@, now },
            ),
            !has_id(old(self)@, id@) ==> (result matches Err(Error::SandboxNotFound(missing))
                && missing@ == id@ && final(self)@ == old(self)@),
            has_id(old(self)@, id@) ==> (result is Ok && final(self)@ == old(self)@.update(
                position(old(self)@, id@),
                SandboxView {
                    container_id: Some(container_id@),
                    updated_at: now,
                    ..old(self)@[position(old(self)@, id@)]
                },
            )),
    {
        let i = match self.find(id) {
            Some(i) => i,
            None => {
                return Err(Error::SandboxNotFound(id.to_owned()));
            },
        };
        let ghost before = self@;
        let mut rows = self.take_rows();
        let mut row = rows.remove(i);
        row.container_id = Some(container_id.to_owned());
        row.updated_at = now;
        let ghost changed = row@;
        rows.insert(i, row);
        proof {
            assert(row_views(rows@) =~= before.update(i as int, changed));
            lemma_update_keeps_ids(before, i as int, changed);
        }
        self.rows = rows;
        Ok(())
    }

    /// Update sandbox NFS URL.
    pub fn update_nfs_url(&mut self, id: &str, nfs_url: &str, now: i64) -> (result: Result<(), Error>)
        ensures
            final(self).wf(),
            same_ids(old(self)@, final(self)@),
            final(self)@ == apply_op(
                old(self)@,
                StoreOp::UpdateNfsUrl { id: id@, nfs_url: nfs_url@, now },
            ),
            !has_id(old(self)@, id@) ==> (result matches Err(Error::SandboxNotFound(missing))
                && missing@ == id@ && final(self)@ == old(self)@),
            has_id(old(self)@, id@) ==> (result is Ok && final(self)@ == old(self)@.update(
                position(old(self)@, id@),
                SandboxView {
                    nfs_url: Some(nfs_url@),
                    updated_at: now,
                    ..old(self)@[position(old(self)@, id@)]
                },
            )),
    {
        let i = match self.find(id) {
            Some(i) => i,
            None => {
                return Err(Error::SandboxNotFound(id.to_owned()));
            },
        };
        let ghost before = self@;
        let mut rows = self.take_rows();
        let mut row = rows.remove(i);
        row.nfs_url = Some(nfs_url.to_owned());
        row.updated_at = now;
        let ghost changed = row@;
        rows.insert(i, row);
        proof {
            assert(row_views(rows@) =~= before.update(i as int, changed));
            lemma_update_keeps_ids(before, i as int, changed);
        }
        self.rows = rows;
        Ok(())
    }

    /// Delete a sandbox.
    pub fn delete(&mut self, id: &str) -> (result: Result<(), Error>)
        ensures
            final(self).wf(),
            final(self)@ == apply_op(old(self)@, StoreOp::Delete { id: id@ }),
            !has_id(final(self)@, id@),
            !has_id(old(self)@, id@) ==> (result matches Err(Error::SandboxNotFound(missing))
                && missing@ == id@ && final(self)@ == old(self)@),
            has_id(old(self)@, id@) ==> (result is Ok && final(self)@ == old(self)@.remove(
                position(old(self)@, id@),
            )),
    {
        let i = match self.find(id) {
            Some(i) => i,
            None => {
                return Err(Error::SandboxNotFound(id.to_owned()));
            },
        };
        let ghost before = self@;
        let mut rows = self.take_rows();
        let _ = rows.remove(i);
        proof {
            assert(row_views(rows@) =~= before.remove(i as int));
            lemma_remove_keeps_ids(before, i as int);
        }
        self.rows = rows;
        Ok(())
    }

    /// Count sandboxes by state.
    pub fn count_by_state(&self, state: SandboxState) -> (result: Result<usize, Error>)
        ensures
            result matches Ok(count) && count == self@.filter(
                |row: SandboxView| row.state == state,
            ).len(),
    {
        let ghost pred = |row: SandboxView| row.state == state;
        let mut count: usize = 0;
        let mut j: usize = 0;
        proof {
            assert(self@.subrange(0, 0) =~= Seq::<SandboxView>::empty());
            assert(Seq::<SandboxView>::empty().filter(pred) =~= Seq::<SandboxView>::empty()) by {
                reveal(Seq::filter);
            }
        }
        while j < self.rows.len()
            invariant
                j <= self.rows.len(),
                pred == |row: SandboxView| row.state == state,
                count == self@.subrange(0, j as int).filter(pred).len(),
                count <= j,
            decreases self.rows.len() - j,
        {
            proof {
                assert(self@.subrange(0, j + 1) =~= self@.subrange(0, j as int).push(self@[j as int]));
                self@.subrange(0, j as int).lemma_filter_push(self@[j as int], pred);
            }
            if self.rows[j].state == state {
                count += 1;
            }
            j += 1;
        }
        proof {
            assert(self@.subrange(0, self@.len() as int) =~= self@);
        }
        Ok(count)
    }

    /// Count the sandboxes that mount a workspace.
    pub fn count_for_workspace(&self, workspace_id: &str) -> (count: usize)
        ensures
            count == self@.filter(|row: SandboxView| row.workspace_id == workspace_id@).len(),
    {
        let ghost pred = |row: SandboxView| row.workspace_id == workspace_id@;
        let mut count: usize = 0;
        let mut j: usize = 0;
        proof {
            assert(self@.subrange(0, 0) =~= Seq::<SandboxView>::empty());
            assert(Seq::<SandboxView>::empty().filter(pred) =~= Seq::<SandboxView>::empty()) by {
                reveal(Seq::filter);
            }
        }
        while j < self.rows.len()
            invariant
                j <= self.rows.len(),
                pred == |row: SandboxView| row.workspace_id == workspace_id@,
                count == self@.subrange(0, j as int).filter(pred).len(),
                count <= j,
            decreases self.rows.len() - j,
        {
            proof {
                assert(self@.subrange(0, j + 1) =~= self@.subrange(0, j as int).push(self@[j as int]));
                self@.subrange(0, j as int).lemma_filter_push(self@[j as int], pred);
            }
            if str_eq(self.rows[j].workspace_id.as_str(), workspace_id) {
                count += 1;
            }
            j += 1;
        }
        proof {
            assert(self@.subrange(0, self@.len() as int) =~= self@);
        }
        count
    }

    /// Get sandboxes that have exceeded their timeout at the given time:
    /// exactly the rows that are running, have a timeout, and were created
    /// more than their timeout ago, in the order of their creation.
    pub fn get_expired_sandboxes(&self, now: i64) -> (result: Result<Vec<Sandbox>, Error>)
        ensures
            result matches Ok(expired) && row_views(expired@) == self@.filter(
                |row: SandboxView| is_expired(row, now),
            ),
    {
        let ghost pred = |row: SandboxView| is_expired(row, now);
        let mut expired: Vec<Sandbox> = Vec::new();
        let mut j: usize = 0;
        proof {
            assert(self@.subrange(0, 0) =~= Seq::<SandboxView>::empty());
            assert(row_views(expired@) =~= Seq::<SandboxView>::empty());
            assert(Seq::<SandboxView>::empty().filter(pred) =~= Seq::<SandboxView>::empty()) by {
                reveal(Seq::filter);
            }
        }
        while j < self.rows.len()
            invariant
                j <= self.rows.len(),
                pred == |row: SandboxView| is_expired(row, now),
                row_views(expired@) == self@.subrange(0, j as int).filter(pred),
            decreases self.rows.len() - j,
        {
            let row = &self.rows[j];
            proof {
                assert(self@.subrange(0, j + 1) =~= self@.subrange(0, j as int).push(self@[j as int]));
                self@.subrange(0, j as int).lemma_filter_push(self@[j as int], pred);
            }
            if sandbox_expired(row, now) {
                let ghost before = row_views(expired@);
                expired.push(row.clone());
                proof {
                    assert(row_views(expired@) =~= before.push(self@[j as int]));
                }
            }
            j += 1;
        }
        proof {
            assert(self@.subrange(0, self@.len() as int) =~= self@);
        }
        Ok(expired)
    }
}

/// Whether the sandbox is expired at the given time.
pub fn sandbox_expired(sandbox: &Sandbox, now: i64) -> (expired: bool)
    ensures
        expired == is_expired(sandbox@, now),
{
    if sandbox.state != SandboxState::Running || sandbox.timeout == 0 {
        return false;
    }
    let deadline: i128 = sandbox.created_at as i128 + (sandbox.timeout as i128) * 1000;
    deadline < now as i128
}

/// Changing a row without changing its id keeps the ids unique and the
/// positions of all rows.
pub proof fn lemma_update_keeps_ids(rows: Seq<SandboxView>, i: int, changed: SandboxView)
    requires
        ids_unique(rows),
        0 <= i < rows.len(),
        changed.id == rows[i].id,
    ensures
        ids_unique(rows.update(i, changed)),
        forall|id: Seq<char>| has_id(rows.update(i, changed), id) == has_id(rows, id),
        forall|id: Seq<char>|
            has_id(rows, id) ==> position(rows.update(i, changed), id) == position(rows, id),
{
    let after = rows.update(i, changed);
    assert forall|a: int, b: int|
        0 <= a < after.len() && 0 <= b < after.len() && (#[trigger] after[a]).id == (
        #[trigger] after[b]).id implies a == b by {
        assert(after[a].id == rows[a].id);
        assert(after[b].id == rows[b].id);
    }
    assert forall|id: Seq<char>| has_id(after, id) == has_id(rows, id) by {
        if has_id(after, id) {
            let k = position(after, id);
            assert(rows[k].id == id);
        }
        if has_id(rows, id) {
            let k = position(rows, id);
            assert(after[k].id == id);
        }
    }
    assert forall|id: Seq<char>| has_id(rows, id) implies position(after, id) == position(
        rows,
        id,
    ) by {
        let k = position(rows, id);
        assert(after[k].id == id);
        let k2 = position(after, id);
        assert(after[k2].id == after[k].id);
    }
}

/// Taking a row out keeps the ids unique, and then no row has its id.
pub proof fn lemma_remove_keeps_ids(rows: Seq<SandboxView>, i: int)
    requires
        ids_unique(rows),
        0 <= i < rows.len(),
    ensures
        ids_unique(rows.remove(i)),
        !has_id(rows.remove(i), rows[i].id),
        forall|id: Seq<char>| id != rows[i].id ==> has_id(rows.remove(i), id) == has_id(rows, id),
{
    let after = rows.remove(i);
    assert forall|a: int| 0 <= a < after.len() implies #[trigger] after[a] == rows[if a < i {
        a
    } else {
        a + 1
    }] by {}
    assert forall|a: int, b: int|
        0 <= a < after.len() && 0 <= b < after.len() && (#[trigger] after[a]).id == (
        #[trigger] after[b]).id implies a == b by {
        let a2 = if a < i { a } else { a + 1 };
        let b2 = if b < i { b } else { b + 1 };
        assert(rows[a2].id == rows[b2].id);
    }
    if has_id(after, rows[i].id) {
        let k = position(after, rows[i].id);
        let k2 = if k < i { k } else { k + 1 };
        assert(rows[k2].id == rows[i].id);
    }
    assert forall|id: Seq<char>| id != rows[i].id implies has_id(after, id) == has_id(rows, id) by {
        if has_id(after, id) {
            let k = position(after, id);
            let k2 = if k < i { k } else { k + 1 };
            assert(rows[k2].id == id);
        }
        if has_id(rows, id) {
            let k = position(rows, id);
            let k2 = if k < i { k } else { k - 1 };
            assert(after[k2].id == id);
        }
    }
}

/// Every transition that a store persists is an allowed one: whatever the
/// change, a sandbox that is there before and after it is in the same state,
/// or in a state that its old state allows. A sandbox that a change brings in
/// is in the state of its row, and the ids stay unique.
pub proof fn lemma_persisted_transitions_allowed(rows: Seq<SandboxView>, op: StoreOp, id: Seq<char>)
    requires
        ids_unique(rows),
        has_id(rows, id),
        has_id(apply_op(rows, op), id),
    ensures
        ids_unique(apply_op(rows, op)),
        state_of(apply_op(rows, op), id) == state_of(rows, id) || state_of(rows, id).allows(
            state_of(apply_op(rows, op), id),
        ),
{
    let after = apply_op(rows, op);
    lemma_apply_keeps_ids(rows, op);
    let k = position(rows, id);
    match op {
        StoreOp::Create { row } => {
            if !has_id(rows, row.id) {
                assert(after[k].id == id);
                assert(after[position(after, id)].id == after[k].id);
            }
        },
        StoreOp::UpdateState { id: target, state, error_message, now } => {
            if has_id(rows, target) && rows[position(rows, target)].state.allows(state) {
                let i = position(rows, target);
                lemma_update_keeps_ids(rows, i, with_state(rows[i], state, error_message, now));
            }
        },
        StoreOp::UpdateContainerId { id: target, container_id, now } => {
            if has_id(rows, target) {
                let i = position(rows, target);
                lemma_update_keeps_ids(
                    rows,
                    i,
                    SandboxView { container_id: Some(container_id), updated_at: now, ..rows[i] },
                );
            }
        },
        StoreOp::UpdateNfsUrl { id: target, nfs_url, now } => {
            if has_id(rows, target) {
                let i = position(rows, target);
                lemma_update_keeps_ids(
                    rows,
                    i,
                    SandboxView { nfs_url: Some(nfs_url), updated_at: now, ..rows[i] },
                );
            }
        },
        StoreOp::Delete { id: target } => {
            if has_id(rows, target) {
                let i = position(rows, target);
                lemma_remove_keeps_ids(rows, i);
                let k2 = position(after, id);
                let k3 = if k2 < i { k2 } else { k2 + 1 };
                assert(after[k2] == rows[k3]);
                assert(rows[k3].id == rows[k].id);
            }
        },
    }
}

/// Every change keeps the ids unique.
pub proof fn lemma_apply_keeps_ids(rows: Seq<SandboxView>, op: StoreOp)
    requires
        ids_unique(rows),
    ensures
        ids_unique(apply_op(rows, op)),
{
    let after = apply_op(rows, op);
    match op {
        StoreOp::Create { row } => {
            if !has_id(rows, row.id) {
                assert forall|a: int, b: int|
                    0 <= a < after.len() && 0 <= b < after.len() && (#[trigger] after[a]).id == (
                    #[trigger] after[b]).id implies a == b by {
                    if a < rows.len() {
                        assert(rows[a].id == after[a].id);
                    }
                    if b < rows.len() {
                        assert(rows[b].id == after[b].id);
                    }
                }
            }
        },
        StoreOp::UpdateState { id, state, error_message, now } => {
            if has_id(rows, id) && rows[position(rows, id)].state.allows(state) {
                let i = position(rows, id);
                lemma_update_keeps_ids(rows, i, with_state(rows[i], state, error_message, now));
            }
        },
        StoreOp::UpdateContainerId { id, container_id, now } => {
            if has_id(rows, id) {
                let i = position(rows, id);
                lemma_update_keeps_ids(
                    rows,
                    i,
                    SandboxView { container_id: Some(container_id), updated_at: now, ..rows[i] },
                );
            }
        },
        StoreOp::UpdateNfsUrl { id, nfs_url, now } => {
            if has_id(rows, id) {
                let i = position(rows, id);
                lemma_update_keeps_ids(
                    rows,
                    i,
                    SandboxView { nfs_url: Some(nfs_url), updated_at: now, ..rows[i] },
                );
            }
        },
        StoreOp::Delete { id } => {
            if has_id(rows, id) {
                lemma_remove_keeps_ids(rows, position(rows, id));
            }
        },
    }
}

/// A sandbox that was created is found again as it was created: the row that
/// a creation adds is the row that a lookup of its id gives.
pub proof fn lemma_create_then_get(rows: Seq<SandboxView>, row: SandboxView)
    requires
        ids_unique(rows),
        !has_id(rows, row.id),
    ensures
        has_id(apply_op(rows, StoreOp::Create { row }), row.id),
        apply_op(rows, StoreOp::Create { row })[position(
            apply_op(rows, StoreOp::Create { row }),
            row.id,
        )] == row,
        apply_op(rows, StoreOp::Create { row })[position(
            apply_op(rows, StoreOp::Create { row }),
            row.id,
        )].same_but_updated_at(row),
{
    let after = rows.push(row);
    assert(after[rows.len() as int].id == row.id);
    lemma_apply_keeps_ids(rows, StoreOp::Create { row });
    let k = position(after, row.id);
    assert(after[k].id == after[rows.len() as int].id);
}

/// A sandbox that was deleted is not found again: after a deletion no row has
/// the id, so a second deletion of the same id finds nothing and changes
/// nothing.
pub proof fn lemma_delete_twice(rows: Seq<SandboxView>, id: Seq<char>)
    requires
        ids_unique(rows),
    ensures
        !has_id(apply_op(rows, StoreOp::Delete { id }), id),
        apply_op(apply_op(rows, StoreOp::Delete { id }), StoreOp::Delete { id }) == apply_op(
            rows,
            StoreOp::Delete { id },
        ),
{
    if has_id(rows, id) {
        let i = position(rows, id);
        lemma_remove_keeps_ids(rows, i);
    }
}

/// The expiry sweep selects exactly the expired rows: a row is selected if
/// and only if it is a row of the store that is running, has a timeout, and
/// was created more than its timeout ago.
pub proof fn lemma_expired_exactly(rows: Seq<SandboxView>, now: i64, row: SandboxView)
    ensures
        rows.filter(|r: SandboxView| is_expired(r, now)).contains(row) <==> (rows.contains(row)
            && row.state == SandboxState::Running && row.timeout > 0 && row.created_at + row.timeout
            * 1000 < now),
{
    let pred = |r: SandboxView| is_expired(r, now);
    if rows.filter(pred).contains(row) {
        let i = choose|i: int| 0 <= i < rows.filter(pred).len() && rows.filter(pred)[i] == row;
        rows.lemma_filter_pred(pred, i);
        rows.lemma_filter_contains_rev(pred, row);
    }
    if rows.contains(row) && is_expired(row, now) {
        let i = choose|i: int| 0 <= i < rows.len() && rows[i] == row;
        rows.lemma_filter_contains(pred, i);
    }
}

} // verus!
