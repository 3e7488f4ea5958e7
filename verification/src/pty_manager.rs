//! The PTY manager of an agent: the table of the terminals that are open in
//! the sandbox, bounded by a configured maximum. The master side of each
//! terminal is held by the runner of the agent, under the same id.

use vstd::prelude::*;
use vstd::hash_map::StringHashMap;
use crate::error::Error;

verus! {

/// The most terminals that an agent holds open where nothing else is
/// configured.
pub const DEFAULT_MAX_PTYS: usize = 16;

/// The shell of a terminal where the request names none.
pub open spec fn default_shell() -> Seq<char> {
    "/bin/bash"@
}

/// PTY instance: a terminal that is open in the sandbox.
#[derive(Debug, Clone, PartialEq, Eq)]
pub struct PtyInstance {
    pub id: String,
    pub cols: u16,
    pub rows: u16,
    pub shell: String,
}

/// A terminal, as plain values.
pub struct PtyView {
    pub cols: u16,
    pub rows: u16,
    pub shell: Seq<char>,
}

impl View for PtyInstance {
    type V = PtyView;

    open spec fn view(&self) -> PtyView {
        PtyView { cols: self.cols, rows: self.rows, shell: self.shell@ }
    }
}

/// The terminals of a table, as plain values.
pub open spec fn pty_views(table: Map<Seq<char>, PtyInstance>) -> Map<Seq<char>, PtyView> {
    Map::new(|id: Seq<char>| table.contains_key(id), |id: Seq<char>| table[id]@)
}

/// What the runner has to open for a new terminal.
#[derive(Debug, Clone, PartialEq, Eq)]
pub struct PtySpawn {
    /// The program to run in the terminal.
    pub shell: String,
    pub cols: u16,
    pub rows: u16,
}

/// PTY manager.
pub struct PtyManager {
    ptys: StringHashMap<PtyInstance>,
    max_ptys: usize,
}

impl View for PtyManager {
    type V = Map<Seq<char>, PtyView>;

    closed spec fn view(&self) -> Map<Seq<char>, PtyView> {
        pty_views(self.ptys@)
    }
}

impl PtyManager {
    /// The table is finite, and every terminal stands under its own id.
    #[verifier::type_invariant]
    pub closed spec fn wf(&self) -> bool {
        &&& self.ptys@.dom().finite()
        &&& forall|id: Seq<char>| #[trigger] self.ptys@.contains_key(id) ==> self.ptys@[id].id@ == id
    }

    /// The number of open terminals.
    pub closed spec fn count(&self) -> nat {
        self.ptys@.len()
    }

    /// The most terminals that may be open.
    pub closed spec fn capacity(&self) -> usize {
        self.max_ptys
    }

    /// Create a new PTY manager.
    pub fn new(max_ptys: usize) -> (manager: Self)
        ensures
            manager@ == Map::<Seq<char>, PtyView>::empty(),
            manager.count() == 0,
            manager.capacity() == max_ptys,
    {
        let manager = PtyManager { ptys: StringHashMap::new(), max_ptys };
        assert(manager@ =~= Map::<Seq<char>, PtyView>::empty());
        manager
    }

    /// The number of open terminals.
    pub fn len(&self) -> (n: usize)
        ensures
            n == self.count(),
    {
        self.ptys.len()
    }

    fn take(&mut self) -> (ptys: StringHashMap<PtyInstance>)
        ensures
            ptys == old(self).ptys,
            final(self).ptys@ == Map::<Seq<char>, PtyInstance>::empty(),
            final(self).max_ptys == old(self).max_ptys,
    {
        let mut taken = PtyManager { ptys: StringHashMap::new(), max_ptys: self.max_ptys };
        core::mem::swap(self, &mut taken);
        taken.ptys
    }

    /// Whether a terminal is open under the id.
    pub fn contains(&self, id: &str) -> (open: bool)
        ensures
            open == self@.contains_key(id@),
    {
        self.ptys.contains_key(id)
    }

    /// Create a new PTY: a terminal of the given size that runs the given
    /// shell, `/bin/bash` where none is given. At capacity the request is
    /// refused and nothing is allocated. An id that is in use is taken over by
    /// the new terminal.
    pub fn create(&mut self, id: String, cols: u16, rows: u16, shell: Option<&str>) -> (result: Result<
        PtySpawn,
        Error,
    >)
        ensures
            final(self).capacity() == old(self).capacity(),
            old(self).count() >= old(self).capacity() ==> result == Err::<PtySpawn, Error>(
                Error::PtyLimitExceeded,
            ) && final(self)@ == old(self)@ && final(self).count() == old(self).count(),
            old(self).count() < old(self).capacity() ==> (result matches Ok(spawn) && spawn.shell@
                == (match shell {
                Some(s) => s@,
                None => default_shell(),
            }) && spawn.cols == cols && spawn.rows == rows && final(self)@ == old(self)@.insert(
                id@,
                PtyView { cols, rows, shell: spawn.shell@ },
            ) && final(self).count() == old(self).count() + (if old(self)@.contains_key(id@) {
                0nat
            } else {
                1nat
            })),
    {
        proof {
            use_type_invariant(&*self);
        }
        if self.ptys.len() >= self.max_ptys {
            return Err(Error::PtyLimitExceeded);
        }
        let shell_name: String = match shell {
            Some(s) => s.to_owned(),
            None => "/bin/bash".to_owned(),
        };
        let spawn = PtySpawn { shell: shell_name.clone(), cols, rows };
        let key = id.clone();
        let ghost before = self.ptys@;
        let mut ptys = self.take();
        ptys.insert(key, PtyInstance { id, cols, rows, shell: shell_name });
        self.ptys = ptys;
        assert(self@ =~= pty_views(before).insert(id@, PtyView { cols, rows, shell: spawn.shell@ }));
        Ok(spawn)
    }

    /// Resize a PTY.
    pub fn resize(&mut self, id: &str, cols: u16, rows: u16) -> (result: Result<(), Error>)
        ensures
            final(self).capacity() == old(self).capacity(),
            final(self).count() == old(self).count(),
            !old(self)@.contains_key(id@) ==> (result matches Err(Error::PtyNotFound(missing))
                && missing@ == id@ && final(self)@ == old(self)@),
            old(self)@.contains_key(id@) ==> (result is Ok && final(self)@ == old(self)@.insert(
                id@,
                PtyView { cols, rows, shell: old(self)@[id@].shell },
            )),
    {
        proof {
            use_type_invariant(&*self);
        }
        let resized = match self.ptys.get(id) {
            Some(entry) => PtyInstance { id: entry.id.clone(), cols, rows, shell: entry.shell.clone() },
            None => {
                return Err(Error::PtyNotFound(id.to_owned()));
            },
        };
        let ghost before = self.ptys@;
        let mut ptys = self.take();
        ptys.insert(id.to_owned(), resized);
        self.ptys = ptys;
        assert(before.dom().insert(id@) =~= before.dom());
        assert(self@ =~= pty_views(before).insert(
            id@,
            PtyView { cols, rows, shell: pty_views(before)[id@].shell },
        ));
        Ok(())
    }

    /// Kill a PTY: its entry goes; the runner then drops its master side,
    /// which closes the terminal and reaps its child.
    pub fn kill(&mut self, id: &str) -> (result: Result<(), Error>)
        ensures
            final(self).capacity() == old(self).capacity(),
            !final(self)@.contains_key(id@),
            !old(self)@.contains_key(id@) ==> (result matches Err(Error::PtyNotFound(missing))
                && missing@ == id@ && final(self)@ == old(self)@ && final(self).count() == old(self).count()),
            old(self)@.contains_key(id@) ==> (result is Ok && final(self)@ == old(self)@.remove(
                id@,
            ) && final(self).count() == old(self).count() - 1),
    {
        proof {
            use_type_invariant(&*self);
        }
        if !self.ptys.contains_key(id) {
            return Err(Error::PtyNotFound(id.to_owned()));
        }
        let ghost before = self.ptys@;
        let mut ptys = self.take();
        ptys.remove(id);
        self.ptys = ptys;
        assert(self@ =~= pty_views(before).remove(id@));
        Ok(())
    }

    /// Write data to a PTY: whether there is a terminal to write to, and
    /// how many bytes the runner is then to write to its master side, which
    /// is all of them.
    pub fn write(&self, id: &str, data: &[u8]) -> (result: Result<usize, Error>)
        ensures
            self@.contains_key(id@) ==> result == Ok::<usize, Error>(data@.len() as usize),
            !self@.contains_key(id@) ==> (result matches Err(Error::PtyNotFound(missing))
                && missing@ == id@),
    {
        if self.ptys.contains_key(id) {
            Ok(data.len())
        } else {
            Err(Error::PtyNotFound(id.to_owned()))
        }
    }
}

/// Resizing a terminal twice to the same size is resizing it once.
pub proof fn lemma_resize_idempotent(table: Map<Seq<char>, PtyView>, id: Seq<char>, cols: u16, rows: u16)
    requires
        table.contains_key(id),
    ensures
        ({
            let once = table.insert(id, PtyView { cols, rows, shell: table[id].shell });
            let twice = once.insert(id, PtyView { cols, rows, shell: once[id].shell });
            twice == once
        }),
{
    let once = table.insert(id, PtyView { cols, rows, shell: table[id].shell });
    let twice = once.insert(id, PtyView { cols, rows, shell: once[id].shell });
    assert(twice =~= once);
}

/// A terminal that was killed is not found again: a resize after the kill
/// finds nothing.
pub proof fn lemma_killed_is_gone(table: Map<Seq<char>, PtyView>, id: Seq<char>)
    ensures
        !table.remove(id).contains_key(id),
{
}

} // verus!
