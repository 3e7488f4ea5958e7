//! The NFS exports of the workspaces: which workspace is exported from
//! which directory, and under which URL it is mounted.

use vstd::prelude::*;
use vstd::hash_map::StringHashMap;
use vstd::string::StringExecFns;
use crate::numbers::{decimal_text, format_decimal};
use crate::strings::str_eq;

verus! {

/// NFS operation mode.
#[derive(Debug, Clone, Copy, PartialEq, Eq, Structural)]
pub enum NfsMode {
    /// The file server is part of this process.
    Embedded,
    /// The file server of the system is used.
    System,
}

impl NfsMode {
    /// The mode that a configured name stands for: `system` for the
    /// system's file server, anything else for the embedded one.
    pub fn from_config(name: &str) -> (mode: Self)
        ensures
            mode == (if name@ == "system"@ {
                NfsMode::System
            } else {
                NfsMode::Embedded
            }),
    {
        if str_eq(name, "system") {
            NfsMode::System
        } else {
            NfsMode::Embedded
        }
    }
}

/// The host under which exports are mounted where none is configured.
pub open spec fn local_host() -> Seq<char> {
    "127.0.0.1"@
}

/// The URL of an export: `nfs://`, the host, a colon, the port, a slash,
/// and the id.
pub open spec fn nfs_url(host: Seq<char>, port: u16, id: Seq<char>) -> Seq<char> {
    "nfs://"@ + host + ":"@ + decimal_text(port as nat) + "/"@ + id
}

/// The URL of an export.
pub fn format_nfs_url(host: &str, port: u16, id: &str) -> (url: String)
    ensures
        url@ == nfs_url(host@, port, id@),
{
    let mut url = "nfs://".to_owned();
    url.append(host);
    url.append(":");
    url.append(format_decimal(port as u64).as_str());
    url.append("/");
    url.append(id);
    url
}

/// NFS manager for handling file system exports.
pub struct NfsManager {
    mode: NfsMode,
    base_dir: String,
    port: u16,
    host: String,
    /// Id -> exported path.
    exports: StringHashMap<String>,
}

impl NfsManager {
    /// The exported path of each exported id.
    pub closed spec fn exports(&self) -> Map<Seq<char>, Seq<char>> {
        Map::new(|id: Seq<char>| self.exports@.contains_key(id), |id: Seq<char>| self.exports@[id]@)
    }

    /// The host under which exports are mounted.
    pub closed spec fn host_spec(&self) -> Seq<char> {
        self.host@
    }

    /// The port of the file server.
    pub closed spec fn port_spec(&self) -> u16 {
        self.port
    }

    /// The mode of operation.
    pub closed spec fn mode_spec(&self) -> NfsMode {
        self.mode
    }

    /// The directory under which the exported directories lie.
    pub closed spec fn base_dir_spec(&self) -> Seq<char> {
        self.base_dir@
    }

    /// Create a new NFS manager whose exports are mounted from this
    /// machine.
    pub fn new(mode: NfsMode, base_dir: String, port: u16) -> (manager: Self)
        ensures
            manager.mode_spec() == mode,
            manager.base_dir_spec() == base_dir@,
            manager.port_spec() == port,
            manager.host_spec() == local_host(),
            manager.exports() == Map::<Seq<char>, Seq<char>>::empty(),
    {
        Self::with_host(mode, base_dir, port, "127.0.0.1".to_owned())
    }

    /// Create a new NFS manager whose exports are mounted from the given
    /// host.
    pub fn with_host(mode: NfsMode, base_dir: String, port: u16, host: String) -> (manager: Self)
        ensures
            manager.mode_spec() == mode,
            manager.base_dir_spec() == base_dir@,
            manager.port_spec() == port,
            manager.host_spec() == host@,
            manager.exports() == Map::<Seq<char>, Seq<char>>::empty(),
    {
        let manager = NfsManager { mode, base_dir, port, host, exports: StringHashMap::new() };
        assert(manager.exports() =~= Map::<Seq<char>, Seq<char>>::empty());
        manager
    }

    /// Whether the embedded file server is to be started: only in embedded
    /// mode.
    pub fn start(&self) -> (embedded: bool)
        ensures
            embedded == (self.mode_spec() == NfsMode::Embedded),
    {
        self.mode == NfsMode::Embedded
    }

    /// Export a directory under an id. Returns the URL under which it is
    /// mounted.
    pub fn export(&mut self, id: &str, path: &str) -> (url: String)
        ensures
            url@ == nfs_url(old(self).host_spec(), old(self).port_spec(), id@),
            final(self).exports() == old(self).exports().insert(id@, path@),
            final(self).host_spec() == old(self).host_spec(),
            final(self).port_spec() == old(self).port_spec(),
            final(self).mode_spec() == old(self).mode_spec(),
            final(self).base_dir_spec() == old(self).base_dir_spec(),
    {
        self.exports.insert(id.to_owned(), path.to_owned());
        assert(self.exports() =~= old(self).exports().insert(id@, path@));
        format_nfs_url(self.host.as_str(), self.port, id)
    }

    /// Take the export of an id back. Returns whether it was exported.
    pub fn unexport(&mut self, id: &str) -> (was_exported: bool)
        ensures
            was_exported == old(self).exports().contains_key(id@),
            final(self).exports() == old(self).exports().remove(id@),
            final(self).host_spec() == old(self).host_spec(),
            final(self).port_spec() == old(self).port_spec(),
            final(self).mode_spec() == old(self).mode_spec(),
            final(self).base_dir_spec() == old(self).base_dir_spec(),
    {
        let was_exported = self.exports.contains_key(id);
        self.exports.remove(id);
        assert(self.exports() =~= old(self).exports().remove(id@));
        was_exported
    }

    /// Get the NFS URL for an id, if it is exported.
    pub fn get_nfs_url(&self, id: &str) -> (url: Option<String>)
        ensures
            match url {
                Some(u) => self.exports().contains_key(id@) && u@ == nfs_url(
                    self.host_spec(),
                    self.port_spec(),
                    id@,
                ),
                None => !self.exports().contains_key(id@),
            },
    {
        if self.exports.contains_key(id) {
            Some(format_nfs_url(self.host.as_str(), self.port, id))
        } else {
            None
        }
    }

    /// The directory from which an id is exported, if it is.
    pub fn exported_path(&self, id: &str) -> (path: Option<&String>)
        ensures
            match path {
                Some(p) => self.exports().contains_key(id@) && p@ == self.exports()[id@],
                None => !self.exports().contains_key(id@),
            },
    {
        self.exports.get(id)
    }

    /// Get the NFS mode.
    pub fn mode(&self) -> (mode: NfsMode)
        ensures
            mode == self.mode_spec(),
    {
        self.mode
    }

    /// Get the base directory.
    pub fn base_dir(&self) -> (dir: &String)
        ensures
            dir@ == self.base_dir_spec(),
    {
        &self.base_dir
    }

    /// Get the NFS port.
    pub fn port(&self) -> (port: u16)
        ensures
            port == self.port_spec(),
    {
        self.port
    }
}

} // verus!
