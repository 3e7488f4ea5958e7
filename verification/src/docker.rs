//! The container runtime adapter: how the options of a sandbox container are
//! put in the terms of the container engine.

use vstd::prelude::*;
use crate::sandbox::opt_text;
use crate::string_map::StringMap;
use crate::strings::{concat3, texts};

verus! {

/// The seconds that a container gets to stop where the caller names none.
pub const DEFAULT_STOP_GRACE_SECS: i64 = 10;

/// Container creation options.
#[derive(Debug, Clone, PartialEq, Eq)]
pub struct CreateContainerOpts {
    /// Container name.
    pub name: String,
    /// Image to use.
    pub image: String,
    /// Environment variables.
    pub env: StringMap,
    /// Volumes to mount (host path -> container path).
    pub volumes: StringMap,
    /// Working directory.
    pub working_dir: Option<String>,
    /// Command to run.
    pub cmd: Option<Vec<String>>,
    /// Labels.
    pub labels: StringMap,
    /// Network mode.
    pub network_mode: Option<String>,
    /// Memory limit in bytes.
    pub memory_limit: Option<i64>,
    /// CPU quota (100000 = 1 CPU).
    pub cpu_quota: Option<i64>,
    /// Extra hosts to add (e.g., "host.docker.internal:host-gateway").
    pub extra_hosts: Vec<String>,
}

/// What the container engine is asked to create. Lists and mappings that
/// would be empty are left out.
#[derive(Debug, Clone, PartialEq, Eq)]
pub struct ContainerSpec {
    pub name: String,
    pub image: String,
    /// `KEY=value`, one for each variable.
    pub env: Option<Vec<String>>,
    pub working_dir: Option<String>,
    pub cmd: Option<Vec<String>>,
    pub labels: Option<StringMap>,
    /// `host:container`, one for each volume.
    pub binds: Option<Vec<String>>,
    pub network_mode: Option<String>,
    pub memory: Option<i64>,
    pub cpu_quota: Option<i64>,
    pub extra_hosts: Option<Vec<String>>,
}

/// Each pair written as its key, the separator, and its value.
pub open spec fn joined(pairs: Seq<(Seq<char>, Seq<char>)>, separator: Seq<char>) -> Seq<
    Seq<char>,
> {
    Seq::new(pairs.len(), |i: int| pairs[i].0 + separator + pairs[i].1)
}

/// The texts of an optional list: none where there is no list.
pub open spec fn opt_texts(list: Option<Vec<String>>) -> Option<Seq<Seq<char>>> {
    match list {
        Some(l) => Some(texts(l@)),
        None => None,
    }
}

/// A list of texts, or nothing where the list is empty.
pub open spec fn non_empty(list: Seq<Seq<char>>) -> Option<Seq<Seq<char>>> {
    if list.len() == 0 {
        None
    } else {
        Some(list)
    }
}

/// The image to pull for an image reference: the reference itself if it
/// names a tag, else its `latest`.
pub open spec fn image_reference_spec(image: Seq<char>) -> Seq<char> {
    if image.contains(':') {
        image
    } else {
        image + ":latest"@
    }
}

/// The image to pull for an image reference.
pub fn image_reference(image: &str) -> (name: String)
    ensures
        name@ == image_reference_spec(image@),
{
    let n = image.unicode_len();
    let mut i: usize = 0;
    while i < n
        invariant
            i <= n,
            n == image@.len(),
            forall|j: int| 0 <= j < i ==> image@[j] != ':',
        decreases n - i,
    {
        if image.get_char(i) == ':' {
            assert(image@.contains(':'));
            return image.to_owned();
        }
        i += 1;
    }
    assert(!image@.contains(':'));
    crate::strings::concat2(image, ":latest")
}

/// Writes each pair of the mapping as key, separator, value, in the order of
/// the mapping.
pub fn join_pairs(map: &StringMap, separator: &str) -> (list: Vec<String>)
    ensures
        texts(list@) == joined(map.pairs(), separator@),
{
    let mut list: Vec<String> = Vec::new();
    let n = map.len();
    let mut i: usize = 0;
    while i < n
        invariant
            i <= n,
            n == map.pairs().len(),
            list@.len() == i,
            forall|j: int|
                0 <= j < i ==> (#[trigger] list@[j])@ == map.pairs()[j].0 + separator@
                    + map.pairs()[j].1,
        decreases n - i,
    {
        list.push(concat3(map.key_at(i).as_str(), separator, map.value_at(i).as_str()));
        i += 1;
    }
    assert(texts(list@) =~= joined(map.pairs(), separator@));
    list
}

/// Puts the options of a container in the terms of the engine: the image
/// falls back to the default where the options name none, variables become
/// `KEY=value`, volumes `host:container`, and what is empty is left out.
pub fn container_spec(opts: CreateContainerOpts, default_image: &str) -> (spec: ContainerSpec)
    ensures
        spec.name@ == opts.name@,
        spec.image@ == (if opts.image@.len() == 0 {
            default_image@
        } else {
            opts.image@
        }),
        opt_texts(spec.env) == non_empty(joined(opts.env.pairs(), "="@)),
        opt_texts(spec.binds) == non_empty(joined(opts.volumes.pairs(), ":"@)),
        opt_text(spec.working_dir) == opt_text(opts.working_dir),
        spec.cmd == opts.cmd,
        match spec.labels {
            Some(labels) => labels.pairs() == opts.labels.pairs() && labels.pairs().len() > 0,
            None => opts.labels.pairs().len() == 0,
        },
        spec.network_mode == opts.network_mode,
        spec.memory == opts.memory_limit,
        spec.cpu_quota == opts.cpu_quota,
        opt_texts(spec.extra_hosts) == non_empty(texts(opts.extra_hosts@)),
{
    let image = if opts.image.as_str().unicode_len() == 0 {
        default_image.to_owned()
    } else {
        opts.image
    };
    let env = join_pairs(&opts.env, "=");
    let binds = join_pairs(&opts.volumes, ":");
    let labels_empty = opts.labels.is_empty();
    let hosts_empty = opts.extra_hosts.len() == 0;
    ContainerSpec {
        name: opts.name,
        image,
        env: if env.len() == 0 {
            None
        } else {
            Some(env)
        },
        working_dir: opts.working_dir,
        cmd: opts.cmd,
        labels: if labels_empty {
            None
        } else {
            Some(opts.labels)
        },
        binds: if binds.len() == 0 {
            None
        } else {
            Some(binds)
        },
        network_mode: opts.network_mode,
        memory: opts.memory_limit,
        cpu_quota: opts.cpu_quota,
        extra_hosts: if hosts_empty {
            None
        } else {
            Some(opts.extra_hosts)
        },
    }
}

/// The label filter that finds the containers with a label: the label, an
/// equals sign, and the value.
pub fn label_filter(label: &str, value: &str) -> (filter: String)
    ensures
        filter@ == label@ + "="@ + value@,
{
    concat3(label, "=", value)
}

/// The seconds that a container gets to stop.
pub fn stop_grace(timeout: Option<i64>) -> (secs: i64)
    ensures
        secs == (match timeout {
            Some(t) => t,
            None => DEFAULT_STOP_GRACE_SECS,
        }),
{
    match timeout {
        Some(t) => t,
        None => DEFAULT_STOP_GRACE_SECS,
    }
}

/// Whether two snapshots of processor time allow a usage to be computed:
/// both the container's time and the system's must have grown. Where they
/// have not, the usage is pinned to zero.
pub fn cpu_deltas_usable(cpu_total: u64, cpu_total_before: u64, system: u64, system_before: u64) -> (usable:
    bool)
    ensures
        usable == (cpu_total - cpu_total_before > 0 && system - system_before > 0),
{
    cpu_total > cpu_total_before && system > system_before
}

} // verus!
