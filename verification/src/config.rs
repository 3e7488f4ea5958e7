//! Server configuration.

use vstd::prelude::*;
use crate::numbers::{parse_decimal, parse_decimal_spec};
use crate::sandbox::opt_text;
use crate::string_map::StringMap;
use crate::strings::{clone_opt, clone_strings, concat3, texts};

verus! {

/// Server configuration.
#[derive(Debug, PartialEq, Eq)]
pub struct Config {
    /// HTTP server host.
    pub http_host: String,
    /// HTTP server port.
    pub http_port: u16,
    /// gRPC server host.
    pub grpc_host: String,
    /// gRPC server port.
    pub grpc_port: u16,
    /// Database URL (SQLite).
    pub database_url: String,
    /// Docker socket path.
    pub docker_socket: String,
    /// Workspace base directory for sandbox volumes, as the server sees it.
    pub workspace_dir: String,
    /// The same directory as the host of the container engine sees it, where
    /// the two differ; sandbox containers mount from this path.
    pub workspace_host_dir: Option<String>,
    /// NFS mode: "embedded" or "system".
    pub nfs_mode: String,
    /// NFS port (for embedded mode).
    pub nfs_port: u16,
    /// Base image for sandboxes.
    pub base_image: String,
    /// Maximum sandbox idle time in seconds.
    pub max_idle_time: u64,
    /// Agent connection timeout in seconds.
    pub agent_timeout: u64,
    /// Server address that agents should connect to (from inside containers).
    pub agent_server_addr: String,
    /// Docker network name for sandbox containers.
    pub docker_network: Option<String>,
    /// Extra hosts to add to sandbox containers.
    pub sandbox_extra_hosts: Vec<String>,
    /// MCP server mode: "disabled", "stdio", or "sse".
    pub mcp_mode: String,
}

/// A configuration, as plain values.
pub struct ConfigView {
    pub http_host: Seq<char>,
    pub http_port: u16,
    pub grpc_host: Seq<char>,
    pub grpc_port: u16,
    pub database_url: Seq<char>,
    pub docker_socket: Seq<char>,
    pub workspace_dir: Seq<char>,
    pub workspace_host_dir: Option<Seq<char>>,
    pub nfs_mode: Seq<char>,
    pub nfs_port: u16,
    pub base_image: Seq<char>,
    pub max_idle_time: u64,
    pub agent_timeout: u64,
    pub agent_server_addr: Seq<char>,
    pub docker_network: Option<Seq<char>>,
    pub sandbox_extra_hosts: Seq<Seq<char>>,
    pub mcp_mode: Seq<char>,
}

impl View for Config {
    type V = ConfigView;

    open spec fn view(&self) -> ConfigView {
        ConfigView {
            http_host: self.http_host@,
            http_port: self.http_port,
            grpc_host: self.grpc_host@,
            grpc_port: self.grpc_port,
            database_url: self.database_url@,
            docker_socket: self.docker_socket@,
            workspace_dir: self.workspace_dir@,
            workspace_host_dir: opt_text(self.workspace_host_dir),
            nfs_mode: self.nfs_mode@,
            nfs_port: self.nfs_port,
            base_image: self.base_image@,
            max_idle_time: self.max_idle_time,
            agent_timeout: self.agent_timeout,
            agent_server_addr: self.agent_server_addr@,
            docker_network: opt_text(self.docker_network),
            sandbox_extra_hosts: texts(self.sandbox_extra_hosts@),
            mcp_mode: self.mcp_mode@,
        }
    }
}

impl ConfigView {
    /// The configuration of a server that was told nothing.
    pub open spec fn defaults() -> ConfigView {
        ConfigView {
            http_host: "0.0.0.0"@,
            http_port: 8080,
            grpc_host: "0.0.0.0"@,
            grpc_port: 9090,
            database_url: "sqlite:data/workspace.db?mode=rwc"@,
            docker_socket: "/var/run/docker.sock"@,
            workspace_dir: "/var/lib/workspace"@,
            workspace_host_dir: None,
            nfs_mode: "embedded"@,
            nfs_port: 2049,
            base_image: "workspace-base:latest"@,
            max_idle_time: 3600,
            agent_timeout: 30,
            agent_server_addr: "http://172.17.0.1:9090"@,
            docker_network: None,
            sandbox_extra_hosts: Seq::empty(),
            mcp_mode: "disabled"@,
        }
    }

    /// The directory from which sandbox containers mount: the host's view of
    /// the workspace directory where one is configured, else the server's.
    pub open spec fn mount_base(self) -> Seq<char> {
        match self.workspace_host_dir {
            Some(dir) => dir,
            None => self.workspace_dir,
        }
    }

    /// The host path of the directory of a workspace: the mount base, a
    /// slash, and the id.
    pub open spec fn host_path(self, id: Seq<char>) -> Seq<char> {
        self.mount_base() + "/"@ + id
    }
}

pub fn default_http_host() -> (value: String)
    ensures
        value@ == ConfigView::defaults().http_host,
{
    "0.0.0.0".to_owned()
}

pub fn default_http_port() -> (value: u16)
    ensures
        value == ConfigView::defaults().http_port,
{
    8080
}

pub fn default_grpc_host() -> (value: String)
    ensures
        value@ == ConfigView::defaults().grpc_host,
{
    "0.0.0.0".to_owned()
}

pub fn default_grpc_port() -> (value: u16)
    ensures
        value == ConfigView::defaults().grpc_port,
{
    9090
}

pub fn default_database_url() -> (value: String)
    ensures
        value@ == ConfigView::defaults().database_url,
{
    "sqlite:data/workspace.db?mode=rwc".to_owned()
}

pub fn default_docker_socket() -> (value: String)
    ensures
        value@ == ConfigView::defaults().docker_socket,
{
    "/var/run/docker.sock".to_owned()
}

pub fn default_workspace_dir() -> (value: String)
    ensures
        value@ == ConfigView::defaults().workspace_dir,
{
    "/var/lib/workspace".to_owned()
}

pub fn default_nfs_mode() -> (value: String)
    ensures
        value@ == ConfigView::defaults().nfs_mode,
{
    "embedded".to_owned()
}

pub fn default_nfs_port() -> (value: u16)
    ensures
        value == ConfigView::defaults().nfs_port,
{
    2049
}

pub fn default_base_image() -> (value: String)
    ensures
        value@ == ConfigView::defaults().base_image,
{
    "workspace-base:latest".to_owned()
}

/// One hour.
pub fn default_max_idle_time() -> (value: u64)
    ensures
        value == ConfigView::defaults().max_idle_time,
{
    3600
}

pub fn default_agent_timeout() -> (value: u64)
    ensures
        value == ConfigView::defaults().agent_timeout,
{
    30
}

/// The address of the container engine's bridge, as containers see the host
/// on Linux.
pub fn default_agent_server_addr() -> (value: String)
    ensures
        value@ == ConfigView::defaults().agent_server_addr,
{
    "http://172.17.0.1:9090".to_owned()
}

pub fn default_mcp_mode() -> (value: String)
    ensures
        value@ == ConfigView::defaults().mcp_mode,
{
    "disabled".to_owned()
}

impl Config {
    /// Get the host path for the directory of a workspace. This is the path
    /// that is mounted into sandbox containers.
    pub fn get_sandbox_workspace_host_path(&self, sandbox_id: &str) -> (path: String)
        ensures
            path@ == self@.host_path(sandbox_id@),
    {
        let base: &str = match &self.workspace_host_dir {
            Some(dir) => dir.as_str(),
            None => self.workspace_dir.as_str(),
        };
        concat3(base, "/", sandbox_id)
    }
}

impl Default for Config {
    fn default() -> (config: Self)
        ensures
            config@ == ConfigView::defaults(),
    {
        let config = Config {
            http_host: default_http_host(),
            http_port: default_http_port(),
            grpc_host: default_grpc_host(),
            grpc_port: default_grpc_port(),
            database_url: default_database_url(),
            docker_socket: default_docker_socket(),
            workspace_dir: default_workspace_dir(),
            workspace_host_dir: None,
            nfs_mode: default_nfs_mode(),
            nfs_port: default_nfs_port(),
            base_image: default_base_image(),
            max_idle_time: default_max_idle_time(),
            agent_timeout: default_agent_timeout(),
            agent_server_addr: default_agent_server_addr(),
            docker_network: None,
            sandbox_extra_hosts: Vec::new(),
            mcp_mode: default_mcp_mode(),
        };
        assert(config@.sandbox_extra_hosts =~= Seq::<Seq<char>>::empty());
        config
    }
}

impl Clone for Config {
    fn clone(&self) -> (copy: Self)
        ensures
            copy@ == self@,
    {
        Config {
            http_host: self.http_host.clone(),
            http_port: self.http_port,
            grpc_host: self.grpc_host.clone(),
            grpc_port: self.grpc_port,
            database_url: self.database_url.clone(),
            docker_socket: self.docker_socket.clone(),
            workspace_dir: self.workspace_dir.clone(),
            workspace_host_dir: clone_opt(&self.workspace_host_dir),
            nfs_mode: self.nfs_mode.clone(),
            nfs_port: self.nfs_port,
            base_image: self.base_image.clone(),
            max_idle_time: self.max_idle_time,
            agent_timeout: self.agent_timeout,
            agent_server_addr: self.agent_server_addr.clone(),
            docker_network: clone_opt(&self.docker_network),
            sandbox_extra_hosts: clone_strings(&self.sandbox_extra_hosts),
            mcp_mode: self.mcp_mode.clone(),
        }
    }
}

/// Whether the character is white space, as Unicode has it.
pub open spec fn is_space(c: char) -> bool {
    ||| '\u{9}' <= c <= '\u{d}'
    ||| c == ' '
    ||| c == '\u{85}'
    ||| c == '\u{a0}'
    ||| c == '\u{1680}'
    ||| '\u{2000}' <= c <= '\u{200a}'
    ||| c == '\u{2028}'
    ||| c == '\u{2029}'
    ||| c == '\u{202f}'
    ||| c == '\u{205f}'
    ||| c == '\u{3000}'
}

/// The position of the first comma at or after `from`, or the end of the
/// text.
pub open spec fn next_comma(text: Seq<char>, from: int) -> int
    decreases text.len() - from,
{
    if from >= text.len() {
        text.len() as int
    } else if text[from] == ',' {
        from
    } else {
        next_comma(text, from + 1)
    }
}

/// The position of the first character in `from..to` that is no white
/// space, or `to`.
pub open spec fn skip_spaces(text: Seq<char>, from: int, to: int) -> int
    decreases to - from,
{
    if from >= to {
        to
    } else if is_space(text[from]) {
        skip_spaces(text, from + 1, to)
    } else {
        from
    }
}

/// The position after the last character in `from..to` that is no white
/// space, or `from`.
pub open spec fn drop_spaces(text: Seq<char>, from: int, to: int) -> int
    decreases to - from,
{
    if to <= from {
        from
    } else if is_space(text[to - 1]) {
        drop_spaces(text, from, to - 1)
    } else {
        to
    }
}

/// The part `from..to` of the text without the white space at its ends.
pub open spec fn trimmed(text: Seq<char>, from: int, to: int) -> Seq<char> {
    let start = skip_spaces(text, from, to);
    text.subrange(start, drop_spaces(text, start, to))
}

/// The hosts that the text lists from `from` on: its parts between commas,
/// without the white space at their ends, and without the empty ones.
pub open spec fn hosts_from(text: Seq<char>, from: int) -> Seq<Seq<char>>
    decreases text.len() - from + 1,
{
    if from < 0 || from > text.len() {
        Seq::empty()
    } else {
        let end = next_comma(text, from);
        let item = trimmed(text, from, end);
        let rest = if from <= end < text.len() {
            hosts_from(text, end + 1)
        } else {
            Seq::empty()
        };
        if item.len() > 0 {
            seq![item] + rest
        } else {
            rest
        }
    }
}

/// Whether the character is white space.
pub fn char_is_space(c: char) -> (space: bool)
    ensures
        space == is_space(c),
{
    (c >= '\u{9}' && c <= '\u{d}') || c == ' ' || c == '\u{85}' || c == '\u{a0}' || c == '\u{1680}'
        || (c >= '\u{2000}' && c <= '\u{200a}') || c == '\u{2028}' || c == '\u{2029}' || c
        == '\u{202f}' || c == '\u{205f}' || c == '\u{3000}'
}

/// The hosts that a comma-separated list names.
pub fn split_hosts(text: &str) -> (hosts: Vec<String>)
    ensures
        texts(hosts@) == hosts_from(text@, 0),
{
    let n = text.unicode_len();
    let mut hosts: Vec<String> = Vec::new();
    let mut start: usize = 0;
    let mut done = false;
    assert(texts(hosts@) + hosts_from(text@, 0) =~= hosts_from(text@, 0));
    while !done
        invariant
            n == text@.len(),
            start <= n,
            !done ==> texts(hosts@) + hosts_from(text@, start as int) == hosts_from(text@, 0),
            done ==> texts(hosts@) == hosts_from(text@, 0),
        decreases n - start + (if done { 0int } else { 1int }),
    {
        let mut end: usize = start;
        while end < n && text.get_char(end) != ','
            invariant
                n == text@.len(),
                start <= end <= n,
                next_comma(text@, start as int) == next_comma(text@, end as int),
            decreases n - end,
        {
            end += 1;
        }
        assert(next_comma(text@, start as int) == end);
        let mut a: usize = start;
        while a < end && char_is_space(text.get_char(a))
            invariant
                n == text@.len(),
                start <= a <= end <= n,
                skip_spaces(text@, start as int, end as int) == skip_spaces(
                    text@,
                    a as int,
                    end as int,
                ),
            decreases end - a,
        {
            a += 1;
        }
        assert(skip_spaces(text@, start as int, end as int) == a);
        let mut b: usize = end;
        while b > a && char_is_space(text.get_char(b - 1))
            invariant
                n == text@.len(),
                a <= b <= end <= n,
                drop_spaces(text@, a as int, end as int) == drop_spaces(text@, a as int, b as int),
            decreases b - a,
        {
            b -= 1;
        }
        assert(drop_spaces(text@, a as int, end as int) == b);
        let ghost before = texts(hosts@);
        let ghost item = trimmed(text@, start as int, end as int);
        let ghost rest = if end < n {
            hosts_from(text@, end + 1)
        } else {
            Seq::<Seq<char>>::empty()
        };
        assert(item == text@.subrange(a as int, b as int));
        assert(hosts_from(text@, start as int) == if item.len() > 0 {
            seq![item] + rest
        } else {
            rest
        });
        if a < b {
            hosts.push(text.substring_char(a, b).to_owned());
            assert(texts(hosts@) =~= before.push(item));
            assert(texts(hosts@) + rest =~= before + (seq![item] + rest));
        } else {
            assert(item.len() == 0);
        }
        if end < n {
            start = end + 1;
        } else {
            assert(texts(hosts@) + rest =~= texts(hosts@));
            done = true;
        }
    }
    hosts
}

/// The value of a text variable: what the environment says, or the default.
pub open spec fn text_var(env: Map<Seq<char>, Seq<char>>, name: Seq<char>, default: Seq<char>) -> Seq<
    char,
> {
    if env.contains_key(name) {
        env[name]
    } else {
        default
    }
}

/// The value of an optional text variable: what the environment says, or
/// what was there.
pub open spec fn opt_var(env: Map<Seq<char>, Seq<char>>, name: Seq<char>, default: Option<Seq<char>>) -> Option<
    Seq<char>,
> {
    if env.contains_key(name) {
        Some(env[name])
    } else {
        default
    }
}

/// The value of a number variable: what the environment says, if that is a
/// number of at most `max`, or the default.
pub open spec fn number_var(env: Map<Seq<char>, Seq<char>>, name: Seq<char>, max: u64, default: u64) -> u64 {
    if env.contains_key(name) {
        match parse_decimal_spec(env[name], max) {
            Some(value) => value,
            None => default,
        }
    } else {
        default
    }
}

impl ConfigView {
    /// The configuration that an environment asks for: the defaults, and over
    /// them what the variables of the environment say. A number that cannot
    /// be read leaves the default in place.
    pub open spec fn loaded(env: Map<Seq<char>, Seq<char>>) -> ConfigView {
        let d = ConfigView::defaults();
        ConfigView {
            http_host: text_var(env, "WORKSPACE_HTTP_HOST"@, d.http_host),
            http_port: number_var(env, "WORKSPACE_HTTP_PORT"@, 0xffff, d.http_port as u64) as u16,
            grpc_host: text_var(env, "WORKSPACE_GRPC_HOST"@, d.grpc_host),
            grpc_port: number_var(env, "WORKSPACE_GRPC_PORT"@, 0xffff, d.grpc_port as u64) as u16,
            database_url: text_var(env, "WORKSPACE_DATABASE_URL"@, d.database_url),
            docker_socket: text_var(env, "WORKSPACE_DOCKER_SOCKET"@, d.docker_socket),
            workspace_dir: text_var(env, "WORKSPACE_WORKSPACE_DIR"@, d.workspace_dir),
            workspace_host_dir: opt_var(env, "WORKSPACE_WORKSPACE_HOST_DIR"@, None),
            nfs_mode: text_var(env, "WORKSPACE_NFS_MODE"@, d.nfs_mode),
            nfs_port: number_var(env, "WORKSPACE_NFS_PORT"@, 0xffff, d.nfs_port as u64) as u16,
            base_image: text_var(env, "WORKSPACE_BASE_IMAGE"@, d.base_image),
            max_idle_time: number_var(env, "WORKSPACE_MAX_IDLE_TIME"@, u64::MAX, d.max_idle_time),
            agent_timeout: number_var(env, "WORKSPACE_AGENT_TIMEOUT"@, u64::MAX, d.agent_timeout),
            agent_server_addr: text_var(env, "WORKSPACE_AGENT_SERVER_ADDR"@, d.agent_server_addr),
            docker_network: opt_var(env, "WORKSPACE_DOCKER_NETWORK"@, None),
            sandbox_extra_hosts: if env.contains_key("WORKSPACE_SANDBOX_EXTRA_HOSTS"@) {
                hosts_from(env["WORKSPACE_SANDBOX_EXTRA_HOSTS"@], 0)
            } else {
                Seq::empty()
            },
            mcp_mode: text_var(env, "WORKSPACE_MCP_MODE"@, d.mcp_mode),
        }
    }
}

/// The value of a text variable.
fn text_of_var(env: &StringMap, name: &str, default: String) -> (value: String)
    ensures
        value@ == text_var(env@, name@, default@),
{
    match env.get(name) {
        Some(text) => text.clone(),
        None => default,
    }
}

/// The value of an optional text variable.
fn opt_of_var(env: &StringMap, name: &str) -> (value: Option<String>)
    ensures
        opt_text(value) == opt_var(env@, name@, None),
{
    match env.get(name) {
        Some(text) => Some(text.clone()),
        None => None,
    }
}

/// The value of a number variable.
fn number_of_var(env: &StringMap, name: &str, max: u64, default: u64) -> (value: u64)
    requires
        default <= max,
    ensures
        value == number_var(env@, name@, max, default),
        value <= max,
{
    match env.get(name) {
        Some(text) => match parse_decimal(text.as_str(), max) {
            Some(value) => value,
            None => default,
        },
        None => default,
    }
}

impl Config {
    /// Load configuration from the variables of the environment.
    pub fn load(env: &StringMap) -> (config: Self)
        ensures
            config@ == ConfigView::loaded(env@),
    {
        let http_port = number_of_var(env, "WORKSPACE_HTTP_PORT", 0xffff, default_http_port() as u64);
        let grpc_port = number_of_var(env, "WORKSPACE_GRPC_PORT", 0xffff, default_grpc_port() as u64);
        let nfs_port = number_of_var(env, "WORKSPACE_NFS_PORT", 0xffff, default_nfs_port() as u64);
        let sandbox_extra_hosts = match env.get("WORKSPACE_SANDBOX_EXTRA_HOSTS") {
            Some(list) => split_hosts(list.as_str()),
            None => Vec::new(),
        };
        let config = Config {
            http_host: text_of_var(env, "WORKSPACE_HTTP_HOST", default_http_host()),
            http_port: http_port as u16,
            grpc_host: text_of_var(env, "WORKSPACE_GRPC_HOST", default_grpc_host()),
            grpc_port: grpc_port as u16,
            database_url: text_of_var(env, "WORKSPACE_DATABASE_URL", default_database_url()),
            docker_socket: text_of_var(env, "WORKSPACE_DOCKER_SOCKET", default_docker_socket()),
            workspace_dir: text_of_var(env, "WORKSPACE_WORKSPACE_DIR", default_workspace_dir()),
            workspace_host_dir: opt_of_var(env, "WORKSPACE_WORKSPACE_HOST_DIR"),
            nfs_mode: text_of_var(env, "WORKSPACE_NFS_MODE", default_nfs_mode()),
            nfs_port: nfs_port as u16,
            base_image: text_of_var(env, "WORKSPACE_BASE_IMAGE", default_base_image()),
            max_idle_time: number_of_var(
                env,
                "WORKSPACE_MAX_IDLE_TIME",
                u64::MAX,
                default_max_idle_time(),
            ),
            agent_timeout: number_of_var(
                env,
                "WORKSPACE_AGENT_TIMEOUT",
                u64::MAX,
                default_agent_timeout(),
            ),
            agent_server_addr: text_of_var(
                env,
                "WORKSPACE_AGENT_SERVER_ADDR",
                default_agent_server_addr(),
            ),
            docker_network: opt_of_var(env, "WORKSPACE_DOCKER_NETWORK"),
            sandbox_extra_hosts,
            mcp_mode: text_of_var(env, "WORKSPACE_MCP_MODE", default_mcp_mode()),
        };
        proof {
            if !env@.contains_key("WORKSPACE_SANDBOX_EXTRA_HOSTS"@) {
                assert(config@.sandbox_extra_hosts =~= Seq::<Seq<char>>::empty());
            }
        }
        config
    }
}

} // verus!
