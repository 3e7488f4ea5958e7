//! Sandboxes and workspaces as rows of text and numbers, as a database
//! holds them: mappings as JSON objects, times as RFC 3339 texts.

use vstd::prelude::*;
use crate::error::Error;
use crate::sandbox::{opt_text, Sandbox, SandboxState};
use crate::string_map::{keys_distinct, pairs_to_map, spec_pairs, StringMap};
use crate::strings::concat2;
use crate::timefmt::{format_time, read_time, rfc3339_millis, time_text};
use crate::workspace::Workspace;

verus! {

/// The mapping that a JSON text stands for, if it is an object whose values
/// are all strings; else the words with which the text is refused.
pub uninterp spec fn json_object(text: Seq<char>) -> Result<Map<Seq<char>, Seq<char>>, Seq<char>>;

/// The JSON text of a mapping from strings to strings: an object with the
/// keys in ascending order.
pub uninterp spec fn json_text(object: Map<Seq<char>, Seq<char>>) -> Seq<char>;

/// Whether what was read is what the text stands for: the pairs of the
/// mapping, each key once, in no order that could be named; or the refusal.
pub open spec fn reads_as(
    meaning: Result<Map<Seq<char>, Seq<char>>, Seq<char>>,
    read: Result<Vec<(String, String)>, String>,
) -> bool {
    match (meaning, read) {
        (Ok(object), Ok(list)) => keys_distinct(spec_pairs(list@)) && pairs_to_map(
            spec_pairs(list@),
        ) == object,
        (Err(refusal), Err(message)) => message@ == refusal,
        _ => false,
    }
}

/// `serde_json::from_str` for a `HashMap` of strings: the pairs of the JSON
/// object, or the error in its own words.
#[verifier::external_body]
fn read_json_object(text: &str) -> (read: Result<Vec<(String, String)>, String>)
    ensures
        reads_as(json_object(text@), read),
{
    match serde_json::from_str::<std::collections::HashMap<String, String>>(text) {
        Ok(object) => Ok(object.into_iter().collect()),
        Err(e) => Err(e.to_string()),
    }
}

/// `serde_json::to_string` for a `BTreeMap` of strings: the JSON object of
/// the pairs, with the keys in ascending order.
#[verifier::external_body]
fn write_json_object(pairs: &Vec<(String, String)>) -> (text: String)
    requires
        keys_distinct(spec_pairs(pairs@)),
    ensures
        text@ == json_text(pairs_to_map(spec_pairs(pairs@))),
{
    let object: std::collections::BTreeMap<&String, &String> =
        pairs.iter().map(|pair| (&pair.0, &pair.1)).collect();
    serde_json::to_string(&object).unwrap_or_default()
}

/// The mapping that a JSON text stands for.
pub fn parse_string_map(text: &str) -> (result: Result<StringMap, String>)
    ensures
        match json_object(text@) {
            Ok(object) => result matches Ok(map) && map@ == object,
            Err(refusal) => result matches Err(message) && message@ == refusal,
        },
{
    match read_json_object(text) {
        Ok(list) => Ok(StringMap::from_pairs(list)),
        Err(message) => Err(message),
    }
}

/// The JSON text of a mapping.
pub fn string_map_json(map: &StringMap) -> (text: String)
    ensures
        text@ == json_text(map@),
{
    let list = map.to_pairs();
    let _ = map.len();
    proof {
        map.lemma_view();
        map.lemma_keys_distinct();
        assert(spec_pairs(list@) =~= map.pairs());
    }
    write_json_object(&list)
}

/// Database row for sandbox.
#[derive(Debug, Clone, PartialEq, Eq)]
pub struct SandboxRow {
    pub id: String,
    pub workspace_id: String,
    pub name: Option<String>,
    pub template: String,
    pub state: String,
    pub container_id: Option<String>,
    pub env: String,
    pub metadata: String,
    pub nfs_url: Option<String>,
    pub timeout: i64,
    pub error_message: Option<String>,
    pub created_at: String,
    pub updated_at: String,
}

/// Database row for workspace.
#[derive(Debug, Clone, PartialEq, Eq)]
pub struct WorkspaceRow {
    pub id: String,
    pub name: Option<String>,
    pub nfs_url: Option<String>,
    pub metadata: String,
    pub created_at: String,
    pub updated_at: String,
}

/// A timeout as a row holds it: the same 64 bits, read as a signed number.
pub open spec fn timeout_in_row(timeout: u64) -> i64 {
    if timeout <= 0x7fff_ffff_ffff_ffff {
        timeout as i64
    } else {
        (timeout - 0x1_0000_0000_0000_0000) as i64
    }
}

/// The timeout that a row holds: the same 64 bits, read as an unsigned
/// number.
pub open spec fn timeout_of_row(timeout: i64) -> u64 {
    if timeout >= 0 {
        timeout as u64
    } else {
        (timeout + 0x1_0000_0000_0000_0000) as u64
    }
}

/// Whether the sandbox is what the row says.
pub open spec fn sandbox_of_row(row: SandboxRow, sandbox: Sandbox) -> bool {
    &&& sandbox.id@ == row.id@
    &&& sandbox.workspace_id@ == row.workspace_id@
    &&& opt_text(sandbox.name) == opt_text(row.name)
    &&& sandbox.template@ == row.template@
    &&& Some(sandbox.state) == SandboxState::parse(row.state@)
    &&& opt_text(sandbox.container_id) == opt_text(row.container_id)
    &&& Ok::<Map<Seq<char>, Seq<char>>, Seq<char>>(sandbox.env@) == json_object(row.env@)
    &&& Ok::<Map<Seq<char>, Seq<char>>, Seq<char>>(sandbox.metadata@) == json_object(
        row.metadata@,
    )
    &&& opt_text(sandbox.nfs_url) == opt_text(row.nfs_url)
    &&& Ok::<i64, Seq<char>>(sandbox.created_at) == rfc3339_millis(row.created_at@)
    &&& Ok::<i64, Seq<char>>(sandbox.updated_at) == rfc3339_millis(row.updated_at@)
    &&& sandbox.timeout == timeout_of_row(row.timeout)
    &&& opt_text(sandbox.error_message) == opt_text(row.error_message)
}

/// Whether the row can be read: its state is the name of a state, its
/// mappings are JSON objects of strings, and its times are RFC 3339 texts.
pub open spec fn readable(row: SandboxRow) -> bool {
    &&& SandboxState::parse(row.state@) is Some
    &&& json_object(row.env@) is Ok
    &&& json_object(row.metadata@) is Ok
    &&& rfc3339_millis(row.created_at@) is Ok
    &&& rfc3339_millis(row.updated_at@) is Ok
}

/// The words of the refusal of a row: what could not be read, in the order
/// state, variables, metadata, creation time, update time, and why.
pub open spec fn refusal_of(row: SandboxRow) -> Seq<char> {
    if SandboxState::parse(row.state@) is None {
        "Invalid sandbox state: "@ + row.state@
    } else if json_object(row.env@) is Err {
        "Failed to parse env: "@ + json_object(row.env@)->Err_0
    } else if json_object(row.metadata@) is Err {
        "Failed to parse metadata: "@ + json_object(row.metadata@)->Err_0
    } else if rfc3339_millis(row.created_at@) is Err {
        "Failed to parse created_at: "@ + rfc3339_millis(row.created_at@)->Err_0
    } else if rfc3339_millis(row.updated_at@) is Err {
        "Failed to parse updated_at: "@ + rfc3339_millis(row.updated_at@)->Err_0
    } else {
        Seq::empty()
    }
}

impl Sandbox {
    /// Reads a sandbox from its row. A row that cannot be read is an
    /// internal error that says what could not be read.
    pub fn try_from(row: SandboxRow) -> (result: Result<Sandbox, Error>)
        ensures
            readable(row) ==> (result matches Ok(sandbox) && sandbox_of_row(row, sandbox)),
            !readable(row) ==> (result matches Err(Error::Internal(m)) && m@ == refusal_of(row)),
    {
        let state = match SandboxState::from_str(row.state.as_str()) {
            Some(state) => state,
            None => {
                return Err(
                    Error::Internal(concat2("Invalid sandbox state: ", row.state.as_str())),
                );
            },
        };
        let env = match parse_string_map(row.env.as_str()) {
            Ok(env) => env,
            Err(why) => {
                return Err(Error::Internal(concat2("Failed to parse env: ", why.as_str())));
            },
        };
        let metadata = match parse_string_map(row.metadata.as_str()) {
            Ok(metadata) => metadata,
            Err(why) => {
                return Err(Error::Internal(concat2("Failed to parse metadata: ", why.as_str())));
            },
        };
        let created_at = match read_time(row.created_at.as_str()) {
            Ok(time) => time,
            Err(why) => {
                return Err(
                    Error::Internal(concat2("Failed to parse created_at: ", why.as_str())),
                );
            },
        };
        let updated_at = match read_time(row.updated_at.as_str()) {
            Ok(time) => time,
            Err(why) => {
                return Err(
                    Error::Internal(concat2("Failed to parse updated_at: ", why.as_str())),
                );
            },
        };
        let timeout: u64 = if row.timeout >= 0 {
            row.timeout as u64
        } else {
            ((row.timeout - i64::MIN) as u64) + 0x8000_0000_0000_0000
        };
        Ok(
            Sandbox {
                id: row.id,
                workspace_id: row.workspace_id,
                name: row.name,
                template: row.template,
                state,
                container_id: row.container_id,
                env,
                metadata,
                nfs_url: row.nfs_url,
                created_at,
                updated_at,
                timeout,
                error_message: row.error_message,
            },
        )
    }

    /// Writes a sandbox as its row.
    pub fn to_row(&self) -> (row: SandboxRow)
        ensures
            row.id@ == self.id@,
            row.workspace_id@ == self.workspace_id@,
            opt_text(row.name) == opt_text(self.name),
            row.template@ == self.template@,
            row.state@ == self.state.name(),
            opt_text(row.container_id) == opt_text(self.container_id),
            row.env@ == json_text(self.env@),
            row.metadata@ == json_text(self.metadata@),
            opt_text(row.nfs_url) == opt_text(self.nfs_url),
            row.timeout == timeout_in_row(self.timeout),
            opt_text(row.error_message) == opt_text(self.error_message),
            row.created_at@ == time_text(self.created_at),
            row.updated_at@ == time_text(self.updated_at),
    {
        let timeout: i64 = if self.timeout <= 0x7fff_ffff_ffff_ffff {
            self.timeout as i64
        } else {
            ((self.timeout - 0x8000_0000_0000_0000) as i64) + i64::MIN
        };
        SandboxRow {
            id: self.id.clone(),
            workspace_id: self.workspace_id.clone(),
            name: crate::strings::clone_opt(&self.name),
            template: self.template.clone(),
            state: self.state.as_str().to_owned(),
            container_id: crate::strings::clone_opt(&self.container_id),
            env: string_map_json(&self.env),
            metadata: string_map_json(&self.metadata),
            nfs_url: crate::strings::clone_opt(&self.nfs_url),
            timeout,
            error_message: crate::strings::clone_opt(&self.error_message),
            created_at: format_time(self.created_at),
            updated_at: format_time(self.updated_at),
        }
    }
}

impl Workspace {
    /// Reads a workspace from its row. A row that cannot be read is an
    /// internal error that says what could not be read.
    pub fn try_from(row: WorkspaceRow) -> (result: Result<Workspace, Error>)
        ensures
            match json_object(row.metadata@) {
                Err(why) => result matches Err(Error::Internal(m)) && m@
                    == "Failed to parse metadata: "@ + why,
                Ok(metadata) => match rfc3339_millis(row.created_at@) {
                    Err(why) => result matches Err(Error::Internal(m)) && m@
                        == "Failed to parse created_at: "@ + why,
                    Ok(created_at) => match rfc3339_millis(row.updated_at@) {
                        Err(why) => result matches Err(Error::Internal(m)) && m@
                            == "Failed to parse updated_at: "@ + why,
                        Ok(updated_at) => result matches Ok(workspace) && workspace.id@ == row.id@
                            && opt_text(workspace.name) == opt_text(row.name) && opt_text(
                            workspace.nfs_url,
                        ) == opt_text(row.nfs_url) && workspace.metadata@ == metadata
                            && workspace.created_at == created_at && workspace.updated_at
                            == updated_at,
                    },
                },
            },
    {
        let metadata = match parse_string_map(row.metadata.as_str()) {
            Ok(metadata) => metadata,
            Err(why) => {
                return Err(Error::Internal(concat2("Failed to parse metadata: ", why.as_str())));
            },
        };
        let created_at = match read_time(row.created_at.as_str()) {
            Ok(time) => time,
            Err(why) => {
                return Err(
                    Error::Internal(concat2("Failed to parse created_at: ", why.as_str())),
                );
            },
        };
        let updated_at = match read_time(row.updated_at.as_str()) {
            Ok(time) => time,
            Err(why) => {
                return Err(
                    Error::Internal(concat2("Failed to parse updated_at: ", why.as_str())),
                );
            },
        };
        Ok(
            Workspace {
                id: row.id,
                name: row.name,
                nfs_url: row.nfs_url,
                metadata,
                created_at,
                updated_at,
            },
        )
    }

    /// Writes a workspace as its row.
    pub fn to_row(&self) -> (row: WorkspaceRow)
        ensures
            row.id@ == self.id@,
            opt_text(row.name) == opt_text(self.name),
            opt_text(row.nfs_url) == opt_text(self.nfs_url),
            row.metadata@ == json_text(self.metadata@),
            row.created_at@ == time_text(self.created_at),
            row.updated_at@ == time_text(self.updated_at),
    {
        WorkspaceRow {
            id: self.id.clone(),
            name: crate::strings::clone_opt(&self.name),
            nfs_url: crate::strings::clone_opt(&self.nfs_url),
            metadata: string_map_json(&self.metadata),
            created_at: format_time(self.created_at),
            updated_at: format_time(self.updated_at),
        }
    }
}

} // verus!
