//! Requests and replies of the file operations.

use vstd::prelude::*;

verus! {

/// File info response.
#[derive(Debug, Clone, PartialEq, Eq)]
pub struct FileInfoResponse {
    pub name: String,
    pub path: String,
    /// `file` or `directory`.
    pub file_type: String,
    pub size: u64,
    pub modified_at: Option<String>,
}

/// List files response.
#[derive(Debug, Clone, PartialEq, Eq)]
pub struct ListFilesResponse {
    pub files: Vec<FileInfoResponse>,
}

/// Read file response.
#[derive(Debug, Clone, PartialEq, Eq)]
pub struct ReadFileResponse {
    pub content: String,
}

/// Write file request.
#[derive(Debug, Clone, PartialEq, Eq)]
pub struct WriteFileRequest {
    pub content: String,
}

/// Mkdir request.
#[derive(Debug, Clone, PartialEq, Eq)]
pub struct MkdirRequest {
    pub path: String,
    pub recursive: Option<bool>,
}

/// Move/Copy request.
#[derive(Debug, Clone, PartialEq, Eq)]
pub struct MoveRequest {
    pub source: String,
    pub destination: String,
}

/// Path query parameter.
#[derive(Debug, Clone, PartialEq, Eq)]
pub struct PathQuery {
    pub path: String,
}

/// Delete query parameter.
#[derive(Debug, Clone, PartialEq, Eq)]
pub struct DeleteQuery {
    pub path: String,
    pub recursive: Option<String>,
}

/// Whether a flag of a query is set: it is, if it is given as `true`.
pub open spec fn flag_set(flag: Option<String>) -> bool {
    match flag {
        Some(text) => text@ == "true"@,
        None => false,
    }
}

/// Whether a flag of a query is set.
pub fn query_flag(flag: &Option<String>) -> (set: bool)
    ensures
        set == flag_set(*flag),
{
    match flag {
        Some(text) => crate::strings::str_eq(text.as_str(), "true"),
        None => false,
    }
}

/// The type of a directory entry, in words.
pub fn file_type_name(is_dir: bool) -> (name: String)
    ensures
        name@ == (if is_dir {
            "directory"@
        } else {
            "file"@
        }),
{
    if is_dir {
        "directory".to_owned()
    } else {
        "file".to_owned()
    }
}

} // verus!
