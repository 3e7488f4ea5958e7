//! Requests and replies of the terminal operations.

use vstd::prelude::*;
use crate::types::{PtyInfo, PtyOptions};

verus! {

/// Create PTY request.
#[derive(Debug, Clone, PartialEq, Eq)]
pub struct CreatePtyRequest {
    pub cols: Option<u16>,
    pub rows: Option<u16>,
    pub shell: Option<String>,
    pub env: Option<crate::string_map::StringMap>,
}

/// PTY response.
#[derive(Debug, Clone, PartialEq, Eq)]
pub struct PtyResponse {
    pub id: String,
    pub cols: u16,
    pub rows: u16,
}

/// Resize PTY request.
#[derive(Debug, Clone, PartialEq, Eq)]
pub struct ResizePtyRequest {
    pub cols: u16,
    pub rows: u16,
}

impl CreatePtyRequest {
    /// The options that the request stands for.
    pub fn into_options(self) -> (opts: PtyOptions)
        ensures
            opts.cols == self.cols,
            opts.rows == self.rows,
            opts.shell == self.shell,
            opts.env == self.env,
    {
        PtyOptions { cols: self.cols, rows: self.rows, shell: self.shell, env: self.env }
    }
}

impl PtyResponse {
    /// The reply for a terminal.
    pub fn from_info(info: PtyInfo) -> (reply: Self)
        ensures
            reply.id == info.id,
            reply.cols == info.cols,
            reply.rows == info.rows,
    {
        PtyResponse { id: info.id, cols: info.cols, rows: info.rows }
    }
}

} // verus!
