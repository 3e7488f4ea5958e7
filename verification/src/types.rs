//! Common domain types.

use vstd::prelude::*;
use crate::string_map::StringMap;

verus! {

/// The columns of a terminal where none are asked for.
pub const DEFAULT_PTY_COLS: u16 = 80;

/// The rows of a terminal where none are asked for.
pub const DEFAULT_PTY_ROWS: u16 = 24;

/// Command result.
#[derive(Debug, Clone, PartialEq, Eq)]
pub struct CommandResult {
    pub exit_code: i32,
    pub stdout: String,
    pub stderr: String,
}

/// Process event types for streaming.
#[derive(Debug, Clone, PartialEq, Eq)]
pub enum ProcessEvent {
    Stdout { data: String },
    Stderr { data: String },
    Exit { code: i32 },
    Error { message: String },
}

/// A process event, as plain values.
pub enum ProcessEventView {
    Stdout { data: Seq<char> },
    Stderr { data: Seq<char> },
    Exit { code: i32 },
    Error { message: Seq<char> },
}

impl View for ProcessEvent {
    type V = ProcessEventView;

    open spec fn view(&self) -> ProcessEventView {
        match self {
            ProcessEvent::Stdout { data } => ProcessEventView::Stdout { data: data@ },
            ProcessEvent::Stderr { data } => ProcessEventView::Stderr { data: data@ },
            ProcessEvent::Exit { code } => ProcessEventView::Exit { code: *code },
            ProcessEvent::Error { message } => ProcessEventView::Error { message: message@ },
        }
    }
}

/// PTY options.
#[derive(Debug, Clone, PartialEq, Eq)]
pub struct PtyOptions {
    pub cols: Option<u16>,
    pub rows: Option<u16>,
    pub shell: Option<String>,
    pub env: Option<StringMap>,
}

impl Default for PtyOptions {
    /// A terminal of 80 columns and 24 rows, with the agent's own shell and
    /// no variables.
    fn default() -> (opts: Self)
        ensures
            opts.cols == Some(DEFAULT_PTY_COLS),
            opts.rows == Some(DEFAULT_PTY_ROWS),
            opts.shell is None,
            opts.env is None,
    {
        PtyOptions {
            cols: Some(DEFAULT_PTY_COLS),
            rows: Some(DEFAULT_PTY_ROWS),
            shell: None,
            env: None,
        }
    }
}

/// PTY info.
#[derive(Debug, Clone, PartialEq, Eq)]
pub struct PtyInfo {
    pub id: String,
    pub sandbox_id: String,
    pub cols: u16,
    pub rows: u16,
}

} // verus!
