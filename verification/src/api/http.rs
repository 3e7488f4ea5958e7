//! Requests and replies of the HTTP surface.

pub mod filesystem;
pub mod process;
pub mod pty;
pub mod sandbox;
pub mod workspace;
