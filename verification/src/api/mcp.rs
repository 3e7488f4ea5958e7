//! The tool surface for assistants: its profiles, the parameters of its
//! tools, and the commands that its file tools run in a sandbox.

pub mod profile;
pub mod tools;
pub mod types;
