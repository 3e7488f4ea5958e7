//! The types of the outer surfaces, and how they turn into the terms of the
//! services.

pub mod http;
pub mod mcp;
