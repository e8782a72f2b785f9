//! The MCP server: its JSON-RPC messages and its tools.
pub mod op;
pub mod primitives;
