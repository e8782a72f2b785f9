//! A JSON-RPC (MCP) server that exposes corporate business metrics.
//!
//! The verified library holds the server's decisions: how a request head
//! is read and checked, how a JSON-RPC message is dispatched and answered,
//! how tool arguments are routed, and the metric reports that need no
//! floating point. The program around it (sockets, files, serde) lives in
//! `app/`.
use vstd::prelude::*;

pub mod config;
pub mod http_engine;
pub mod json;
pub mod server;
pub mod text;

verus! {

/// The server as a whole; it is started by the program in `app/`.
pub struct CorpoMCP;

} // verus!
