//! Client-side runtime for the Model Context Protocol (MCP): JSON-RPC 2.0
//! envelopes, transport session state, request correlation, capability
//! discovery, conformance validation and capability search.

pub mod json;
pub mod messages;
pub mod correlation;
pub mod errors;
pub mod transport;
pub mod sse;
pub mod session;
pub mod search;
pub mod tools;
pub mod client;
pub mod flow;
pub mod validation;
pub mod cli;
pub mod config;
pub mod paths;
pub mod discovery;
pub mod debugger;

pub use json::JsonValue;
