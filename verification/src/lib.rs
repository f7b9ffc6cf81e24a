//! A small server framework for named tools behind a JSON-RPC style
//! protocol.
//!
//! A [`Server`] holds a registry of [`Tool`]s and answers each request with
//! exactly one response. The transports in [`transport`] say what to do with
//! each line or message that comes in; reading and writing is left to the
//! program that runs the server.

pub mod bridge;
pub mod error;
pub mod example;
pub mod json;
pub mod server;
pub mod text;
pub mod tools;
pub mod transport;
pub mod types;

pub use error::{ErrorKind, McpError};
pub use json::Json;
pub use server::{BuildError, Server, ServerBuilder};
pub use tools::{Tool, ToolError, Tools};
pub use types::{
    Content, JsonRpcError, JsonRpcRequest, JsonRpcResponse, Prompt, PromptArgument, Resource,
    ServerCapabilities, ServerInfo, ToolDefinition,
};
