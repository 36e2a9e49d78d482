//! Model Context Protocol client core.
//!
//! What an MCP client decides and computes, without input or output:
//!
//! - [`protocol`]: JSON-RPC messages, how they are written and what a server's messages mean;
//! - [`client`]: which requests are under way, and who is to be told of each message;
//! - [`connection`]: the handshake, and what is known of a server after it;
//! - [`transport`]: how messages become lines, HTTP requests and event streams, and back;
//! - [`types`]: what servers offer and answer, and its form in JSON;
//! - [`tool_name`]: names of tools that tell which server a tool belongs to;
//! - [`laws`]: what holds of each operation.
//!
//! Whoever owns the pipes and sockets performs what these say, and reports back what happened.

pub mod client;
pub mod connection;
pub mod error;
pub mod json;
pub mod laws;
pub mod protocol;
pub mod record;
pub mod text;
pub mod tool_name;
pub mod transport;
pub mod types;

pub use client::McpClient;
pub use connection::{McpConnection, McpConnectionState};
pub use error::McpError;
pub use json::Json;
pub use types::{
    CallToolResult, ClientInfo, InitializeResult, McpAnnotations, McpContent, McpNotification,
    McpPrompt, McpResource, McpTool, ReadResourceResult,
};
