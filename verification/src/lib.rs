//! The decisions behind Koharu's Model Context Protocol server and its Torch
//! runtime: what is announced, which tool call reaches the agent and how it is
//! answered, which Torch build suits a machine, where it comes from and what it
//! is made of. Input and output are left to the caller.
pub mod json;
pub mod mcp;
pub mod runtime;
pub mod text;

pub use mcp::server::DEFAULT_PORT;
pub use runtime::config::{RuntimeConfig, TorchSource};
pub use runtime::torch::Torch;
