//! The Model Context Protocol server: what it announces, which tools it
//! offers, and how it answers a tool call.
pub mod call;
pub mod call_id;
pub mod data_url;
pub mod results;
pub mod server;
pub mod tools;
