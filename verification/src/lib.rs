//! A proxy between an MCP client on stdin and stdout and an MCP server behind HTTP.
//!
//! The proxy answers a client before its server has come up, keeps what the client sends
//! while the server is gone, and reconnects. This library holds its decisions: each
//! handler takes an event and the state, and gives the next state and what is to be done.
//! The program around it sends, receives, waits and reads files.
pub mod cache;
pub mod cli;
pub mod laws;
pub mod message;
pub mod model;
pub mod outside;
pub mod relay;
pub mod state;
