//! Logic of the sandbox server: errors, API keys, JSON-RPC and MCP dispatch,
//! sandbox names and portal ports.

pub mod error;
pub mod management;
pub mod auth;
pub mod config;
pub mod payload;
pub mod rpc;
pub mod sandbox;
pub mod token;
