//! The portal that runs inside a sandbox: it evaluates code in language REPLs
//! and runs commands, and answers JSON-RPC requests about both.

pub mod command;
pub mod error;
pub mod handler;
pub mod repl;
