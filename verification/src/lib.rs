//! Verified core logic of the microsandbox sandbox manager.

pub mod cgroup;
pub mod cli;
pub mod config;
pub mod error;
pub mod home;
pub mod oci;
pub mod orchestra;
pub mod text;
pub mod toolchain;
pub mod port;
pub mod portal;
pub mod server;
pub mod supervisor;
