//! The server's configuration: its key, project directory, mode and address.

use vstd::prelude::*;

use crate::server::error::MicrosandboxServerError;
use crate::server::management::{config_key, invalid_host};

verus! {

/// The settings the server runs with.
pub struct Config {
    /// Secret key used for JWT token generation and validation
    key: Option<String>,
    /// Project directory for storing sandbox configurations and state
    project_dir: String,
    /// Whether to run the server in development mode
    dev_mode: bool,
    /// Host address to listen on
    host: String,
    /// Port number to listen on
    port: u16,
}

impl Config {
    /// The key.
    pub closed spec fn key_spec(&self) -> Option<String> {
        self.key
    }

    /// The project directory.
    pub closed spec fn project_dir_spec(&self) -> Seq<char> {
        self.project_dir@
    }

    /// Whether the server runs in development mode.
    pub closed spec fn dev_mode_spec(&self) -> bool {
        self.dev_mode
    }

    /// The host address.
    pub closed spec fn host_spec(&self) -> Seq<char> {
        self.host@
    }

    /// The port.
    pub closed spec fn port_spec(&self) -> u16 {
        self.port
    }

    /// Create a configuration. A key is required unless in development mode,
    /// and the host must be an IP address (`host_is_address`, which the caller
    /// finds out by parsing it). The project directory is the one given, else
    /// `default_project_dir` (the projects directory under the microsandbox home).
    pub fn new(
        key: Option<String>,
        host: String,
        port: u16,
        project_dir: Option<String>,
        default_project_dir: String,
        dev_mode: bool,
        host_is_address: bool,
    ) -> (r: Result<Config, MicrosandboxServerError>)
        ensures
            key is None && !dev_mode ==> (r matches Err(MicrosandboxServerError::ConfigError(m)) && m@
                == "No key provided. A key is required when not in dev mode"@),
            (key is Some || dev_mode) && !host_is_address ==> (r matches Err(
                MicrosandboxServerError::ConfigError(m),
            ) && m@ == "Invalid host address: "@ + host@),
            (key is Some || dev_mode) && host_is_address ==> (r matches Ok(c) && c.key_spec() == key
                && c.host_spec() == host@ && c.port_spec() == port && c.dev_mode_spec() == dev_mode
                && c.project_dir_spec() == match project_dir {
                Some(p) => p@,
                None => default_project_dir@,
            }),
    {
        let key = config_key(key, dev_mode)?;
        if !host_is_address {
            return Err(invalid_host(host.as_str()));
        }
        let project_dir = match project_dir {
            Some(p) => p,
            None => default_project_dir,
        };
        Ok(Config { key, project_dir, dev_mode, host, port })
    }

    /// The key.
    pub fn get_key(&self) -> (r: &Option<String>)
        ensures
            *r == self.key_spec(),
    {
        &self.key
    }

    /// The project directory.
    pub fn get_project_dir(&self) -> (r: &str)
        ensures
            r@ == self.project_dir_spec(),
    {
        self.project_dir.as_str()
    }

    /// Whether the server runs in development mode.
    pub fn get_dev_mode(&self) -> (r: bool)
        ensures
            r == self.dev_mode_spec(),
    {
        self.dev_mode
    }

    /// The host address.
    pub fn get_host(&self) -> (r: &str)
        ensures
            r@ == self.host_spec(),
    {
        self.host.as_str()
    }

    /// The port.
    pub fn get_port(&self) -> (r: u16)
        ensures
            r == self.port_spec(),
    {
        self.port
    }
}

} // verus!
