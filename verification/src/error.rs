//! Error type of the sandbox core logic.

use vstd::prelude::*;

verus! {

#[verifier::external_type_specification]
#[verifier::external_body]
pub struct ExParseError(oci_client::ParseError);

/// Errors of the sandbox core logic.
#[derive(Debug)]
pub enum MicrosandboxError {
    /// An argument that the operation cannot accept.
    InvalidArgument(String),
    /// A sandbox defines neither a start script, nor a command, nor a shell.
    MissingStartOrExecOrShell,
    /// The named script is not defined for the named sandbox (script, sandbox).
    ScriptNotFoundInSandbox(String, String),
    /// A network scope name or number that is not known.
    InvalidNetworkScope(String),
    /// An image reference that the OCI reference grammar rejects.
    ImageReference(oci_client::ParseError),
    /// Sandboxes that the configuration does not define (names joined by ", ", config path).
    SandboxNotFoundInConfig(String, String),
    /// Supervised sandboxes that failed.
    SupervisorError(String),
    /// A path that does not exist.
    PathNotFound(String),
    /// A command of this name already exists.
    CommandExists(String),
    /// Extracting an image layer failed.
    LayerExtraction(String),
    /// Downloading an image layer failed.
    ImageLayerDownloadFailed(String),
}

} // verus!
