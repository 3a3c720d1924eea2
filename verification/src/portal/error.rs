//! Errors of the portal and the JSON-RPC replies that report them.

use vstd::prelude::*;
use vstd::string::StringExecFns;

use serde_json::Value;

use crate::server::payload::{JsonRpcError, JsonRpcResponse};

verus! {

/// Main error type for microsandbox portal
#[derive(Debug)]
pub enum PortalError {
    /// Error related to JSON-RPC protocol
    JsonRpc(String),
    /// Method not found
    MethodNotFound(String),
    /// Internal server error
    Internal(String),
    /// Error during parsing
    Parse(String),
}

/// The text of a portal error.
pub open spec fn portal_error_text(e: PortalError) -> Seq<char> {
    match e {
        PortalError::JsonRpc(m) => "JSON-RPC error: "@ + m@,
        PortalError::MethodNotFound(m) => "Method not found: "@ + m@,
        PortalError::Internal(m) => "Internal server error: "@ + m@,
        PortalError::Parse(m) => "Parse error: "@ + m@,
    }
}

/// The JSON-RPC error code of a portal error.
pub open spec fn portal_error_code(e: PortalError) -> int {
    match e {
        PortalError::JsonRpc(_) => -32600,
        PortalError::MethodNotFound(_) => -32601,
        PortalError::Internal(_) => -32603,
        PortalError::Parse(_) => -32700,
    }
}

/// The HTTP status with which a portal error is answered on its own.
pub open spec fn portal_error_status(e: PortalError) -> u16 {
    match e {
        PortalError::JsonRpc(_) => 400,
        PortalError::MethodNotFound(_) => 404,
        PortalError::Internal(_) => 500,
        PortalError::Parse(_) => 400,
    }
}

/// The message a portal error carries.
pub open spec fn portal_error_message(e: PortalError) -> Seq<char> {
    match e {
        PortalError::JsonRpc(m) => m@,
        PortalError::MethodNotFound(m) => m@,
        PortalError::Internal(m) => m@,
        PortalError::Parse(m) => m@,
    }
}

impl PortalError {
    /// The text of the error.
    pub fn to_string(&self) -> (r: String)
        ensures
            r@ == portal_error_text(*self),
    {
        match self {
            PortalError::JsonRpc(m) => String::from_str("JSON-RPC error: ").concat(m.as_str()),
            PortalError::MethodNotFound(m) => String::from_str("Method not found: ").concat(m.as_str()),
            PortalError::Internal(m) => String::from_str("Internal server error: ").concat(m.as_str()),
            PortalError::Parse(m) => String::from_str("Parse error: ").concat(m.as_str()),
        }
    }

    /// The HTTP status and JSON-RPC error with which the error is answered when
    /// a handler returns it: the error's code, and its message without prefix.
    pub fn into_response(self) -> (r: (u16, JsonRpcError))
        ensures
            r.0 == portal_error_status(self),
            r.1.code == portal_error_code(self),
            r.1.message@ == portal_error_message(self),
            r.1.data is None,
    {
        match self {
            PortalError::JsonRpc(message) => (400, JsonRpcError { code: -32600, message, data: None }),
            PortalError::MethodNotFound(message) => (
                404,
                JsonRpcError { code: -32601, message, data: None },
            ),
            PortalError::Parse(message) => (400, JsonRpcError { code: -32700, message, data: None }),
            PortalError::Internal(message) => (500, JsonRpcError { code: -32603, message, data: None }),
        }
    }
}

/// Helper function to create a JSON-RPC error response from a PortalError: the
/// error's code, its full text as message, and status 400 whatever the error.
pub fn create_error_response(error: PortalError, id: Option<Value>) -> (r: (u16, JsonRpcResponse))
    ensures
        r.0 == 400,
        r.1.jsonrpc@ == "2.0"@,
        r.1.result is None,
        r.1.id == id,
        r.1.error matches Some(e) && e.code == portal_error_code(error) && e.message@
            == portal_error_text(error) && e.data is None,
{
    let code: i32 = match &error {
        PortalError::JsonRpc(_) => -32600,
        PortalError::MethodNotFound(_) => -32601,
        PortalError::Parse(_) => -32700,
        PortalError::Internal(_) => -32603,
    };
    let json_rpc_error = JsonRpcError { code, message: error.to_string(), data: None };
    (400, JsonRpcResponse::error(json_rpc_error, id))
}

} // verus!
