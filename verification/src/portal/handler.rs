//! How the portal answers a JSON-RPC request before and after the work it asks for.

use vstd::prelude::*;
use vstd::string::StringExecFns;

use crate::portal::error::{create_error_response, PortalError};
use crate::portal::repl::{engine_error_text, EngineError};
use crate::server::payload::clone_json_option;
use crate::server::payload::{JsonRpcError, JsonRpcRequest, JsonRpcResponse};
use crate::server::rpc::is_error_reply;
use crate::text::str_equal;

verus! {

/// What the portal does with a JSON-RPC request.
pub enum PortalDispatch {
    /// Reply at once with this HTTP status and response.
    Reply(u16, JsonRpcResponse),
    /// Evaluate code in a REPL (`sandbox.repl.run`).
    ReplRun,
    /// Run a command (`sandbox.command.run`).
    CommandRun,
}

/// Route a JSON-RPC request to the portal: check the version, then the method.
pub fn dispatch_portal_request(request: &JsonRpcRequest) -> (r: PortalDispatch)
    ensures
        request.jsonrpc@ != "2.0"@ ==> (r matches PortalDispatch::Reply(status, resp) && status == 400
            && is_error_reply(resp, -32600, "Invalid or missing jsonrpc version field"@, request.id)),
        request.jsonrpc@ == "2.0"@ ==> (if request.method@ == "sandbox.repl.run"@ {
            r is ReplRun
        } else if request.method@ == "sandbox.command.run"@ {
            r is CommandRun
        } else {
            r matches PortalDispatch::Reply(status, resp) && status == 400 && is_error_reply(
                resp,
                -32601,
                "Method not found: "@ + ("Method not found: "@ + request.method@),
                request.id,
            )
        }),
{
    if !str_equal(request.jsonrpc.as_str(), "2.0") {
        let error = JsonRpcError {
            code: -32600,
            message: String::from_str("Invalid or missing jsonrpc version field"),
            data: None,
        };
        return PortalDispatch::Reply(400, JsonRpcResponse::error(error, clone_json_option(&request.id)));
    }
    let method = request.method.as_str();
    if str_equal(method, "sandbox.repl.run") {
        PortalDispatch::ReplRun
    } else if str_equal(method, "sandbox.command.run") {
        PortalDispatch::CommandRun
    } else {
        let error = PortalError::MethodNotFound(String::from_str("Method not found: ").concat(method));
        let (status, resp) = create_error_response(error, clone_json_option(&request.id));
        PortalDispatch::Reply(status, resp)
    }
}

/// The error of a request whose params do not parse.
pub fn invalid_parameters(parse_error: &str) -> (r: PortalError)
    ensures
        r matches PortalError::JsonRpc(m) && m@ == "Invalid parameters: "@ + parse_error@,
{
    PortalError::JsonRpc(String::from_str("Invalid parameters: ").concat(parse_error))
}

/// The error of a REPL request whose engines failed to start.
pub fn engine_start_failure(error: &EngineError) -> (r: PortalError)
    ensures
        r matches PortalError::Internal(m) && m@ == "Failed to start engines: "@ + engine_error_text(*error),
{
    PortalError::Internal(String::from_str("Failed to start engines: ").concat(error.to_string().as_str()))
}

} // verus!
