//! Request and response payloads of the server's JSON-RPC interface.
//!
//! JSON values (`params`, `id`, `result`, `data`) are carried as
//! `serde_json::Value`; what the server reads of them goes through the
//! accessors below, whose results are named.

use vstd::prelude::*;
use vstd::string::StringExecFns;

use serde_json::Value;

verus! {

#[verifier::external_type_specification]
#[verifier::external_body]
pub struct ExJsonValue(Value);

/// Calls `Clone::clone` on a JSON value. `serde_json::Value` derives `Clone`,
/// which copies the value as it is: the contract says the copy equals the original.
#[verifier::external_body]
pub(crate) fn clone_json_value(v: &Value) -> (r: Value)
    ensures
        r == *v,
{
    v.clone()
}

/// Copies an optional JSON value.
pub fn clone_json_option(v: &Option<Value>) -> (r: Option<Value>)
    ensures
        r == *v,
{
    match v {
        Some(x) => Some(clone_json_value(x)),
        None => None,
    }
}

/// Names the member `key` of a JSON value, as `serde_json::Value::get` finds it
/// with a string key: the member of an object, `None` where an object has no
/// such member or the value is not an object.
pub uninterp spec fn json_member(v: Value, key: Seq<char>) -> Option<Value>;

/// Names the text of a JSON value, as `serde_json::Value::as_str` gives it: the
/// text of a string, `None` for any other value.
pub uninterp spec fn json_text(v: Value) -> Option<Seq<char>>;

/// Names whether a JSON value is an object, as `serde_json::Value::is_object`
/// tells.
pub uninterp spec fn json_object(v: Value) -> bool;

/// Calls `serde_json::Value::get` with a string key. The member it finds is
/// named by `json_member`.
#[verifier::external_body]
pub(crate) fn json_get<'a>(v: &'a Value, key: &str) -> (r: Option<&'a Value>)
    ensures
        match r {
            Some(m) => json_member(*v, key@) == Some(*m),
            None => json_member(*v, key@) is None,
        },
{
    v.get(key)
}

/// Calls `serde_json::Value::as_str`. The text it gives is named by `json_text`.
#[verifier::external_body]
pub(crate) fn json_as_str(v: &Value) -> (r: Option<&str>)
    ensures
        match r {
            Some(t) => json_text(*v) == Some(t@),
            None => json_text(*v) is None,
        },
{
    v.as_str()
}

/// Calls `serde_json::Value::is_object`. The answer is named by `json_object`.
#[verifier::external_body]
pub(crate) fn json_is_object(v: &Value) -> (r: bool)
    ensures
        r == json_object(*v),
{
    v.is_object()
}

/// The text of the member `key` of a JSON value, where it has one that is a string.
pub open spec fn member_text(v: Value, key: Seq<char>) -> Option<Seq<char>> {
    match json_member(v, key) {
        Some(m) => json_text(m),
        None => None,
    }
}

/// An optional string holds the optional text.
pub open spec fn holds_text(s: Option<String>, t: Option<Seq<char>>) -> bool {
    match s {
        Some(x) => t == Some(x@),
        None => t is None,
    }
}

/// The text of the member `key` of a JSON value, where it has one that is a string.
pub fn member_string(v: &Value, key: &str) -> (r: Option<String>)
    ensures
        holds_text(r, member_text(*v, key@)),
{
    match json_get(v, key) {
        Some(m) => match json_as_str(m) {
            Some(t) => Some(String::from_str(t)),
            None => None,
        },
        None => None,
    }
}

/// JSON-RPC version - always "2.0"
pub const JSONRPC_VERSION: &'static str = "2.0";

/// JSON-RPC request structure
#[derive(Debug)]
pub struct JsonRpcRequest {
    /// JSON-RPC version, must be "2.0"
    pub jsonrpc: String,
    /// Method name
    pub method: String,
    /// Optional parameters for the method
    pub params: Value,
    /// Request ID (optional for notifications)
    pub id: Option<Value>,
}

/// JSON-RPC notification structure (no id field, no response expected)
pub struct JsonRpcNotification {
    /// JSON-RPC version, must be "2.0"
    pub jsonrpc: String,
    /// Method name
    pub method: String,
    /// Optional parameters for the method
    pub params: Value,
}

/// JSON-RPC response structure
#[derive(Debug)]
pub struct JsonRpcResponse {
    /// JSON-RPC version, always "2.0"
    pub jsonrpc: String,
    /// Result of the method execution (if successful)
    pub result: Option<Value>,
    /// Error details (if failed)
    pub error: Option<JsonRpcError>,
    /// Response ID (same as request ID, optional for notifications)
    pub id: Option<Value>,
}

/// JSON-RPC error structure
#[derive(Debug)]
pub struct JsonRpcError {
    /// Error code
    pub code: i32,
    /// Error message
    pub message: String,
    /// Optional error data
    pub data: Option<Value>,
}

/// JSON-RPC response or notification result
/// This enum allows handlers to return either a response (for regular requests)
/// or no response (for notifications) while maintaining type safety
#[derive(Debug)]
pub enum JsonRpcResponseOrNotification {
    /// A regular JSON-RPC response
    Response(JsonRpcResponse),
    /// A processed notification (no response should be sent)
    Notification(ProcessedNotification),
}

/// Represents a processed JSON-RPC notification (no response expected)
#[derive(Debug)]
pub struct ProcessedNotification {
    /// Indicates this was a notification that was processed
    pub processed: bool,
}

/// Request payload for starting a sandbox
pub struct SandboxStartParams {
    /// Sandbox name
    pub sandbox: String,
    /// Optional sandbox configuration
    pub config: Option<SandboxConfig>,
}

/// Request payload for stopping a sandbox
pub struct SandboxStopParams {
    /// Sandbox name
    pub sandbox: String,
}

/// Request payload for getting sandbox metrics
pub struct SandboxMetricsGetParams {
    /// Optional sandbox name - if not provided, all sandboxes will be included
    pub sandbox: Option<String>,
}

/// Configuration for a sandbox
/// Similar to the core sandbox configuration but with optional fields for update operations
pub struct SandboxConfig {
    /// The image to use (optional for updates)
    pub image: Option<String>,
    /// The amount of memory in MiB to use
    pub memory: Option<u32>,
    /// The number of vCPUs to use
    pub cpus: Option<u8>,
    /// The volumes to mount
    pub volumes: Vec<String>,
    /// The ports to expose
    pub ports: Vec<String>,
    /// The environment variables to use
    pub envs: Vec<String>,
    /// The sandboxes to depend on
    pub depends_on: Vec<String>,
    /// The working directory to use
    pub workdir: Option<String>,
    /// The shell to use (optional for updates)
    pub shell: Option<String>,
    /// The scripts that can be run (name, script)
    pub scripts: Vec<(String, String)>,
    /// The exec command to run (the `exec` field of the request)
    pub exec_command: Option<String>,
}

/// Request parameters for executing code in a REPL environment
pub struct SandboxReplRunParams {
    /// Sandbox name
    pub sandbox: String,
    /// Code to be executed
    pub code: String,
    /// Programming language to use for execution
    pub language: String,
}

/// Request parameters for retrieving output from a previous REPL execution
pub struct SandboxReplGetOutputParams {
    /// Unique identifier for the execution
    pub execution_id: String,
}

/// Request parameters for executing a shell command
pub struct SandboxCommandRunParams {
    /// Sandbox name
    pub sandbox: String,
    /// Command to execute
    pub command: String,
    /// Optional arguments for the command
    pub args: Vec<String>,
    /// Optional timeout in seconds
    pub timeout: Option<i32>,
}

/// Request parameters for retrieving output from a previous command execution
pub struct SandboxCommandGetOutputParams {
    /// Unique identifier for the command execution
    pub execution_id: String,
}

/// Response type for regular message responses
pub struct RegularMessageResponse {
    /// Message indicating the status of the sandbox operation
    pub message: String,
}

/// System status response
pub struct SystemStatusResponse {}

/// Sandbox configuration response
pub struct SandboxConfigResponse {}

impl JsonRpcRequest {
    /// Create a new JSON-RPC request
    pub fn new(method: String, params: Value, id: Value) -> (r: Self)
        ensures
            r.jsonrpc@ == "2.0"@,
            r.method == method,
            r.params == params,
            r.id == Some(id),
    {
        JsonRpcRequest { jsonrpc: String::from_str(JSONRPC_VERSION), method, params, id: Some(id) }
    }

    /// Create a new JSON-RPC notification (no response expected)
    pub fn new_notification(method: String, params: Value) -> (r: Self)
        ensures
            r.jsonrpc@ == "2.0"@,
            r.method == method,
            r.params == params,
            r.id is None,
    {
        JsonRpcRequest { jsonrpc: String::from_str(JSONRPC_VERSION), method, params, id: None }
    }

    /// Check if this is a notification (no id field)
    pub fn is_notification(&self) -> (r: bool)
        ensures
            r == self.id is None,
    {
        self.id.is_none()
    }
}

impl ProcessedNotification {
    /// Create a new processed notification marker
    pub fn processed() -> (r: Self)
        ensures
            r.processed,
    {
        ProcessedNotification { processed: true }
    }
}

impl JsonRpcResponse {
    /// Create a new successful JSON-RPC response
    pub fn success(result: Value, id: Option<Value>) -> (r: Self)
        ensures
            r.jsonrpc@ == "2.0"@,
            r.result == Some(result),
            r.error is None,
            r.id == id,
    {
        JsonRpcResponse {
            jsonrpc: String::from_str(JSONRPC_VERSION),
            result: Some(result),
            error: None,
            id,
        }
    }

    /// Create a new error JSON-RPC response
    pub fn error(error: JsonRpcError, id: Option<Value>) -> (r: Self)
        ensures
            r.jsonrpc@ == "2.0"@,
            r.result is None,
            r.error == Some(error),
            r.id == id,
    {
        JsonRpcResponse {
            jsonrpc: String::from_str(JSONRPC_VERSION),
            result: None,
            error: Some(error),
            id,
        }
    }
}

impl JsonRpcResponseOrNotification {
    /// Create a successful response
    pub fn success(result: Value, id: Option<Value>) -> (r: Self)
        ensures
            r matches JsonRpcResponseOrNotification::Response(resp) && resp.jsonrpc@ == "2.0"@
                && resp.result == Some(result) && resp.error is None && resp.id == id,
    {
        JsonRpcResponseOrNotification::Response(JsonRpcResponse::success(result, id))
    }

    /// Create an error response
    pub fn error(error: JsonRpcError, id: Option<Value>) -> (r: Self)
        ensures
            r matches JsonRpcResponseOrNotification::Response(resp) && resp.jsonrpc@ == "2.0"@
                && resp.result is None && resp.error == Some(error) && resp.id == id,
    {
        JsonRpcResponseOrNotification::Response(JsonRpcResponse::error(error, id))
    }

    /// Create a response from a JsonRpcResponse
    pub fn response(response: JsonRpcResponse) -> (r: Self)
        ensures
            r == JsonRpcResponseOrNotification::Response(response),
    {
        JsonRpcResponseOrNotification::Response(response)
    }

    /// Create a notification result (no response)
    pub fn notification(notification: ProcessedNotification) -> (r: Self)
        ensures
            r == JsonRpcResponseOrNotification::Notification(notification),
    {
        JsonRpcResponseOrNotification::Notification(notification)
    }

    /// Create a no-response result for notifications (deprecated - use notification() instead)
    pub fn no_response() -> (r: Self)
        ensures
            r matches JsonRpcResponseOrNotification::Notification(n) && n.processed,
    {
        JsonRpcResponseOrNotification::Notification(ProcessedNotification::processed())
    }

    /// The HTTP status of the reply (always 200) and whether it has a JSON body:
    /// a notification is answered with an empty body.
    pub fn http_reply(&self) -> (r: (u16, bool))
        ensures
            r == (200u16, self is Response),
    {
        match self {
            JsonRpcResponseOrNotification::Response(_) => (200, true),
            JsonRpcResponseOrNotification::Notification(_) => (200, false),
        }
    }
}

} // verus!
