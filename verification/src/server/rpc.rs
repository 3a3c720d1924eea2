//! Dispatch of JSON-RPC and MCP requests, and the replies the server builds
//! itself.

use vstd::prelude::*;
use vstd::string::StringExecFns;

use serde_json::Value;

use crate::server::error::{server_error_text, ServerError, ValidationError};
use crate::server::payload::{
    clone_json_option, clone_json_value, holds_text, json_get, json_is_object, json_member,
    json_object, member_string, member_text, JsonRpcError, JsonRpcRequest, JsonRpcResponse,
    JsonRpcResponseOrNotification, JSONRPC_VERSION,
};
use crate::text::str_equal;

verus! {

//--------------------------------------------------------------------------------------------------
// Replies
//--------------------------------------------------------------------------------------------------

/// `resp` is a JSON-RPC error reply with this code, message and id, and no data.
pub open spec fn is_error_reply(resp: JsonRpcResponse, code: int, message: Seq<char>, id: Option<Value>) -> bool {
    &&& resp.jsonrpc@ == "2.0"@
    &&& resp.result is None
    &&& resp.error matches Some(e) && e.code == code && e.message@ == message && e.data is None
    &&& resp.id == id
}

/// Builds a JSON-RPC error reply.
pub fn error_reply(code: i32, message: String, id: Option<Value>) -> (r: JsonRpcResponse)
    ensures
        is_error_reply(r, code as int, message@, id),
{
    JsonRpcResponse::error(JsonRpcError { code, message, data: None }, id)
}

//--------------------------------------------------------------------------------------------------
// JSON-RPC
//--------------------------------------------------------------------------------------------------

/// What the server does with a JSON-RPC request.
pub enum RpcDispatch {
    /// Reply at once with this HTTP status and response.
    Reply(u16, JsonRpcResponse),
    /// Parse the params and start a sandbox (`sandbox.start`).
    SandboxStart,
    /// Parse the params and stop a sandbox (`sandbox.stop`).
    SandboxStop,
    /// Parse the params and collect sandbox metrics (`sandbox.metrics.get`).
    SandboxMetricsGet,
    /// Forward the request to the sandbox's portal (`sandbox.repl.run`, `sandbox.command.run`).
    ForwardToPortal,
}

/// The method is one that the portal inside a sandbox serves.
pub open spec fn is_portal_method(method: Seq<char>) -> bool {
    method == "sandbox.repl.run"@ || method == "sandbox.command.run"@
}

/// Main JSON-RPC dispatch: checks the version, then routes by method.
pub fn dispatch_json_rpc(request: &JsonRpcRequest) -> (r: RpcDispatch)
    ensures
        request.jsonrpc@ != "2.0"@ ==> (r matches RpcDispatch::Reply(status, resp) && status == 400
            && is_error_reply(resp, -32600, "Invalid or missing jsonrpc version field"@, request.id)),
        request.jsonrpc@ == "2.0"@ ==> (if request.method@ == "sandbox.start"@ {
            r is SandboxStart
        } else if request.method@ == "sandbox.stop"@ {
            r is SandboxStop
        } else if request.method@ == "sandbox.metrics.get"@ {
            r is SandboxMetricsGet
        } else if is_portal_method(request.method@) {
            r is ForwardToPortal
        } else {
            r matches RpcDispatch::Reply(status, resp) && status == 404 && is_error_reply(
                resp,
                -32601,
                "Method not found: "@ + request.method@,
                request.id,
            )
        }),
{
    if !str_equal(request.jsonrpc.as_str(), "2.0") {
        return RpcDispatch::Reply(
            400,
            error_reply(
                -32600,
                String::from_str("Invalid or missing jsonrpc version field"),
                clone_json_option(&request.id),
            ),
        );
    }
    let method = request.method.as_str();
    if str_equal(method, "sandbox.start") {
        RpcDispatch::SandboxStart
    } else if str_equal(method, "sandbox.stop") {
        RpcDispatch::SandboxStop
    } else if str_equal(method, "sandbox.metrics.get") {
        RpcDispatch::SandboxMetricsGet
    } else if str_equal(method, "sandbox.repl.run") || str_equal(method, "sandbox.command.run") {
        RpcDispatch::ForwardToPortal
    } else {
        RpcDispatch::Reply(
            404,
            error_reply(
                -32601,
                String::from_str("Method not found: ").concat(method),
                clone_json_option(&request.id),
            ),
        )
    }
}

/// The error for params that do not parse as the method's parameters.
pub fn invalid_params_error(method: &str, parse_error: &str) -> (r: ServerError)
    ensures
        r matches ServerError::ValidationError(ValidationError::InvalidInput(m)) && m@
            == "Invalid params for "@ + method@ + ": "@ + parse_error@,
{
    ServerError::ValidationError(
        ValidationError::InvalidInput(
            String::from_str("Invalid params for ").concat(method).concat(": ").concat(parse_error),
        ),
    )
}

//--------------------------------------------------------------------------------------------------
// MCP
//--------------------------------------------------------------------------------------------------

/// The methods of the Model Context Protocol that the server implements.
#[derive(Clone, Copy, Debug, PartialEq, Eq, Structural)]
pub enum McpMethod {
    /// `initialize`
    Initialize,
    /// `tools/list`
    ToolsList,
    /// `tools/call`
    ToolsCall,
    /// `prompts/list`
    PromptsList,
    /// `prompts/get`
    PromptsGet,
    /// `notifications/initialized`
    NotificationsInitialized,
}

/// The MCP method that a method name names.
pub open spec fn mcp_method_of(method: Seq<char>) -> Option<McpMethod> {
    if method == "initialize"@ {
        Some(McpMethod::Initialize)
    } else if method == "tools/list"@ {
        Some(McpMethod::ToolsList)
    } else if method == "tools/call"@ {
        Some(McpMethod::ToolsCall)
    } else if method == "prompts/list"@ {
        Some(McpMethod::PromptsList)
    } else if method == "prompts/get"@ {
        Some(McpMethod::PromptsGet)
    } else if method == "notifications/initialized"@ {
        Some(McpMethod::NotificationsInitialized)
    } else {
        None
    }
}

/// Route an MCP request by its method name.
pub fn handle_mcp_method(method: &str) -> (r: Result<McpMethod, ServerError>)
    ensures
        mcp_method_of(method@) matches Some(m) ==> r == Ok::<McpMethod, ServerError>(m),
        mcp_method_of(method@) is None ==> (r matches Err(ServerError::NotFound(msg)) && msg@
            == "MCP method '"@ + method@ + "' not found"@),
{
    if str_equal(method, "initialize") {
        Ok(McpMethod::Initialize)
    } else if str_equal(method, "tools/list") {
        Ok(McpMethod::ToolsList)
    } else if str_equal(method, "tools/call") {
        Ok(McpMethod::ToolsCall)
    } else if str_equal(method, "prompts/list") {
        Ok(McpMethod::PromptsList)
    } else if str_equal(method, "prompts/get") {
        Ok(McpMethod::PromptsGet)
    } else if str_equal(method, "notifications/initialized") {
        Ok(McpMethod::NotificationsInitialized)
    } else {
        Err(ServerError::NotFound(String::from_str("MCP method '").concat(method).concat("' not found")))
    }
}

/// The check that the MCP endpoint makes before dispatch: a request with a wrong
/// JSON-RPC version is answered with error -32600.
pub fn mcp_version_check(request: &JsonRpcRequest) -> (r: Option<JsonRpcResponseOrNotification>)
    ensures
        request.jsonrpc@ == "2.0"@ <==> r is None,
        r matches Some(JsonRpcResponseOrNotification::Response(resp)) ==> is_error_reply(
            resp,
            -32600,
            "Invalid or missing jsonrpc version field"@,
            request.id,
        ),
        !(r matches Some(JsonRpcResponseOrNotification::Notification(_))),
{
    if str_equal(request.jsonrpc.as_str(), "2.0") {
        None
    } else {
        Some(
            JsonRpcResponseOrNotification::Response(
                error_reply(
                    -32600,
                    String::from_str("Invalid or missing jsonrpc version field"),
                    clone_json_option(&request.id),
                ),
            ),
        )
    }
}

/// The reply of the MCP endpoint when handling the method failed: error -32603.
pub fn mcp_method_error(e: &ServerError, id: Option<Value>) -> (r: JsonRpcResponseOrNotification)
    ensures
        r matches JsonRpcResponseOrNotification::Response(resp) && is_error_reply(
            resp,
            -32603,
            "MCP method error: "@ + server_error_text(*e),
            id,
        ),
{
    JsonRpcResponseOrNotification::Response(
        error_reply(-32603, String::from_str("MCP method error: ").concat(e.to_string().as_str()), id),
    )
}

/// The internal JSON-RPC method that an MCP tool maps to.
pub open spec fn internal_method_of(tool: Seq<char>) -> Option<Seq<char>> {
    if tool == "sandbox_start"@ {
        Some("sandbox.start"@)
    } else if tool == "sandbox_stop"@ {
        Some("sandbox.stop"@)
    } else if tool == "sandbox_run_code"@ {
        Some("sandbox.repl.run"@)
    } else if tool == "sandbox_run_command"@ {
        Some("sandbox.command.run"@)
    } else if tool == "sandbox_get_metrics"@ {
        Some("sandbox.metrics.get"@)
    } else {
        None
    }
}

/// Convert an MCP tool name to the internal JSON-RPC method that serves it.
pub fn mcp_internal_method(tool_name: &str) -> (r: Result<&'static str, ServerError>)
    ensures
        internal_method_of(tool_name@) matches Some(m) ==> (r matches Ok(s) && s@ == m),
        internal_method_of(tool_name@) is None ==> (r matches Err(ServerError::NotFound(msg))
            && msg@ == "Tool '"@ + tool_name@ + "' not found"@),
{
    if str_equal(tool_name, "sandbox_start") {
        Ok("sandbox.start")
    } else if str_equal(tool_name, "sandbox_stop") {
        Ok("sandbox.stop")
    } else if str_equal(tool_name, "sandbox_run_code") {
        Ok("sandbox.repl.run")
    } else if str_equal(tool_name, "sandbox_run_command") {
        Ok("sandbox.command.run")
    } else if str_equal(tool_name, "sandbox_get_metrics") {
        Ok("sandbox.metrics.get")
    } else {
        Err(ServerError::NotFound(String::from_str("Tool '").concat(tool_name).concat("' not found")))
    }
}

/// Whether an internal method is forwarded to the sandbox's portal.
pub fn forwards_to_portal(internal_method: &str) -> (r: bool)
    ensures
        r == is_portal_method(internal_method@),
{
    str_equal(internal_method, "sandbox.repl.run") || str_equal(internal_method, "sandbox.command.run")
}

/// The error reply of a tool call that failed: -32603, with a message that
/// names the operation.
pub fn mcp_tool_failure(internal_method: &str, error_text: &str, id: Option<Value>) -> (r: JsonRpcResponse)
    ensures
        is_error_reply(
            r,
            -32603,
            (if internal_method@ == "sandbox.start"@ {
                "Sandbox start failed: "@
            } else if internal_method@ == "sandbox.stop"@ {
                "Sandbox stop failed: "@
            } else if internal_method@ == "sandbox.metrics.get"@ {
                "Get metrics failed: "@
            } else {
                "Internal error: "@
            }) + error_text@,
            id,
        ),
{
    let prefix = if str_equal(internal_method, "sandbox.start") {
        "Sandbox start failed: "
    } else if str_equal(internal_method, "sandbox.stop") {
        "Sandbox stop failed: "
    } else if str_equal(internal_method, "sandbox.metrics.get") {
        "Get metrics failed: "
    } else {
        "Internal error: "
    };
    error_reply(-32603, String::from_str(prefix).concat(error_text), id)
}

/// What an MCP tool result shows of the internal reply.
pub enum ToolContent {
    /// The result, shown as pretty-printed JSON.
    Result(Value),
    /// The text of an error, marked as an error.
    ErrorText(String),
    /// The text shown where the reply holds neither.
    NoResult(String),
}

/// Convert the internal reply of a tool call to the content of its MCP result.
pub fn mcp_tool_content(reply: JsonRpcResponse) -> (r: ToolContent)
    ensures
        reply.result matches Some(v) ==> r == ToolContent::Result(v),
        reply.result is None && reply.error is Some ==> (r matches ToolContent::ErrorText(t) && t@
            == "Error: "@ + reply.error->0.message@),
        reply.result is None && reply.error is None ==> (r matches ToolContent::NoResult(t) && t@
            == "No result returned"@),
{
    match reply.result {
        Some(v) => ToolContent::Result(v),
        None => match reply.error {
            Some(e) => ToolContent::ErrorText(String::from_str("Error: ").concat(e.message.as_str())),
            None => ToolContent::NoResult(String::from_str("No result returned")),
        },
    }
}

/// What the params of a `tools/call` request hold.
pub enum CallParams {
    /// The params are not an object.
    NotObject,
    /// The object has no `name` text.
    MissingName,
    /// The object has a `name` but no `arguments`.
    MissingArguments(String),
    /// The tool named and its arguments.
    Call(String, Value),
}

/// What the params of a `tools/call` request hold: whether they are an
/// object, its `name` text and its `arguments`.
pub open spec fn reads_call_params(params: Value, p: CallParams) -> bool {
    if !json_object(params) {
        p is NotObject
    } else {
        match member_text(params, "name"@) {
            None => p is MissingName,
            Some(n) => match json_member(params, "arguments"@) {
                Some(a) => p matches CallParams::Call(s, args) && s@ == n && args == a,
                None => p matches CallParams::MissingArguments(s) && s@ == n,
            },
        }
    }
}

/// Read the `name` and the `arguments` of a `tools/call` request's params.
pub fn call_params_of(params: &Value) -> (r: CallParams)
    ensures
        reads_call_params(*params, r),
{
    if !json_is_object(params) {
        return CallParams::NotObject;
    }
    let name = match member_string(params, "name") {
        Some(n) => n,
        None => {
            return CallParams::MissingName;
        },
    };
    match json_get(params, "arguments") {
        Some(arguments) => CallParams::Call(name, clone_json_value(arguments)),
        None => CallParams::MissingArguments(name),
    }
}

/// The internal request that a tool call becomes: the tool's JSON-RPC method,
/// with the call's arguments as params and the call's id.
pub open spec fn is_internal_call(req: JsonRpcRequest, method: Seq<char>, arguments: Value, id: Option<Value>) -> bool {
    &&& req.jsonrpc@ == "2.0"@
    &&& req.method@ == method
    &&& req.params == arguments
    &&& req.id == id
}

/// The internal JSON-RPC request that a `tools/call` request with these params
/// stands for.
pub fn mcp_call_request(params: CallParams, id: Option<Value>) -> (r: Result<JsonRpcRequest, ServerError>)
    ensures
        params is NotObject ==> (r matches Err(ServerError::ValidationError(ValidationError::InvalidInput(m)))
            && m@ == "Request parameters must be an object"@),
        params is MissingName ==> (r matches Err(ServerError::ValidationError(ValidationError::InvalidInput(m)))
            && m@ == "Missing required 'name' parameter"@),
        params is MissingArguments ==> (r matches Err(ServerError::ValidationError(ValidationError::InvalidInput(m)))
            && m@ == "Missing required 'arguments' parameter"@),
        params matches CallParams::Call(name, arguments) ==> match internal_method_of(name@) {
            Some(m) => r matches Ok(req) && is_internal_call(req, m, arguments, id),
            None => r matches Err(ServerError::NotFound(msg)) && msg@ == "Tool '"@ + name@ + "' not found"@,
        },
{
    match params {
        CallParams::NotObject => Err(
            ServerError::ValidationError(
                ValidationError::InvalidInput(String::from_str("Request parameters must be an object")),
            ),
        ),
        CallParams::MissingName => Err(
            ServerError::ValidationError(
                ValidationError::InvalidInput(String::from_str("Missing required 'name' parameter")),
            ),
        ),
        CallParams::MissingArguments(_) => Err(
            ServerError::ValidationError(
                ValidationError::InvalidInput(String::from_str("Missing required 'arguments' parameter")),
            ),
        ),
        CallParams::Call(name, arguments) => {
            let method = mcp_internal_method(name.as_str())?;
            Ok(
                JsonRpcRequest {
                    jsonrpc: String::from_str(JSONRPC_VERSION),
                    method: String::from_str(method),
                    params: arguments,
                    id,
                },
            )
        },
    }
}

/// The internal JSON-RPC request that a `tools/call` request stands for.
pub fn mcp_call_tool_request(request: &JsonRpcRequest) -> (r: Result<JsonRpcRequest, ServerError>)
    ensures
        !json_object(request.params) ==> (r matches Err(
            ServerError::ValidationError(ValidationError::InvalidInput(m)),
        ) && m@ == "Request parameters must be an object"@),
        json_object(request.params) ==> match member_text(request.params, "name"@) {
            None => r matches Err(ServerError::ValidationError(ValidationError::InvalidInput(m)))
                && m@ == "Missing required 'name' parameter"@,
            Some(name) => match json_member(request.params, "arguments"@) {
                None => r matches Err(ServerError::ValidationError(ValidationError::InvalidInput(m)))
                    && m@ == "Missing required 'arguments' parameter"@,
                Some(arguments) => match internal_method_of(name) {
                    Some(method) => r matches Ok(req) && is_internal_call(req, method, arguments, request.id),
                    None => r matches Err(ServerError::NotFound(msg)) && msg@ == "Tool '"@ + name
                        + "' not found"@,
                },
            },
        },
{
    let params = call_params_of(&request.params);
    mcp_call_request(params, clone_json_option(&request.id))
}

//--------------------------------------------------------------------------------------------------
// MCP prompts
//--------------------------------------------------------------------------------------------------

/// The prompts that the server offers.
#[derive(Clone, Copy, Debug, PartialEq, Eq, Structural)]
pub enum McpPrompt {
    /// `create_python_sandbox`
    CreatePythonSandbox,
    /// `create_node_sandbox`
    CreateNodeSandbox,
}

/// The description of a prompt.
pub open spec fn prompt_description(p: McpPrompt) -> Seq<char> {
    match p {
        McpPrompt::CreatePythonSandbox => "Create a Python development sandbox"@,
        McpPrompt::CreateNodeSandbox => "Create a Node.js development sandbox"@,
    }
}

/// The message text of a prompt for a sandbox name.
pub open spec fn prompt_text(p: McpPrompt, name: Seq<char>) -> Seq<char> {
    match p {
        McpPrompt::CreatePythonSandbox => "Create a Python sandbox named '"@ + name
            + "' using the sandbox_start tool with the following configuration:\n\n- Image: microsandbox/python\n- Memory: 512 MiB\n- CPUs: 1\n- Working directory: /workspace\n\nThis will set up a Python development environment ready for code execution."@,
        McpPrompt::CreateNodeSandbox => "Create a Node.js sandbox named '"@ + name
            + "' using the sandbox_start tool with the following configuration:\n\n- Image: microsandbox/node\n- Memory: 512 MiB\n- CPUs: 1\n- Working directory: /workspace\n\nThis will set up a Node.js development environment ready for JavaScript execution."@,
    }
}

/// The sandbox name a prompt uses when the request gives none.
pub open spec fn prompt_default_name(p: McpPrompt) -> Seq<char> {
    match p {
        McpPrompt::CreatePythonSandbox => "python-sandbox"@,
        McpPrompt::CreateNodeSandbox => "node-sandbox"@,
    }
}

/// The prompt that a prompt name names.
pub open spec fn prompt_of(name: Seq<char>) -> Option<McpPrompt> {
    if name == "create_python_sandbox"@ {
        Some(McpPrompt::CreatePythonSandbox)
    } else if name == "create_node_sandbox"@ {
        Some(McpPrompt::CreateNodeSandbox)
    } else {
        None
    }
}

/// The description and message text of the prompt `prompt_name` for the sandbox
/// name given in its arguments (or the prompt's default name).
pub fn mcp_prompt_message(prompt_name: &str, sandbox_name: Option<&str>) -> (r: Result<
    (String, String),
    ServerError,
>)
    ensures
        prompt_of(prompt_name@) matches Some(p) ==> (r matches Ok((d, t)) && d@
            == prompt_description(p) && t@ == prompt_text(
            p,
            match sandbox_name {
                Some(n) => n@,
                None => prompt_default_name(p),
            },
        )),
        prompt_of(prompt_name@) is None ==> (r matches Err(ServerError::NotFound(msg)) && msg@
            == "Prompt '"@ + prompt_name@ + "' not found"@),
{
    if str_equal(prompt_name, "create_python_sandbox") {
        let name = match sandbox_name {
            Some(n) => n,
            None => "python-sandbox",
        };
        let text = String::from_str("Create a Python sandbox named '").concat(name).concat(
            "' using the sandbox_start tool with the following configuration:\n\n- Image: microsandbox/python\n- Memory: 512 MiB\n- CPUs: 1\n- Working directory: /workspace\n\nThis will set up a Python development environment ready for code execution.",
        );
        Ok((String::from_str("Create a Python development sandbox"), text))
    } else if str_equal(prompt_name, "create_node_sandbox") {
        let name = match sandbox_name {
            Some(n) => n,
            None => "node-sandbox",
        };
        let text = String::from_str("Create a Node.js sandbox named '").concat(name).concat(
            "' using the sandbox_start tool with the following configuration:\n\n- Image: microsandbox/node\n- Memory: 512 MiB\n- CPUs: 1\n- Working directory: /workspace\n\nThis will set up a Node.js development environment ready for JavaScript execution.",
        );
        Ok((String::from_str("Create a Node.js development sandbox"), text))
    } else {
        Err(ServerError::NotFound(String::from_str("Prompt '").concat(prompt_name).concat("' not found")))
    }
}


/// What the params of a `prompts/get` request hold.
pub enum PromptParams {
    /// The params are not an object.
    NotObject,
    /// The object has no `name` text.
    MissingName,
    /// The prompt named, and the `sandbox_name` text of its arguments where there is one.
    Get(String, Option<String>),
}

/// The `sandbox_name` text of the `arguments` object of a `prompts/get`
/// request's params, where there is one.
pub open spec fn prompt_sandbox_text(params: Value) -> Option<Seq<char>> {
    match json_member(params, "arguments"@) {
        Some(a) => if json_object(a) {
            member_text(a, "sandbox_name"@)
        } else {
            None
        },
        None => None,
    }
}

/// What the params of a `prompts/get` request hold: whether they are an
/// object, its `name` text and the `sandbox_name` text of its arguments.
pub open spec fn reads_prompt_params(params: Value, p: PromptParams) -> bool {
    if !json_object(params) {
        p is NotObject
    } else {
        match member_text(params, "name"@) {
            None => p is MissingName,
            Some(n) => p matches PromptParams::Get(s, sandbox) && s@ == n && holds_text(
                sandbox,
                prompt_sandbox_text(params),
            ),
        }
    }
}

/// Read the `name` of a `prompts/get` request's params and the `sandbox_name`
/// of its arguments.
pub fn prompt_params_of(params: &Value) -> (r: PromptParams)
    ensures
        reads_prompt_params(*params, r),
{
    if !json_is_object(params) {
        return PromptParams::NotObject;
    }
    let name = match member_string(params, "name") {
        Some(n) => n,
        None => {
            return PromptParams::MissingName;
        },
    };
    let sandbox = match json_get(params, "arguments") {
        Some(arguments) => if json_is_object(arguments) {
            member_string(arguments, "sandbox_name")
        } else {
            None
        },
        None => None,
    };
    PromptParams::Get(name, sandbox)
}

/// The description and message text that a `prompts/get` request with these
/// params is answered with.
pub fn mcp_get_prompt(params: PromptParams) -> (r: Result<(String, String), ServerError>)
    ensures
        params is NotObject ==> (r matches Err(ServerError::ValidationError(ValidationError::InvalidInput(m)))
            && m@ == "Request parameters must be an object"@),
        params is MissingName ==> (r matches Err(ServerError::ValidationError(ValidationError::InvalidInput(m)))
            && m@ == "Missing required 'name' parameter"@),
        params matches PromptParams::Get(name, sandbox) ==> match prompt_of(name@) {
            Some(p) => r matches Ok((d, t)) && d@ == prompt_description(p) && t@ == prompt_text(
                p,
                match sandbox {
                    Some(n) => n@,
                    None => prompt_default_name(p),
                },
            ),
            None => r matches Err(ServerError::NotFound(msg)) && msg@ == "Prompt '"@ + name@ + "' not found"@,
        },
{
    match params {
        PromptParams::NotObject => Err(
            ServerError::ValidationError(
                ValidationError::InvalidInput(String::from_str("Request parameters must be an object")),
            ),
        ),
        PromptParams::MissingName => Err(
            ServerError::ValidationError(
                ValidationError::InvalidInput(String::from_str("Missing required 'name' parameter")),
            ),
        ),
        PromptParams::Get(name, sandbox) => {
            let sandbox_name = match &sandbox {
                Some(n) => Some(n.as_str()),
                None => None,
            };
            mcp_prompt_message(name.as_str(), sandbox_name)
        },
    }
}

/// The description and message text that a `prompts/get` request is answered with.
pub fn mcp_prompt_for_request(request: &JsonRpcRequest) -> (r: Result<(String, String), ServerError>)
    ensures
        !json_object(request.params) ==> (r matches Err(
            ServerError::ValidationError(ValidationError::InvalidInput(m)),
        ) && m@ == "Request parameters must be an object"@),
        json_object(request.params) ==> match member_text(request.params, "name"@) {
            None => r matches Err(ServerError::ValidationError(ValidationError::InvalidInput(m)))
                && m@ == "Missing required 'name' parameter"@,
            Some(name) => match prompt_of(name) {
                Some(p) => r matches Ok((d, t)) && d@ == prompt_description(p) && t@ == prompt_text(
                    p,
                    match prompt_sandbox_text(request.params) {
                        Some(n) => n,
                        None => prompt_default_name(p),
                    },
                ),
                None => r matches Err(ServerError::NotFound(msg)) && msg@ == "Prompt '"@ + name
                    + "' not found"@,
            },
        },
{
    mcp_get_prompt(prompt_params_of(&request.params))
}

//--------------------------------------------------------------------------------------------------
// MCP listings
//--------------------------------------------------------------------------------------------------

/// The MCP protocol version the server speaks.
pub const MCP_PROTOCOL_VERSION: &'static str = "2024-11-05";

/// The name the server gives itself in the MCP handshake.
pub const SERVER_NAME: &'static str = "microsandbox-server";

/// The tools the server lists, in order.
pub open spec fn listed_tools() -> Seq<Seq<char>> {
    seq!["sandbox_start"@, "sandbox_stop"@, "sandbox_run_code"@, "sandbox_run_command"@, "sandbox_get_metrics"@]
}

/// The description of each listed tool.
pub open spec fn tool_description(tool: Seq<char>) -> Seq<char> {
    if tool == "sandbox_start"@ {
        "Start a new sandbox with specified configuration. This creates an isolated environment for code execution. IMPORTANT: Always stop the sandbox when done to prevent it from running indefinitely and consuming resources. SUPPORTED IMAGES: Only 'microsandbox/python' (for Python code) and 'microsandbox/node' (for Node.js code) are currently supported."@
    } else if tool == "sandbox_stop"@ {
        "Stop a running sandbox and clean up its resources. CRITICAL: Always call this when you're finished with a sandbox to prevent resource leaks and indefinite running. Failing to stop sandboxes will cause them to consume system resources unnecessarily."@
    } else if tool == "sandbox_run_code"@ {
        "Execute code in a running sandbox. PREREQUISITES: The target sandbox must be started first using sandbox_start - this will fail if the sandbox is not running. TIMING: Code execution is synchronous and may take time depending on complexity. Long-running code will block until completion or timeout."@
    } else if tool == "sandbox_run_command"@ {
        "Execute a command in a running sandbox. PREREQUISITES: The target sandbox must be started first using sandbox_start - this will fail if the sandbox is not running. TIMING: Command execution is synchronous and may take time depending on the command complexity. Long-running commands will block until completion or timeout."@
    } else {
        "Get metrics and status for sandboxes including CPU usage, memory consumption, and running state. This tool can check the status of any sandbox regardless of whether it's running or not"@
    }
}

fn tool_entry(name: &str, description: &str) -> (r: (String, String))
    ensures
        r.0@ == name@,
        r.1@ == description@,
{
    (String::from_str(name), String::from_str(description))
}

/// The listed tool names differ from each other.
proof fn lemma_tool_names_distinct()
    ensures
        "sandbox_start"@ != "sandbox_stop"@,
        "sandbox_start"@ != "sandbox_run_code"@,
        "sandbox_start"@ != "sandbox_run_command"@,
        "sandbox_start"@ != "sandbox_get_metrics"@,
        "sandbox_stop"@ != "sandbox_run_code"@,
        "sandbox_stop"@ != "sandbox_run_command"@,
        "sandbox_stop"@ != "sandbox_get_metrics"@,
        "sandbox_run_code"@ != "sandbox_run_command"@,
        "sandbox_run_code"@ != "sandbox_get_metrics"@,
        "sandbox_run_command"@ != "sandbox_get_metrics"@,
{
    reveal_strlit("sandbox_start");
    reveal_strlit("sandbox_stop");
    reveal_strlit("sandbox_run_code");
    reveal_strlit("sandbox_run_command");
    reveal_strlit("sandbox_get_metrics");
    assert("sandbox_start"@.len() == 13);
    assert("sandbox_stop"@.len() == 12);
    assert("sandbox_run_code"@.len() == 16);
    assert("sandbox_run_command"@.len() == 19);
    assert("sandbox_get_metrics"@.len() == 19);
    assert("sandbox_run_command"@[8] != "sandbox_get_metrics"@[8]);
}

/// The tools listed by `tools/list`: name and description of each (the input
/// schema of each is `mcp_tool_input_schema`).
pub fn mcp_tools() -> (r: Vec<(String, String)>)
    ensures
        r@.len() == listed_tools().len(),
        forall|i: int| 0 <= i < r@.len() ==> (#[trigger] r@[i]).0@ == listed_tools()[i] && r@[i].1@ == tool_description(listed_tools()[i]),
{
    let mut v: Vec<(String, String)> = Vec::new();
    v.push(tool_entry("sandbox_start", "Start a new sandbox with specified configuration. This creates an isolated environment for code execution. IMPORTANT: Always stop the sandbox when done to prevent it from running indefinitely and consuming resources. SUPPORTED IMAGES: Only 'microsandbox/python' (for Python code) and 'microsandbox/node' (for Node.js code) are currently supported."));
    v.push(tool_entry("sandbox_stop", "Stop a running sandbox and clean up its resources. CRITICAL: Always call this when you're finished with a sandbox to prevent resource leaks and indefinite running. Failing to stop sandboxes will cause them to consume system resources unnecessarily."));
    v.push(tool_entry("sandbox_run_code", "Execute code in a running sandbox. PREREQUISITES: The target sandbox must be started first using sandbox_start - this will fail if the sandbox is not running. TIMING: Code execution is synchronous and may take time depending on complexity. Long-running code will block until completion or timeout."));
    v.push(tool_entry("sandbox_run_command", "Execute a command in a running sandbox. PREREQUISITES: The target sandbox must be started first using sandbox_start - this will fail if the sandbox is not running. TIMING: Command execution is synchronous and may take time depending on the command complexity. Long-running commands will block until completion or timeout."));
    v.push(tool_entry("sandbox_get_metrics", "Get metrics and status for sandboxes including CPU usage, memory consumption, and running state. This tool can check the status of any sandbox regardless of whether it's running or not"));
    proof {
        lemma_tool_names_distinct();
        assert(v@[1].0@ == listed_tools()[1]);
        assert(v@[2].0@ == listed_tools()[2]);
        assert(v@[3].0@ == listed_tools()[3]);
        assert(v@[4].0@ == listed_tools()[4]);
    }
    v
}

/// The input schema of each listed tool, as JSON text; `None` for any other name.
pub open spec fn tool_input_schema(tool: Seq<char>) -> Option<Seq<char>> {
    if tool == "sandbox_start"@ {
        Some("{\"type\":\"object\",\"properties\":{\"sandbox\":{\"type\":\"string\",\"description\":\"Name of the sandbox to start\"},\"config\":{\"type\":\"object\",\"description\":\"Sandbox configuration\",\"properties\":{\"image\":{\"type\":\"string\",\"description\":\"Docker image to use. Only 'microsandbox/python' and 'microsandbox/node' are supported.\",\"enum\":[\"microsandbox/python\",\"microsandbox/node\"]},\"memory\":{\"type\":\"integer\",\"description\":\"Memory limit in MiB\"},\"cpus\":{\"type\":\"integer\",\"description\":\"Number of CPUs\"},\"volumes\":{\"type\":\"array\",\"items\":{\"type\":\"string\"},\"description\":\"Volume mounts\"},\"ports\":{\"type\":\"array\",\"items\":{\"type\":\"string\"},\"description\":\"Port mappings\"},\"envs\":{\"type\":\"array\",\"items\":{\"type\":\"string\"},\"description\":\"Environment variables\"}}}},\"required\":[\"sandbox\"]}"@)
    } else if tool == "sandbox_stop"@ {
        Some("{\"type\":\"object\",\"properties\":{\"sandbox\":{\"type\":\"string\",\"description\":\"Name of the sandbox to stop\"}},\"required\":[\"sandbox\"]}"@)
    } else if tool == "sandbox_run_code"@ {
        Some("{\"type\":\"object\",\"properties\":{\"sandbox\":{\"type\":\"string\",\"description\":\"Name of the sandbox (must be already started)\"},\"code\":{\"type\":\"string\",\"description\":\"Code to execute\"},\"language\":{\"type\":\"string\",\"description\":\"Programming language (e.g., 'python', 'nodejs')\"}},\"required\":[\"sandbox\",\"code\",\"language\"]}"@)
    } else if tool == "sandbox_run_command"@ {
        Some("{\"type\":\"object\",\"properties\":{\"sandbox\":{\"type\":\"string\",\"description\":\"Name of the sandbox (must be already started)\"},\"command\":{\"type\":\"string\",\"description\":\"Command to execute\"},\"args\":{\"type\":\"array\",\"items\":{\"type\":\"string\"},\"description\":\"Command arguments\"}},\"required\":[\"sandbox\",\"command\"]}"@)
    } else if tool == "sandbox_get_metrics"@ {
        Some("{\"type\":\"object\",\"properties\":{\"sandbox\":{\"type\":\"string\",\"description\":\"Optional specific sandbox name to get metrics for\"}},\"required\":[]}"@)
    } else {
        None
    }
}

/// The input schema of a listed tool, as JSON text.
pub fn mcp_tool_input_schema(tool: &str) -> (r: Option<&'static str>)
    ensures
        match r {
            Some(s) => tool_input_schema(tool@) == Some(s@),
            None => tool_input_schema(tool@) is None,
        },
{
    if str_equal(tool, "sandbox_start") {
        Some("{\"type\":\"object\",\"properties\":{\"sandbox\":{\"type\":\"string\",\"description\":\"Name of the sandbox to start\"},\"config\":{\"type\":\"object\",\"description\":\"Sandbox configuration\",\"properties\":{\"image\":{\"type\":\"string\",\"description\":\"Docker image to use. Only 'microsandbox/python' and 'microsandbox/node' are supported.\",\"enum\":[\"microsandbox/python\",\"microsandbox/node\"]},\"memory\":{\"type\":\"integer\",\"description\":\"Memory limit in MiB\"},\"cpus\":{\"type\":\"integer\",\"description\":\"Number of CPUs\"},\"volumes\":{\"type\":\"array\",\"items\":{\"type\":\"string\"},\"description\":\"Volume mounts\"},\"ports\":{\"type\":\"array\",\"items\":{\"type\":\"string\"},\"description\":\"Port mappings\"},\"envs\":{\"type\":\"array\",\"items\":{\"type\":\"string\"},\"description\":\"Environment variables\"}}}},\"required\":[\"sandbox\"]}")
    } else if str_equal(tool, "sandbox_stop") {
        Some("{\"type\":\"object\",\"properties\":{\"sandbox\":{\"type\":\"string\",\"description\":\"Name of the sandbox to stop\"}},\"required\":[\"sandbox\"]}")
    } else if str_equal(tool, "sandbox_run_code") {
        Some("{\"type\":\"object\",\"properties\":{\"sandbox\":{\"type\":\"string\",\"description\":\"Name of the sandbox (must be already started)\"},\"code\":{\"type\":\"string\",\"description\":\"Code to execute\"},\"language\":{\"type\":\"string\",\"description\":\"Programming language (e.g., 'python', 'nodejs')\"}},\"required\":[\"sandbox\",\"code\",\"language\"]}")
    } else if str_equal(tool, "sandbox_run_command") {
        Some("{\"type\":\"object\",\"properties\":{\"sandbox\":{\"type\":\"string\",\"description\":\"Name of the sandbox (must be already started)\"},\"command\":{\"type\":\"string\",\"description\":\"Command to execute\"},\"args\":{\"type\":\"array\",\"items\":{\"type\":\"string\"},\"description\":\"Command arguments\"}},\"required\":[\"sandbox\",\"command\"]}")
    } else if str_equal(tool, "sandbox_get_metrics") {
        Some("{\"type\":\"object\",\"properties\":{\"sandbox\":{\"type\":\"string\",\"description\":\"Optional specific sandbox name to get metrics for\"}},\"required\":[]}")
    } else {
        None
    }
}

/// The prompts the server lists, in order.
pub open spec fn listed_prompts() -> Seq<McpPrompt> {
    seq![McpPrompt::CreatePythonSandbox, McpPrompt::CreateNodeSandbox]
}

/// The name of a prompt.
pub open spec fn prompt_name(p: McpPrompt) -> Seq<char> {
    match p {
        McpPrompt::CreatePythonSandbox => "create_python_sandbox"@,
        McpPrompt::CreateNodeSandbox => "create_node_sandbox"@,
    }
}

/// The one argument that each listed prompt takes, and requires.
pub const PROMPT_ARGUMENT: &'static str = "sandbox_name";

/// The description of the prompts' argument.
pub const PROMPT_ARGUMENT_DESCRIPTION: &'static str = "Name for the new sandbox";

/// The prompts listed by `prompts/list`: name and description of each. Each
/// takes one required argument, `PROMPT_ARGUMENT`.
pub fn mcp_prompts() -> (r: Vec<(String, String)>)
    ensures
        r@.len() == listed_prompts().len(),
        forall|i: int| 0 <= i < r@.len() ==> (#[trigger] r@[i]).0@ == prompt_name(listed_prompts()[i]) && r@[i].1@ == prompt_description(listed_prompts()[i]),
{
    let mut v: Vec<(String, String)> = Vec::new();
    v.push(tool_entry("create_python_sandbox", "Create a Python development sandbox"));
    v.push(tool_entry("create_node_sandbox", "Create a Node.js development sandbox"));
    v
}

/// Every tool that `tools/list` lists is one that `tools/call` accepts, and
/// has an input schema.
pub proof fn lemma_listed_tools_callable()
    ensures
        forall|i: int| 0 <= i < listed_tools().len() ==> (#[trigger] internal_method_of(listed_tools()[i])) is Some,
        forall|i: int| 0 <= i < listed_tools().len() ==> (#[trigger] tool_input_schema(listed_tools()[i])) is Some,
{
    assert forall|i: int| 0 <= i < listed_tools().len() implies (#[trigger] internal_method_of(listed_tools()[i])) is Some by {
        lemma_tool_names_distinct();
    }
    assert forall|i: int| 0 <= i < listed_tools().len() implies (#[trigger] tool_input_schema(listed_tools()[i])) is Some by {
        lemma_tool_names_distinct();
    }
}

/// Each MCP tool is served by its own JSON-RPC method: starting and stopping a
/// sandbox by `sandbox.start` and `sandbox.stop`, running code by the REPL
/// (`sandbox.repl.run`), running a command by the command runner
/// (`sandbox.command.run`) and reading metrics by `sandbox.metrics.get`. No two
/// tools share a method, and only the listed tools have one.
pub proof fn lemma_tool_methods()
    ensures
        internal_method_of("sandbox_start"@) == Some("sandbox.start"@),
        internal_method_of("sandbox_stop"@) == Some("sandbox.stop"@),
        internal_method_of("sandbox_run_code"@) == Some("sandbox.repl.run"@),
        internal_method_of("sandbox_run_command"@) == Some("sandbox.command.run"@),
        internal_method_of("sandbox_get_metrics"@) == Some("sandbox.metrics.get"@),
        forall|t1: Seq<char>, t2: Seq<char>|
            (#[trigger] internal_method_of(t1)) is Some && internal_method_of(t1) == #[trigger] internal_method_of(t2)
                ==> t1 == t2,
        forall|t: Seq<char>| (#[trigger] internal_method_of(t)) is Some <==> listed_tools().contains(t),
{
    lemma_tool_names_distinct();
    reveal_strlit("sandbox.start");
    reveal_strlit("sandbox.stop");
    reveal_strlit("sandbox.repl.run");
    reveal_strlit("sandbox.command.run");
    reveal_strlit("sandbox.metrics.get");
    assert("sandbox.start"@.len() == 13);
    assert("sandbox.stop"@.len() == 12);
    assert("sandbox.repl.run"@.len() == 16);
    assert("sandbox.command.run"@.len() == 19);
    assert("sandbox.metrics.get"@.len() == 19);
    assert("sandbox.command.run"@[8] != "sandbox.metrics.get"@[8]);
    assert forall|t: Seq<char>| (#[trigger] internal_method_of(t)) is Some <==> listed_tools().contains(t) by {
        if internal_method_of(t) is Some {
            if t == "sandbox_start"@ {
                assert(listed_tools()[0] == t);
            } else if t == "sandbox_stop"@ {
                assert(listed_tools()[1] == t);
            } else if t == "sandbox_run_code"@ {
                assert(listed_tools()[2] == t);
            } else if t == "sandbox_run_command"@ {
                assert(listed_tools()[3] == t);
            } else {
                assert(listed_tools()[4] == t);
            }
        }
        if listed_tools().contains(t) {
            let i = choose|i: int| 0 <= i < listed_tools().len() && listed_tools()[i] == t;
            assert(i == 0 || i == 1 || i == 2 || i == 3 || i == 4);
        }
    }
}

/// Every prompt that `prompts/list` lists is one that `prompts/get` serves,
/// under the same description.
pub proof fn lemma_listed_prompts_served()
    ensures
        forall|i: int| 0 <= i < listed_prompts().len() ==> prompt_of(prompt_name(#[trigger] listed_prompts()[i])) == Some(listed_prompts()[i]),
{
    reveal_strlit("create_python_sandbox");
    reveal_strlit("create_node_sandbox");
    assert("create_node_sandbox"@.len() != "create_python_sandbox"@.len());
    assert(prompt_of(prompt_name(McpPrompt::CreateNodeSandbox)) == Some(McpPrompt::CreateNodeSandbox));
    assert(prompt_of(prompt_name(McpPrompt::CreatePythonSandbox)) == Some(McpPrompt::CreatePythonSandbox));
    assert forall|i: int| 0 <= i < listed_prompts().len() implies prompt_of(prompt_name(#[trigger] listed_prompts()[i])) == Some(listed_prompts()[i]) by {
        if i == 0 {
            assert(listed_prompts()[i] == McpPrompt::CreatePythonSandbox);
        } else {
            assert(listed_prompts()[i] == McpPrompt::CreateNodeSandbox);
        }
    }
}

} // verus!
