use serde_json::Value;

use microsandbox::cli::{build_unsupported_message, missing_uninstall_script};
use microsandbox::oci::reference::Reference;
use microsandbox::orchestra::{exit_report, prefixed_line, project_header};
use microsandbox::portal::error::PortalError;
use microsandbox::portal::handler::{engine_start_failure, invalid_parameters};
use microsandbox::portal::repl::{eval_failure_reply, repl_failure, EngineError, Resp};
use microsandbox::server::config::Config;
use microsandbox::server::auth::{namespace_of_request_body, request_body_fields, rpc_body_fields};
use microsandbox::server::payload::member_string;
use microsandbox::server::rpc::{call_params_of, prompt_params_of, CallParams, PromptParams};
use microsandbox::server::sandbox::{sandbox_param_of, SandboxParam};
use microsandbox::server::error::{MicrosandboxServerError, ServerError, ValidationError};
use microsandbox::server::management::missing_key_file;
use microsandbox::server::payload::{JsonRpcRequest, JsonRpcResponseOrNotification};
use microsandbox::server::rpc::{
    forwards_to_portal, invalid_params_error, mcp_call_tool_request, mcp_method_error,
    mcp_prompt_for_request, mcp_version_check,
};
use microsandbox::server::sandbox::{
    check_stop_paths, forwarded_sandbox_name, internal_error, missing_project_dir, poll_step,
    portal_health_url, portal_rpc_url, portal_status_error, require_configured_sandbox,
    sandbox_config_not_mapping, sandbox_not_configured, start_failed, stop_failed, stop_message,
    PollAction, MAX_POLL_ATTEMPTS,
};

fn internal(e: ServerError) -> String {
    match e {
        ServerError::InternalError(m) => m,
        other => panic!("not an internal error: {other:?}"),
    }
}

fn invalid_input(e: ServerError) -> String {
    match e {
        ServerError::ValidationError(ValidationError::InvalidInput(m)) => m,
        other => panic!("not an invalid input error: {other:?}"),
    }
}

fn object(pairs: &[(&str, Value)]) -> Value {
    let mut m = serde_json::Map::new();
    for (k, v) in pairs {
        m.insert(k.to_string(), v.clone());
    }
    Value::Object(m)
}

#[test]
fn orchestra_texts_and_exit_reports() {
    assert_eq!(prefixed_line("web", "listening"), "web | listening");
    assert_eq!(project_header("demo"), "PROJECT: demo");
    let ok = exit_report("a".to_string(), Some((Some(0), true)));
    assert_eq!((ok.exit_code, ok.success), (0, true));
    let killed = exit_report("b".to_string(), Some((None, false)));
    assert_eq!((killed.exit_code, killed.success), (-1, false));
    let lost = exit_report("c".to_string(), None);
    assert_eq!((lost.name.as_str(), lost.exit_code, lost.success), ("c", -1, false));
}

#[test]
fn cli_and_key_messages() {
    assert_eq!(build_unsupported_message(), "`--build` and `-b` flags are not yet supported.");
    assert_eq!(missing_uninstall_script(), "Please specify the name of the script to uninstall.");
    assert!(matches!(missing_key_file(), MicrosandboxServerError::KeyGenError(m)
        if m == "Server key file not found. Make sure the server is running in secure mode."));
}

#[test]
fn sandbox_start_and_stop_errors() {
    assert!(require_configured_sandbox("a", true, false).is_ok());
    assert!(require_configured_sandbox("a", false, true).is_ok());
    assert_eq!(
        invalid_input(require_configured_sandbox("a", false, false).unwrap_err()),
        "Sandbox 'a' not found in existing configuration"
    );
    assert_eq!(internal(internal_error("Failed to read config file: ", "eof")), "Failed to read config file: eof");
    assert_eq!(internal(start_failed("a", "boom")), "Failed to start sandbox a: boom");
    assert_eq!(internal(sandbox_not_configured("a")), "Sandbox 'a' not found in configuration");
    assert_eq!(internal(sandbox_config_not_mapping("a")), "Sandbox 'a' configuration is not a mapping");
    assert_eq!(internal(stop_failed("a", "boom")), "Failed to stop sandbox a: boom");
    assert_eq!(stop_message("a"), "Sandbox a stopped successfully");
    assert_eq!(internal(missing_project_dir("/p")), "Project directory '/p' does not exist");
    assert!(check_stop_paths(true, true).is_ok());
    assert_eq!(invalid_input(check_stop_paths(false, true).unwrap_err()), "Project directory does not exist");
    assert_eq!(invalid_input(check_stop_paths(true, false).unwrap_err()), "Configuration file not found");
}

#[test]
fn polling_for_a_started_sandbox() {
    assert!(matches!(poll_step("a", 1, true), PollAction::Running));
    assert!(matches!(poll_step("a", 1, false), PollAction::PollAgain));
    assert!(matches!(poll_step("a", MAX_POLL_ATTEMPTS - 1, false), PollAction::PollAgain));
    match poll_step("a", MAX_POLL_ATTEMPTS, false) {
        PollAction::GiveUp(e) => {
            assert_eq!(internal(e), "Exceeded maximum attempts to verify sandbox a is running")
        }
        _ => panic!("expected to give up"),
    }
}

#[test]
fn portal_forwarding() {
    assert_eq!(portal_rpc_url("http://127.0.0.1:5000"), "http://127.0.0.1:5000/api/v1/rpc");
    assert_eq!(portal_health_url("http://127.0.0.1:5000"), "http://127.0.0.1:5000/health");
    assert_eq!(
        internal(portal_status_error("500 Internal Server Error", Some("bad"))),
        "Portal returned error status 500 Internal Server Error: bad"
    );
    assert_eq!(
        internal(portal_status_error("502 Bad Gateway", None)),
        "Portal returned error status 502 Bad Gateway: Unknown error"
    );
    let params = object(&[("sandbox", Value::from("s1")), ("code", Value::from("1"))]);
    assert_eq!(forwarded_sandbox_name(&params).unwrap(), "s1");
    assert_eq!(
        invalid_input(forwarded_sandbox_name(&object(&[("code", Value::from("1"))])).unwrap_err()),
        "Missing required 'sandbox' parameter for portal request"
    );
    assert_eq!(
        invalid_input(forwarded_sandbox_name(&Value::from(3)).unwrap_err()),
        "Request parameters must be an object containing 'sandbox'"
    );
}

#[test]
fn rpc_and_mcp_errors() {
    assert_eq!(invalid_input(invalid_params_error("sandbox.start", "missing field")), "Invalid params for sandbox.start: missing field");
    assert!(forwards_to_portal("sandbox.repl.run"));
    assert!(forwards_to_portal("sandbox.command.run"));
    assert!(!forwards_to_portal("sandbox.start"));

    let good = JsonRpcRequest::new("tools/list".to_string(), Value::Null, Value::from(1));
    assert!(mcp_version_check(&good).is_none());
    let bad = JsonRpcRequest { jsonrpc: "1.0".to_string(), ..JsonRpcRequest::new("x".to_string(), Value::Null, Value::from(2)) };
    match mcp_version_check(&bad) {
        Some(JsonRpcResponseOrNotification::Response(r)) => {
            let e = r.error.unwrap();
            assert_eq!((e.code, e.message.as_str()), (-32600, "Invalid or missing jsonrpc version field"));
            assert_eq!(r.id, Some(Value::from(2)));
        }
        _ => panic!("expected an error response"),
    }
    match mcp_method_error(&ServerError::NotFound("x".to_string()), Some(Value::from(3))) {
        JsonRpcResponseOrNotification::Response(r) => {
            let e = r.error.unwrap();
            assert_eq!((e.code, e.message.as_str()), (-32603, "MCP method error: Resource not found: x"));
        }
        _ => panic!("expected an error response"),
    }
}

#[test]
fn mcp_requests_from_json() {
    let call = JsonRpcRequest::new(
        "tools/call".to_string(),
        object(&[("name", Value::from("sandbox_stop")), ("arguments", object(&[("sandbox", Value::from("s"))]))]),
        Value::from(7),
    );
    let forwarded = mcp_call_tool_request(&call).unwrap();
    assert_eq!(forwarded.method, "sandbox.stop");
    assert_eq!(forwarded.id, Some(Value::from(7)));
    let unknown = JsonRpcRequest::new(
        "tools/call".to_string(),
        object(&[("name", Value::from("nope"))]),
        Value::from(8),
    );
    assert!(mcp_call_tool_request(&unknown).is_err());

    let prompt = JsonRpcRequest::new(
        "prompts/get".to_string(),
        object(&[("name", Value::from("create_python_sandbox"))]),
        Value::from(9),
    );
    let (description, _) = mcp_prompt_for_request(&prompt).unwrap();
    assert_eq!(description, "Create a Python development sandbox");
}

#[test]
fn namespace_from_request_body() {
    assert_eq!(
        namespace_of_request_body(br#"{"jsonrpc":"2.0","method":"sandbox.start","params":{"namespace":"team"}}"#).unwrap(),
        "team"
    );
    assert!(namespace_of_request_body(b"not json").is_err());
}

#[test]
fn portal_engine_errors() {
    assert!(matches!(invalid_parameters("bad"), PortalError::JsonRpc(m) if m == "Invalid parameters: bad"));
    assert!(matches!(engine_start_failure(&EngineError::Unavailable("py".to_string())),
        PortalError::Internal(m) if m == "Failed to start engines: Engine unavailable: py"));
    assert!(matches!(repl_failure(&EngineError::Timeout(30)),
        PortalError::Internal(m) if m == "REPL execution failed: Evaluation timeout after 30 seconds"));
    match eval_failure_reply("id1".to_string(), &EngineError::Evaluation("x".to_string())) {
        Resp::Error { id, message } => {
            assert_eq!((id.as_str(), message.as_str()), ("id1", "Evaluation error: x"))
        }
        _ => panic!("expected an error reply"),
    }
}

#[test]
fn reference_keys() {
    let r: Reference = "alpine".parse().unwrap();
    assert_eq!(r.as_db_key(), "docker.io/library/alpine:latest");
    let _ = r.as_oci_reference();
}

#[test]
fn json_params_readers() {
    let params = object(&[("sandbox", Value::from("s1")), ("n", Value::from(2))]);
    assert_eq!(member_string(&params, "sandbox").as_deref(), Some("s1"));
    assert_eq!(member_string(&params, "n"), None);
    assert_eq!(member_string(&Value::from("x"), "sandbox"), None);
    assert!(matches!(sandbox_param_of(&params), SandboxParam::Name(n) if n == "s1"));
    assert!(matches!(sandbox_param_of(&object(&[("sandbox", Value::from(1))])), SandboxParam::Missing));
    assert!(matches!(sandbox_param_of(&Value::Null), SandboxParam::NotObject));

    let call = object(&[("name", Value::from("sandbox_start")), ("arguments", object(&[("a", Value::from("b"))]))]);
    assert!(matches!(call_params_of(&call), CallParams::Call(n, a) if n == "sandbox_start" && a["a"] == "b"));
    assert!(matches!(call_params_of(&object(&[("name", Value::from("t"))])), CallParams::MissingArguments(n) if n == "t"));
    assert!(matches!(call_params_of(&object(&[])), CallParams::MissingName));
    assert!(matches!(call_params_of(&Value::from(vec![1, 2])), CallParams::NotObject));

    let prompt = object(&[
        ("name", Value::from("create_node_sandbox")),
        ("arguments", object(&[("sandbox_name", Value::from("web"))])),
    ]);
    assert!(matches!(prompt_params_of(&prompt), PromptParams::Get(n, Some(s)) if n == "create_node_sandbox" && s == "web"));
    let no_args = object(&[("name", Value::from("p")), ("arguments", Value::from("x"))]);
    assert!(matches!(prompt_params_of(&no_args), PromptParams::Get(n, None) if n == "p"));
    assert!(matches!(prompt_params_of(&object(&[])), PromptParams::MissingName));

    let body = object(&[("method", Value::from("tools/call")), ("params", object(&[("namespace", Value::from("ns"))]))]);
    let f = rpc_body_fields(&body);
    assert_eq!((f.method.as_deref(), f.has_params, f.namespace.as_deref()), (Some("tools/call"), true, Some("ns")));
    let f = rpc_body_fields(&object(&[("method", Value::from(3))]));
    assert_eq!((f.method, f.has_params, f.namespace), (None, false, None));
}

#[test]
fn request_body_namespaces() {
    assert_eq!(
        invalid_input(namespace_of_request_body(br#"{"method":"sandbox.start"}"#).unwrap_err()),
        "Missing 'params' field in JSON-RPC request"
    );
    assert_eq!(
        invalid_input(namespace_of_request_body(br#"{"method":"sandbox.start","params":{}}"#).unwrap_err()),
        "Missing or invalid 'namespace' in params for method 'sandbox.start'"
    );
    assert_eq!(
        invalid_input(namespace_of_request_body(br#"{"params":{"namespace":1}}"#).unwrap_err()),
        "Missing or invalid 'namespace' in params for method 'unknown'"
    );
    let e = invalid_input(request_body_fields(b"{").err().unwrap());
    assert!(e.starts_with("Invalid JSON-RPC request: "));
}

#[test]
fn server_configuration() {
    let c = Config::new(Some("k".to_string()), "127.0.0.1".to_string(), 5555, None, "/home/u/.microsandbox/projects".to_string(), false, true).unwrap();
    assert_eq!(c.get_key().as_deref(), Some("k"));
    assert_eq!((c.get_host(), c.get_port(), c.get_dev_mode()), ("127.0.0.1", 5555, false));
    assert_eq!(c.get_project_dir(), "/home/u/.microsandbox/projects");
    let dev = Config::new(None, "0.0.0.0".to_string(), 1, Some("/p".to_string()), "/d".to_string(), true, true).unwrap();
    assert_eq!((dev.get_key().is_none(), dev.get_project_dir()), (true, "/p"));
    assert!(matches!(
        Config::new(None, "0.0.0.0".to_string(), 1, None, "/d".to_string(), false, true),
        Err(MicrosandboxServerError::ConfigError(m)) if m == "No key provided. A key is required when not in dev mode"
    ));
    assert!(matches!(
        Config::new(None, "localhost:x".to_string(), 1, None, "/d".to_string(), true, false),
        Err(MicrosandboxServerError::ConfigError(m)) if m == "Invalid host address: localhost:x"
    ));
}
