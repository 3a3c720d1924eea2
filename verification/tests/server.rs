use serde_json::Value;

fn num(n: i64) -> Value {
    Value::from(n)
}

fn obj(pairs: &[(&str, &str)]) -> Value {
    let mut m = serde_json::Map::new();
    for (k, v) in pairs {
        m.insert(k.to_string(), Value::from(*v));
    }
    Value::Object(m)
}

use microsandbox::port::{BiPortMapping, PortManager, PortMapping};
use microsandbox::server::auth::{
    authorize_request_namespace, convert_api_key_to_jwt, convert_jwt_to_api_key,
    extract_api_key_from_headers, extract_namespace_from_json_rpc, get_server_key,
    validate_token_and_namespace, HeaderText,
};
use microsandbox::server::error::{
    AuthenticationError, MicrosandboxServerError, ServerError, ValidationError,
};
use microsandbox::server::management::{
    config_key, existing_server, keygen_claims, parse_i32, parse_pid, server_key_source, signed_string,
    server_launch_args, stop_outcome, stop_target, token_validation_error, writes_key_file,
    ExistingServer, JwtFailure, KeySource, SignalResult,
};
use microsandbox::server::payload::{JsonRpcRequest, JsonRpcResponse, SandboxConfig};
use microsandbox::server::rpc::{
    dispatch_json_rpc, handle_mcp_method, mcp_call_request, mcp_get_prompt, mcp_internal_method,
    mcp_prompts, mcp_tool_content, mcp_tool_input_schema, mcp_tool_failure, mcp_tools, CallParams, McpMethod,
    PromptParams, RpcDispatch, ToolContent,
};
use microsandbox::server::sandbox::{
    keeps_port_entry, metrics_sandbox_names, portal_port_mapping, portal_sandbox_name,
    sandbox_entry, sandbox_is_running, start_config_source, start_outcome_message,
    start_poll_timeout_secs, validate_sandbox_name, ConfigSource, PortalProbe, ProbeOutcome,
    ProbeStep, SandboxParam, StartWait, MAX_PORTAL_RETRIES,
};
use microsandbox::server::auth::{
    authorize_mcp_body, authorize_mcp_fields, authorize_rpc_body, authorize_rpc_fields,
    namespace_step, AuthStep, RpcBodyFields,
};
use microsandbox::server::error::AuthorizationError;
use microsandbox::server::sandbox::proxy_uri;

fn request(version: &str, method: &str) -> JsonRpcRequest {
    JsonRpcRequest {
        jsonrpc: version.to_string(),
        method: method.to_string(),
        params: obj(&[]),
        id: Some(num(1)),
    }
}

fn invalid_input(e: &ServerError) -> String {
    match e {
        ServerError::ValidationError(ValidationError::InvalidInput(m)) => m.clone(),
        _ => panic!("not an invalid-input error"),
    }
}

fn empty_config() -> SandboxConfig {
    SandboxConfig {
        image: None,
        memory: None,
        cpus: None,
        volumes: vec![],
        ports: vec![],
        envs: vec![],
        depends_on: vec![],
        workdir: None,
        shell: None,
        scripts: vec![],
        exec_command: None,
    }
}

#[test]
fn bi_port_mapping_keeps_ports_unique() {
    let mut m = BiPortMapping::new();
    m.insert("a".to_string(), 4000);
    m.insert("b".to_string(), 4001);
    assert_eq!(m.get_port("a"), Some(4000));
    // Giving a's port to b takes it from a, and frees b's old port.
    m.insert("b".to_string(), 4000);
    assert_eq!(m.get_port("a"), None);
    assert_eq!(m.get_port("b"), Some(4000));
    assert_eq!(m.get_sandbox(4001), None);
    assert_eq!(m.get_sandbox(4000).map(|s| s.as_str()), Some("b"));
    assert_eq!(m.remove_by_port(4000), Some("b".to_string()));
    assert_eq!(m.remove_by_sandbox("b"), None);
}

#[test]
fn port_mapping_round_trip() {
    let mut m = BiPortMapping::new();
    m.insert("x".to_string(), 1);
    m.insert("y".to_string(), 2);
    let saved = m.to_port_mapping();
    assert_eq!(saved.mappings.len(), 2);
    let back = BiPortMapping::from_port_mapping(saved);
    assert_eq!(back.get_port("x"), Some(1));
    assert_eq!(back.get_port("y"), Some(2));
}

#[test]
fn port_manager_assigns_and_releases() {
    let saved = PortMapping { mappings: vec![("s".to_string(), 5000)] };
    let mut pm = PortManager::new("/tmp/portal.ports".to_string(), Some(saved));
    assert_eq!(pm.file_path(), "/tmp/portal.ports");
    assert_eq!(pm.keep_assigned_port("s", true), Some(5000));
    assert_eq!(pm.keep_assigned_port("s", false), None);
    assert_eq!(pm.get_port("s"), None);
    pm.record_assigned_port("s".to_string(), 5001);
    assert_eq!(pm.get_port("s"), Some(5001));
    assert_eq!(pm.get_portal_url_for_sandbox("s").unwrap(), "http://127.0.0.1:5001");
    assert!(pm.release_port("s"));
    assert!(!pm.release_port("s"));
    match pm.get_portal_url_for_sandbox("s") {
        Err(ServerError::InternalError(m)) => assert_eq!(m, "No portal port assigned for sandbox s"),
        _ => panic!("expected an error"),
    }
}

#[test]
fn server_error_responses() {
    let r = ServerError::NotFound("x".to_string()).into_response();
    assert_eq!(r.status, 404);
    let r = ServerError::Authentication(AuthenticationError::InvalidCredentials("secret".to_string()))
        .into_response();
    assert_eq!((r.status, r.error.as_str(), r.code), (401, "Invalid credentials", Some(1001)));
    assert_eq!(
        ServerError::InternalError("boom".to_string()).to_string(),
        "Internal server error: boom"
    );
}

#[test]
fn api_key_round_trip() {
    let key = convert_jwt_to_api_key("a.b.c").unwrap();
    assert_eq!(key, "msb_a.b.c");
    assert_eq!(convert_api_key_to_jwt(&key).unwrap(), "a.b.c");
    assert!(convert_api_key_to_jwt("a.b.c").is_err());
}

#[test]
fn api_key_headers_and_namespaces() {
    let key = extract_api_key_from_headers(
        HeaderText::Text("Bearer msb_x".to_string()),
        HeaderText::Text("msb_y".to_string()),
    );
    assert_eq!(key.unwrap(), "msb_x");
    let key = extract_api_key_from_headers(HeaderText::Absent, HeaderText::Text("msb_y".to_string()));
    assert_eq!(key.unwrap(), "msb_y");
    assert!(extract_api_key_from_headers(HeaderText::Absent, HeaderText::Absent).is_err());
    assert!(validate_token_and_namespace("msb_t", "*", "ns").is_ok());
    assert!(validate_token_and_namespace("msb_t", "other", "ns").is_err());
    assert!(authorize_request_namespace("ns", "ns").is_ok());
    assert!(authorize_request_namespace("ns", "other").is_err());
    assert!(get_server_key(&None).is_err());
    let ns = extract_namespace_from_json_rpc(Some("sandbox.start".to_string()), true, None);
    assert_eq!(
        invalid_input(&ns.unwrap_err()),
        "Missing or invalid 'namespace' in params for method 'sandbox.start'"
    );
}

#[test]
fn json_rpc_dispatch() {
    match dispatch_json_rpc(&request("1.0", "sandbox.start")) {
        RpcDispatch::Reply(status, resp) => {
            assert_eq!(status, 400);
            assert_eq!(resp.error.unwrap().code, -32600);
        }
        _ => panic!("expected a reply"),
    }
    assert!(matches!(dispatch_json_rpc(&request("2.0", "sandbox.start")), RpcDispatch::SandboxStart));
    assert!(matches!(
        dispatch_json_rpc(&request("2.0", "sandbox.command.run")),
        RpcDispatch::ForwardToPortal
    ));
    match dispatch_json_rpc(&request("2.0", "nope")) {
        RpcDispatch::Reply(status, resp) => {
            assert_eq!(status, 404);
            let e = resp.error.unwrap();
            assert_eq!((e.code, e.message.as_str()), (-32601, "Method not found: nope"));
        }
        _ => panic!("expected a reply"),
    }
}

#[test]
fn mcp_methods_tools_and_prompts() {
    assert!(matches!(handle_mcp_method("tools/call"), Ok(McpMethod::ToolsCall)));
    assert!(matches!(handle_mcp_method("nope"), Err(ServerError::NotFound(m)) if m == "MCP method 'nope' not found"));
    assert_eq!(mcp_internal_method("sandbox_run_code").unwrap(), "sandbox.repl.run");
    for (name, _) in mcp_tools() {
        assert!(mcp_internal_method(&name).is_ok());
        let schema: Value = serde_json::from_str(mcp_tool_input_schema(&name).unwrap()).unwrap();
        assert_eq!(schema["type"], "object");
        for required in schema["required"].as_array().unwrap() {
            assert!(schema["properties"].get(required.as_str().unwrap()).is_some());
        }
    }
    let start: Value = serde_json::from_str(mcp_tool_input_schema("sandbox_start").unwrap()).unwrap();
    assert_eq!(start["properties"]["config"]["properties"]["image"]["enum"][1], "microsandbox/node");
    let code: Value = serde_json::from_str(mcp_tool_input_schema("sandbox_run_code").unwrap()).unwrap();
    assert_eq!(code["required"], Value::from(vec!["sandbox", "code", "language"]));
    assert!(mcp_tool_input_schema("nope").is_none());
    for (name, description) in mcp_prompts() {
        let (d, _) = mcp_get_prompt(PromptParams::Get(name, None)).unwrap();
        assert_eq!(d, description);
    }
    let (_, text) = mcp_get_prompt(PromptParams::Get(
        "create_python_sandbox".to_string(),
        Some("py".to_string()),
    ))
    .unwrap();
    assert!(text.starts_with("Create a Python sandbox named 'py' using"));
    assert!(matches!(
        mcp_get_prompt(PromptParams::Get("nope".to_string(), None)),
        Err(ServerError::NotFound(m)) if m == "Prompt 'nope' not found"
    ));
}

#[test]
fn mcp_tool_calls() {
    let req = mcp_call_request(
        CallParams::Call("sandbox_stop".to_string(), obj(&[("sandbox", "s")])),
        Some(num(7)),
    )
    .unwrap();
    assert_eq!(req.method, "sandbox.stop");
    assert_eq!(req.params, obj(&[("sandbox", "s")]));
    assert_eq!(req.id, Some(num(7)));
    assert!(matches!(
        mcp_call_request(CallParams::Call("nope".to_string(), obj(&[])), None),
        Err(ServerError::NotFound(m)) if m == "Tool 'nope' not found"
    ));
    let e = mcp_call_request(CallParams::MissingArguments("x".to_string()), None).unwrap_err();
    assert_eq!(invalid_input(&e), "Missing required 'arguments' parameter");
    let failure = mcp_tool_failure("sandbox.stop", "boom", None);
    assert_eq!(failure.error.unwrap().message, "Sandbox stop failed: boom");
    match mcp_tool_content(JsonRpcResponse::success(Value::from("ok"), None)) {
        ToolContent::Result(v) => assert_eq!(v, Value::from("ok")),
        _ => panic!("expected a result"),
    }
    match mcp_tool_content(failure_reply()) {
        ToolContent::ErrorText(t) => assert_eq!(t, "Error: bad"),
        _ => panic!("expected an error text"),
    }
}

fn failure_reply() -> JsonRpcResponse {
    mcp_tool_failure_raw("bad")
}

fn mcp_tool_failure_raw(message: &str) -> JsonRpcResponse {
    JsonRpcResponse::error(
        microsandbox::server::payload::JsonRpcError { code: -1, message: message.to_string(), data: None },
        None,
    )
}

#[test]
fn sandbox_name_rules() {
    assert!(validate_sandbox_name("my-sandbox_1").is_ok());
    let cases = [
        ("", "Sandbox name cannot be empty"),
        ("-leading", "Sandbox name must start with an alphanumeric character"),
        ("bad name", "Sandbox name can only contain alphanumeric characters, hyphens, or underscores"),
    ];
    for (name, message) in cases {
        assert_eq!(invalid_input(&validate_sandbox_name(name).unwrap_err()), message);
    }
    let long = "a".repeat(64);
    assert_eq!(
        invalid_input(&validate_sandbox_name(&long).unwrap_err()),
        "Sandbox name cannot exceed 63 characters"
    );
    assert!(validate_sandbox_name(&"a".repeat(63)).is_ok());
    assert_eq!(metrics_sandbox_names(None).unwrap().len(), 0);
    assert_eq!(metrics_sandbox_names(Some("s")).unwrap(), vec!["s".to_string()]);
}

#[test]
fn sandbox_start_rules() {
    assert!(matches!(start_config_source("s", false, true), Ok(ConfigSource::ExistingFile)));
    assert!(matches!(start_config_source("s", true, false), Ok(ConfigSource::DefaultConfig)));
    assert_eq!(
        invalid_input(&start_config_source("s", false, false).unwrap_err()),
        "No configuration provided and no existing configuration found for sandbox 's'"
    );
    let mut config = empty_config();
    assert!(sandbox_entry(&config).is_none());
    assert_eq!(start_poll_timeout_secs(&Some(empty_config())), 60);
    config.image = Some("microsandbox/python".to_string());
    config.ports = vec!["8080:80".to_string()];
    let entry = sandbox_entry(&config).unwrap();
    assert_eq!(entry.image, "microsandbox/python");
    assert_eq!(entry.ports, Some(vec!["8080:80".to_string()]));
    assert!(entry.volumes.is_none());
    assert_eq!(start_poll_timeout_secs(&Some(config)), 180);
    assert_eq!(start_poll_timeout_secs(&None), 60);
    let mapping = portal_port_mapping(5001, 4444);
    assert_eq!(mapping, "5001:4444");
    assert!(!keeps_port_entry(Some(&mapping), 4444));
    assert!(keeps_port_entry(Some("8080:80"), 4444));
    assert!(keeps_port_entry(None, 4444));
    assert_eq!(
        start_outcome_message("s", &StartWait::Running),
        "Sandbox s started successfully"
    );
    assert_eq!(
        start_outcome_message("s", &StartWait::PollFailed("x".to_string())),
        "Sandbox s was started, but couldn't verify it's running: x"
    );
    let statuses = vec![("a".to_string(), false), ("s".to_string(), true), ("s".to_string(), false)];
    assert!(sandbox_is_running(&statuses, "s"));
    assert!(!sandbox_is_running(&statuses, "a"));
    assert!(!sandbox_is_running(&statuses, "zz"));
}

#[test]
fn portal_probe_gives_up_after_retries() {
    assert_eq!(
        invalid_input(&portal_sandbox_name(SandboxParam::Missing).unwrap_err()),
        "Missing required 'sandbox' parameter for portal request"
    );
    let mut probe = PortalProbe::new();
    assert!(!probe.record(ProbeOutcome::Reply(503, "503 Service Unavailable".to_string())));
    assert_eq!(
        probe.last_error.as_deref(),
        Some("Portal not ready yet (status: 503 Service Unavailable)")
    );
    assert!(probe.record(ProbeOutcome::Reply(200, "200 OK".to_string())));
    let mut probe = PortalProbe::new();
    let mut steps = 0;
    loop {
        match probe.next_step() {
            ProbeStep::Probe => {
                probe.record(ProbeOutcome::Failed("refused".to_string()));
                steps += 1;
            }
            ProbeStep::GiveUp(ServerError::InternalError(m)) => {
                assert_eq!(m, "Failed to connect to portal after 300 retries: refused");
                break;
            }
            ProbeStep::GiveUp(_) => panic!("unexpected error"),
        }
    }
    assert_eq!(steps, MAX_PORTAL_RETRIES);
}

#[test]
fn server_management_decisions() {
    assert_eq!(parse_i32("42"), Some(42));
    assert_eq!(parse_i32("-7"), Some(-7));
    assert_eq!(parse_i32("+7"), Some(7));
    assert_eq!(parse_i32("2147483648"), None);
    assert_eq!(parse_i32("-2147483648"), Some(i32::MIN));
    assert_eq!(parse_i32("4x"), None);
    assert_eq!(parse_i32(""), None);
    assert_eq!(parse_pid(" 1234\n"), Some(1234));
    for pid in [0u32, 7, 4242, 2147483647] {
        assert_eq!(parse_pid(&pid.to_string()), Some(pid as i32));
    }
    assert_eq!(parse_pid(&2147483648u32.to_string()), None);
    for v in [i32::MIN, -77, -1, 0, 5, i32::MAX] {
        assert_eq!(parse_i32(&signed_string(v)), Some(v));
    }
    assert_eq!(stop_target(Some("3000000000")).ok(), None);
    assert!(matches!(existing_server(Some(5), true), ExistingServer::AlreadyRunning(5)));
    assert!(matches!(existing_server(Some(5), false), ExistingServer::Stale(5)));
    assert!(matches!(existing_server(None, false), ExistingServer::Invalid));
    assert_eq!(server_key_source(false, true, false), KeySource::KeyFile);
    assert_eq!(server_key_source(false, true, true), KeySource::Generated);
    assert!(!writes_key_file(true, false, false));
    assert_eq!(
        server_launch_args(false, Some("0.0.0.0".to_string()), Some(5555), None, Some("k".to_string())),
        vec!["--host", "0.0.0.0", "--port", "5555", "--key", "k"]
    );
    assert_eq!(server_launch_args(true, None, None, None, Some("k".to_string())), vec!["--dev"]);
    assert!(matches!(stop_target(None), Err(MicrosandboxServerError::StopError(m))
        if m == "server is not running (PID file not found)"));
    assert_eq!(stop_target(Some("12")).ok(), Some(12));
    let (clean, result) = stop_outcome(-3, SignalResult::Failed);
    assert!(!clean);
    assert!(matches!(result, Err(MicrosandboxServerError::StopError(m))
        if m == "failed to stop server process (PID: -3)"));
    let claims = keygen_claims(1000, None);
    assert_eq!((claims.iat, claims.exp), (1000, 87400));
    assert!(matches!(config_key(None, false), Err(MicrosandboxServerError::ConfigError(_))));
    assert!(matches!(config_key(None, true), Ok(None)));
    assert!(matches!(
        token_validation_error(JwtFailure::Expired),
        ServerError::Authentication(AuthenticationError::InvalidToken(m)) if m == "Token expired"
    ));
}

#[test]
fn namespace_checks_on_request_bodies() {
    assert!(matches!(namespace_step("*"), AuthStep::Pass));
    assert!(matches!(namespace_step("ns"), AuthStep::CheckNamespace));
    let body = br#"{"jsonrpc":"2.0","method":"sandbox.start","params":{"namespace":"ns"}}"#;
    assert!(authorize_rpc_body("ns", body).is_ok());
    assert!(matches!(
        authorize_rpc_body("other", body),
        Err(ServerError::AuthorizationError(AuthorizationError::AccessDenied(m)))
            if m == "Token does not have access to namespace 'ns'"
    ));
    assert!(authorize_rpc_body("ns", b"not json").is_err());
    let list = br#"{"jsonrpc":"2.0","method":"tools/list","params":{}}"#;
    assert!(authorize_mcp_body("ns", list).is_ok());
    let call = br#"{"jsonrpc":"2.0","method":"tools/call","params":{}}"#;
    let e = authorize_mcp_body("ns", call).unwrap_err();
    assert_eq!(invalid_input(&e), "Missing or invalid 'namespace' in params for method 'tools/call'");
    let fields = RpcBodyFields { method: None, has_params: false, namespace: None };
    assert_eq!(
        invalid_input(&authorize_rpc_fields("ns", fields).unwrap_err()),
        "Missing 'params' field in JSON-RPC request"
    );
    let fields = RpcBodyFields { method: Some("initialize".to_string()), has_params: false, namespace: None };
    assert!(authorize_mcp_fields("ns", fields).is_ok());
}

#[test]
fn proxy_uris() {
    assert_eq!(proxy_uri("ns", "s", Some("/a?b=1")), "http://sandbox-s.ns.internal:8080/a?b=1");
    assert_eq!(proxy_uri("ns", "s", None), "http://sandbox-s.ns.internal:8080/");
}

#[test]
fn port_manager_reload_and_release() {
    let mut pm = PortManager::new("/p/portal.ports".to_string(), None);
    pm.record_assigned_port("a".to_string(), 6001);
    pm.record_assigned_port("b".to_string(), 6002);
    // Taking a port that another sandbox holds moves it.
    pm.record_assigned_port("c".to_string(), 6002);
    assert_eq!((pm.get_port("a"), pm.get_port("b"), pm.get_port("c")), (Some(6001), None, Some(6002)));
    let reloaded = PortManager::new("/p/portal.ports".to_string(), Some(pm.port_mapping()));
    for key in ["a", "b", "c"] {
        assert_eq!(reloaded.get_port(key), pm.get_port(key));
    }
    assert!(pm.release_port("a"));
    assert_eq!((pm.get_port("a"), pm.get_port("c")), (None, Some(6002)));
}
