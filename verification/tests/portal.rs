use serde_json::Value;

fn num(n: i64) -> Value {
    Value::from(n)
}

fn obj(pairs: &[(&str, &str)]) -> Value {
    let mut m = serde_json::Map::new();
    for (k, v) in pairs {
        m.insert(k.to_string(), Value::from(*v));
    }
    Value::Object(m)
}

use microsandbox::portal::command::{
    collect_command_reply, command_failure, command_outcome, command_run_result, CommandError,
    CommandLine, CommandResp, ProcessEnd,
};
use microsandbox::portal::error::{create_error_response, PortalError};
use microsandbox::portal::handler::{dispatch_portal_request, PortalDispatch};
use microsandbox::portal::repl::{
    classify_stdout_line, collect_reply, eoe_marker, frame_python_code, parse_language,
    python_timeout, repl_run_result, stream_name, EngineError, Language, Line, Resp, StdoutLine,
    Stream,
};
use microsandbox::server::payload::JsonRpcRequest;
use microsandbox::portal::repl::{begin_python_eval, PythonSession};

#[test]
fn portal_error_replies() {
    let (status, err) = PortalError::MethodNotFound("m".to_string()).into_response();
    assert_eq!((status, err.code, err.message.as_str()), (404, -32601, "m"));
    let (status, err) = PortalError::Internal("boom".to_string()).into_response();
    assert_eq!((status, err.code), (500, -32603));
    let (status, resp) = create_error_response(PortalError::Parse("p".to_string()), Some(num(3)));
    assert_eq!(status, 400);
    let e = resp.error.unwrap();
    assert_eq!((e.code, e.message.as_str()), (-32700, "Parse error: p"));
    assert_eq!(resp.id, Some(num(3)));
}

#[test]
fn portal_dispatch() {
    let req = |method: &str| JsonRpcRequest {
        jsonrpc: "2.0".to_string(),
        method: method.to_string(),
        params: obj(&[]),
        id: Some(num(1)),
    };
    assert!(matches!(dispatch_portal_request(&req("sandbox.repl.run")), PortalDispatch::ReplRun));
    assert!(matches!(dispatch_portal_request(&req("sandbox.command.run")), PortalDispatch::CommandRun));
    match dispatch_portal_request(&req("x")) {
        PortalDispatch::Reply(status, resp) => {
            assert_eq!(status, 400);
            let e = resp.error.unwrap();
            assert_eq!((e.code, e.message.as_str()), (-32601, "Method not found: Method not found: x"));
        }
        _ => panic!("expected a reply"),
    }
}

#[test]
fn languages() {
    assert_eq!(parse_language("Python", true, false).ok(), Some(Language::Python));
    assert_eq!(parse_language("JavaScript", true, true).ok(), Some(Language::Node));
    match parse_language("nodejs", true, false) {
        Err(PortalError::JsonRpc(m)) => {
            assert_eq!(m, "Node.js language support is not enabled. Recompile with --features nodejs")
        }
        _ => panic!("expected an error"),
    }
    match parse_language("Rust", true, true) {
        Err(PortalError::JsonRpc(m)) => assert_eq!(m, "Unsupported language: Rust"),
        _ => panic!("expected an error"),
    }
}

#[test]
fn eval_replies_are_collected() {
    let mut lines: Vec<Line> = Vec::new();
    let more = collect_reply(
        &mut lines,
        Resp::Line { id: "1".to_string(), stream: Stream::Stdout, text: "hi".to_string() },
    );
    assert!(more);
    let more = collect_reply(&mut lines, Resp::Error { id: "1".to_string(), message: "bad".to_string() });
    assert!(!more);
    assert_eq!(lines.len(), 2);
    assert_eq!(lines[1].stream, Stream::Stderr);
    assert_eq!(lines[1].text, "Error: bad");
    assert!(!collect_reply(&mut lines, Resp::Done { id: "1".to_string() }));
    assert_eq!(lines.len(), 2);
    assert_eq!(stream_name(Stream::Stdout), "stdout");
    let result = repl_run_result("python", lines);
    assert_eq!(result.status, "success");
}

#[test]
fn python_framing() {
    let marker = eoe_marker("abc");
    assert_eq!(marker, "eoe_abc");
    assert_eq!(frame_python_code("print(1)", &marker), "print(1)\n\nprint('eoe_abc')\n");
    assert_eq!(frame_python_code("x\n", &marker), "x\n\nprint('eoe_abc')\n");
    assert_eq!(classify_stdout_line("  eoe_abc \n", Some("eoe_abc")), StdoutLine::Completes);
    assert_eq!(classify_stdout_line("output", Some("eoe_abc")), StdoutLine::Output);
    assert_eq!(classify_stdout_line("output", None), StdoutLine::Dropped);
    let (resp, err) = python_timeout("7".to_string(), 5);
    assert!(matches!(resp, Resp::Error { message, .. } if message == "Execution timed out after 5 seconds"));
    assert_eq!(err.to_string(), "Evaluation timeout after 5 seconds");
    assert_eq!(EngineError::Unavailable("x".to_string()).to_string(), "Engine unavailable: x");
}

#[test]
fn command_runs() {
    let mut lines: Vec<CommandLine> = Vec::new();
    assert!(collect_command_reply(
        &mut lines,
        CommandResp::Line { id: "1".to_string(), stream: Stream::Stdout, text: "ok".to_string() }
    ));
    assert!(!collect_command_reply(&mut lines, CommandResp::Done { id: "1".to_string(), exit_code: 3 }));
    assert_eq!(lines.len(), 1);
    let (resp, result) = command_outcome("1".to_string(), ProcessEnd::Exited(None));
    assert!(matches!(resp, CommandResp::Done { exit_code: 1, .. }));
    assert_eq!(result.ok(), Some(1));
    let (resp, result) = command_outcome("1".to_string(), ProcessEnd::TimedOut(2));
    assert!(matches!(resp, CommandResp::Error { message, .. } if message == "Command timed out after 2 seconds"));
    let err = result.unwrap_err();
    assert_eq!(err.to_string(), "Command timeout after 2 seconds");
    match command_failure(&CommandError::SpawnError("x".to_string())) {
        PortalError::Internal(m) => assert_eq!(m, "Command execution failed: Failed to spawn command: x"),
        _ => panic!("expected an internal error"),
    }
    let run = command_run_result("ls".to_string(), vec!["-l".to_string()], 0, lines);
    assert!(run.success);
}

#[test]
fn python_session() {
    let mut session = PythonSession::new();
    assert!(session.on_stdout("early".to_string()).is_none());
    let marker = begin_python_eval(&mut session, "7".to_string());
    assert_eq!(marker.len(), 24);
    assert!(marker.starts_with("eoe_"));
    assert!(marker[4..].chars().all(|c| c.is_ascii_alphanumeric()));
    assert!(frame_python_code("x = 1", &marker).ends_with(&format!("\nprint('{marker}')\n")));
    assert!(matches!(session.on_stdout("out".to_string()), Some(Resp::Line { stream: Stream::Stdout, .. })));
    assert!(matches!(session.on_stderr("err".to_string()), Some(Resp::Line { stream: Stream::Stderr, .. })));
    assert!(!session.is_completed());
    assert!(matches!(session.on_stdout(format!(" {marker} ")), Some(Resp::Done { id }) if id == "7"));
    assert!(session.is_completed());
    session.finish();
    assert!(session.on_stderr("late".to_string()).is_none());
}
