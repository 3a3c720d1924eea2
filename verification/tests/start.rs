use microsandbox::config::{Sandbox, SandboxBuilder};
use microsandbox::oci::auth::normalize_registry_host;
use microsandbox::oci::registry;
use microsandbox::port::{BiPortMapping, PortMapping};
use microsandbox::server::error::{AuthenticationError, AuthorizationError, ServerError, ValidationError};
use microsandbox::server::payload::SandboxConfig;
use microsandbox::server::sandbox::{replace_portal_mapping, SandboxStart, StartAction, StartEvent, StartWait};

fn config_with_image() -> Option<SandboxConfig> {
    Some(SandboxConfig {
        image: Some("microsandbox/python".to_string()),
        memory: None,
        cpus: None,
        volumes: vec![],
        ports: vec![],
        envs: vec![],
        depends_on: vec![],
        workdir: None,
        shell: None,
        scripts: vec![],
        exec_command: None,
    })
}

fn internal(a: &StartAction) -> String {
    match a {
        StartAction::Reply(Err(ServerError::InternalError(m))) => m.clone(),
        _ => panic!("not an internal error"),
    }
}

fn invalid(a: &StartAction) -> String {
    match a {
        StartAction::Reply(Err(ServerError::ValidationError(ValidationError::InvalidInput(m)))) => m.clone(),
        _ => panic!("not a validation error"),
    }
}

#[test]
fn portal_mapping_replaces_old_one_and_comes_last() {
    let ports = vec![
        Some("8080:80".to_string()),
        Some("5000:4444".to_string()),
        None,
        Some("9000:9000".to_string()),
        Some("6000:4444".to_string()),
    ];
    let r = replace_portal_mapping(&ports, 7001, 4444);
    assert_eq!(
        r,
        vec![Some("8080:80".to_string()), None, Some("9000:9000".to_string()), Some("7001:4444".to_string())]
    );
    assert_eq!(replace_portal_mapping(&vec![], 7001, 4444), vec![Some("7001:4444".to_string())]);
    let again = replace_portal_mapping(&r, 7002, 4444);
    assert_eq!(again.iter().filter(|e| e.as_deref().map_or(false, |s| s.ends_with(":4444"))).count(), 1);
}

#[test]
fn start_sequence_with_existing_project_and_request_config() {
    let mut m = SandboxStart::new("box1".to_string(), &config_with_image());
    assert!(matches!(m.step(StartEvent::Begin), StartAction::CheckProjectDir));
    assert!(matches!(m.step(StartEvent::Exists(true)), StartAction::CheckConfigFile));
    assert!(matches!(m.step(StartEvent::Exists(false)), StartAction::WriteDefaultConfig));
    assert!(matches!(m.step(StartEvent::Succeeded), StartAction::AssignPort));
    assert!(matches!(m.step(StartEvent::PortAssigned(5001)), StartAction::WriteConfig(5001)));
    assert!(matches!(m.step(StartEvent::Succeeded), StartAction::StartSandbox));
    assert!(matches!(m.step(StartEvent::Succeeded), StartAction::WaitRunning(180)));
    match m.step(StartEvent::Waited(StartWait::Running)) {
        StartAction::Reply(Ok(msg)) => assert_eq!(msg, "Sandbox box1 started successfully"),
        _ => panic!("expected a reply"),
    }
    assert!(!m.accepts(&StartEvent::Begin));
}

#[test]
fn start_sequence_refuses_bad_name_before_any_effect() {
    let mut m = SandboxStart::new("-bad".to_string(), &None);
    let a = m.step(StartEvent::Begin);
    assert_eq!(invalid(&a), "Sandbox name must start with an alphanumeric character");
}

#[test]
fn start_sequence_creates_missing_project_dir() {
    let mut m = SandboxStart::new("box".to_string(), &None);
    m.step(StartEvent::Begin);
    assert!(matches!(m.step(StartEvent::Exists(false)), StartAction::CreateProjectDir));
    assert!(matches!(m.step(StartEvent::Succeeded), StartAction::InitializeEnvironment));
    assert!(matches!(m.step(StartEvent::Succeeded), StartAction::CheckConfigFile));
    let a = m.step(StartEvent::Exists(false));
    assert_eq!(invalid(&a), "No configuration provided and no existing configuration found for sandbox 'box'");
}

#[test]
fn start_sequence_needs_sandbox_in_existing_config() {
    let mut m = SandboxStart::new("box".to_string(), &None);
    m.step(StartEvent::Begin);
    m.step(StartEvent::Exists(true));
    assert!(matches!(m.step(StartEvent::Exists(true)), StartAction::ReadConfig));
    let a = m.step(StartEvent::SandboxConfigured(false));
    assert_eq!(invalid(&a), "Sandbox 'box' not found in existing configuration");
}

#[test]
fn start_sequence_reports_failures() {
    let mut m = SandboxStart::new("box".to_string(), &None);
    m.step(StartEvent::Begin);
    m.step(StartEvent::Exists(true));
    m.step(StartEvent::Exists(true));
    m.step(StartEvent::SandboxConfigured(true));
    let a = m.step(StartEvent::Failed("no ports".to_string()));
    assert_eq!(internal(&a), "Failed to assign portal port: no ports");

    let mut m = SandboxStart::new("box".to_string(), &None);
    m.step(StartEvent::Begin);
    m.step(StartEvent::Exists(true));
    m.step(StartEvent::Exists(true));
    let a = m.step(StartEvent::ParseFailed("bad yaml".to_string()));
    assert_eq!(internal(&a), "Failed to parse config file: bad yaml");

    let mut m = SandboxStart::new("box".to_string(), &None);
    m.step(StartEvent::Begin);
    m.step(StartEvent::Exists(true));
    m.step(StartEvent::Exists(true));
    m.step(StartEvent::SandboxConfigured(true));
    m.step(StartEvent::PortAssigned(5000));
    assert!(matches!(m.step(StartEvent::Succeeded), StartAction::StartSandbox));
    let a = m.step(StartEvent::Failed("boom".to_string()));
    assert_eq!(internal(&a), "Failed to start sandbox box: boom");
}

#[test]
fn error_details_never_reach_the_client() {
    let a = ServerError::DatabaseError("secret one".to_string()).into_response();
    let b = ServerError::DatabaseError("secret two".to_string()).into_response();
    assert_eq!((a.status, a.error.clone(), a.code), (b.status, b.error, b.code));
    assert_eq!((a.status, a.error.as_str(), a.code), (500, "Internal server error", Some(5001)));
    let c = ServerError::Authentication(AuthenticationError::InvalidCredentials("x".to_string())).into_response();
    assert_eq!((c.status, c.error.as_str(), c.code), (401, "Invalid credentials", Some(1001)));
    let d = ServerError::AuthorizationError(AuthorizationError::AccessDenied("y".to_string())).into_response();
    assert_eq!((d.status, d.error.as_str(), d.code), (403, "Access denied", Some(3001)));
}

#[test]
fn registry_host_scheme_and_case_laws() {
    for h in ["ghcr.io", "Docker.IO", "index.docker.io", "localhost:5000"] {
        let n = normalize_registry_host(h);
        assert_eq!(normalize_registry_host(&format!("https://{h}")), n);
        assert_eq!(normalize_registry_host(&format!("http://{h}")), n);
        assert_eq!(normalize_registry_host(&h.to_ascii_uppercase()), n);
        assert!(!n.chars().any(|c| c.is_ascii_uppercase()) && !n.ends_with('/'));
        let k = registry::normalize_registry_host(h);
        assert_eq!(registry::normalize_registry_host(&format!("https://{h}")), k);
        assert_eq!(registry::normalize_registry_host(&h.to_ascii_uppercase()), k);
    }
}

#[test]
fn builders_collect_entries_by_name() {
    let sandbox: Sandbox = SandboxBuilder::default()
        .image("alpine".to_string())
        .scripts(vec![
            ("start".to_string(), "a".to_string()),
            ("test".to_string(), "b".to_string()),
            ("start".to_string(), "c".to_string()),
        ])
        .build();
    assert_eq!(sandbox.scripts, vec![("test".to_string(), "b".to_string()), ("start".to_string(), "c".to_string())]);
}

#[test]
fn saved_port_mapping_loads_each_sandbox() {
    let saved = PortMapping { mappings: vec![("a".to_string(), 5000), ("b".to_string(), 5001)] };
    let m = BiPortMapping::from_port_mapping(saved);
    assert_eq!(m.get_port("a"), Some(5000));
    assert_eq!(m.get_port("b"), Some(5001));
}
