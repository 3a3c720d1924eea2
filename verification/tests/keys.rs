use microsandbox::config::{Microsandbox, Sandbox};
use microsandbox::error::MicrosandboxError;
use microsandbox::oci::registry::{blob_step_after_fetch, blob_step_before_fetch, BlobStep};
use microsandbox::orchestra::{sandbox_states, sandboxes_to_start, RunningSandbox, SandboxRecord};
use microsandbox::server::auth::Claims;
use microsandbox::server::error::{AuthenticationError, ServerError};
use microsandbox::server::management::JwtFailure;
use microsandbox::server::token::{keygen_token, token_claims, validate_token};
use microsandbox::supervisor::{mapped_dir_arg, mapped_dirs};

fn shell_sandbox() -> Sandbox {
    Sandbox::builder().image("alpine".to_string()).build()
}

fn config(names: &[&str]) -> Microsandbox {
    Microsandbox::builder()
        .sandboxes(names.iter().map(|n| (n.to_string(), shell_sandbox())).collect())
        .build()
        .unwrap()
}

fn invalid_token(r: Result<Claims, ServerError>) -> String {
    match r {
        Err(ServerError::Authentication(AuthenticationError::InvalidToken(m))) => m,
        _ => panic!("not an invalid token"),
    }
}

#[test]
fn keygen_token_validates_with_its_key() {
    let now = chrono::Utc::now().timestamp();
    let key = keygen_token("server-secret", now, Some(3600)).unwrap();
    assert!(key.starts_with("msb_"));
    assert_eq!(keygen_token("server-secret", now, Some(3600)).unwrap(), key);
    let claims = validate_token(&key, &Some("server-secret".to_string())).unwrap();
    assert_eq!((claims.exp, claims.iat), (now as u64 + 3600, now as u64));
    let other = keygen_token("another-secret", now, Some(3600)).unwrap();
    assert_ne!(other, key);
    assert_eq!(invalid_token(validate_token(&key, &Some("wrong".to_string()))), "Invalid token signature");
}

#[test]
fn expired_token_is_refused() {
    let key = keygen_token("k", 1000, Some(10)).unwrap();
    assert_eq!(invalid_token(validate_token(&key, &Some("k".to_string()))), "Token expired");
}

#[test]
fn validate_token_checks_prefix_and_server_key() {
    match validate_token("abc", &Some("k".to_string())) {
        Err(ServerError::Authentication(AuthenticationError::InvalidCredentials(m))) => {
            assert_eq!(m, "Invalid API key format: missing prefix")
        }
        _ => panic!("expected missing prefix"),
    }
    match validate_token("msb_abc", &None) {
        Err(ServerError::Authentication(AuthenticationError::InvalidCredentials(m))) => {
            assert_eq!(m, "Server key not found in configuration")
        }
        _ => panic!("expected missing server key"),
    }
}

#[test]
fn token_claims_of_outcomes() {
    let mut v = serde_json::Map::new();
    v.insert("exp".to_string(), serde_json::Value::from(20u64));
    v.insert("iat".to_string(), serde_json::Value::from(10u64));
    let c = token_claims(Ok(serde_json::Value::Object(v.clone()))).unwrap();
    assert_eq!((c.exp, c.iat), (20, 10));
    v.remove("iat");
    assert_eq!(
        invalid_token(token_claims(Ok(serde_json::Value::Object(v)))),
        "Token validation error: JSON error: missing or invalid field `iat`"
    );
    assert_eq!(invalid_token(token_claims(Err(JwtFailure::Expired))), "Token expired");
    assert_eq!(
        invalid_token(token_claims(Err(JwtFailure::Other("bad".to_string())))),
        "Token validation error: bad"
    );
}

#[test]
fn sandboxes_start_once_in_config_order() {
    let c = config(&["a", "b", "c"]);
    let selected = vec!["c".to_string(), "a".to_string(), "c".to_string()];
    let running = vec![RunningSandbox { name: "b".to_string(), supervisor_pid: 1 }];
    assert_eq!(sandboxes_to_start(&c, &selected, &running), vec!["a", "c"]);
}

#[test]
fn mapped_dirs_join_relative_hosts() {
    assert_eq!(mapped_dir_arg("/proj", "./src:/app/src"), "/proj/./src:/app/src");
    assert_eq!(mapped_dir_arg("/proj/", "data:/data"), "/proj/data:/data");
    assert_eq!(mapped_dir_arg("/proj", "/abs:/in"), "/abs:/in");
    assert_eq!(mapped_dir_arg("/proj", "cache"), "/proj/cache:cache");
    assert_eq!(mapped_dirs("/p", &vec!["a:/b".to_string(), "/c:/d".to_string()]), vec!["/p/a:/b", "/c:/d"]);
}

#[test]
fn sandbox_states_report_running_records() {
    let c = config(&["a", "b"]);
    let names = vec!["b".to_string(), "zz".to_string(), "a".to_string()];
    let records = vec![SandboxRecord {
        name: "a".to_string(),
        supervisor_pid: 7,
        microvm_pid: 8,
        rootfs_paths: "native:/r".to_string(),
    }];
    let s = sandbox_states(&c, &names, &records);
    assert_eq!(s.len(), 2);
    assert_eq!((s[0].name.as_str(), s[0].running, s[0].supervisor_pid, s[0].microvm_pid), ("b", false, None, None));
    assert!(s[0].rootfs_paths.is_none());
    assert_eq!((s[1].name.as_str(), s[1].running, s[1].supervisor_pid, s[1].microvm_pid), ("a", true, Some(7), Some(8)));
    assert_eq!(s[1].rootfs_paths.as_deref(), Some("native:/r"));
}

#[test]
fn blob_steps() {
    assert!(matches!(blob_step_before_fetch(Some(10), 10), BlobStep::UseExisting));
    assert!(matches!(blob_step_before_fetch(Some(4), 10), BlobStep::Fetch(4)));
    assert!(matches!(blob_step_before_fetch(Some(0), 10), BlobStep::Fetch(0)));
    assert!(matches!(blob_step_before_fetch(None, 10), BlobStep::Fetch(0)));
    assert!(matches!(blob_step_after_fetch("r", "sha256:ab", &[0xab], "ab"), BlobStep::Keep));
    match blob_step_after_fetch("r", "sha256:ab", &[0xcd], "ab") {
        BlobStep::RemoveAndFail(MicrosandboxError::ImageLayerDownloadFailed(m)) => {
            assert_eq!(m, "(r:sha256:ab) file hash cd does not match expected hash ab")
        }
        _ => panic!("expected removal"),
    }
}
