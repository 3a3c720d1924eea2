use microsandbox::error::MicrosandboxError;
use microsandbox::oci::auth::{extract_name_from_reference, normalize_registry_host, registry_host_for_reference};
use microsandbox::oci::layer::{
    desired_permission_bits, get_full_mode, stat_xattr_value, EntryKind, HardLink, HardLinkVec,
};
use microsandbox::oci::reference::Reference;
use microsandbox::oci::registry;
use microsandbox::oci::registry::{
    auth_scope, parse_credential_inputs, plan_layer_download, range_header, resolve_auth,
    resolve_digest_for_platform, resolve_explicit_credentials, IndexEntry, LayerDownload,
    ParsedCredentials, PlatformInfo, RegistryAuth, StoredRegistryCredentials,
};
use microsandbox::oci::layer::{image_fully_extracted, layer_parents, ImageLayerBlob};
use microsandbox::oci::registry::{layer_record, selector_reference, LayerRecord, ReferenceSelector};

fn stored_token(t: &str) -> Option<StoredRegistryCredentials> {
    Some(StoredRegistryCredentials::Token { token: t.to_string() })
}

#[test]
fn normalize_registry_host_maps_index_docker_io() {
    assert_eq!(normalize_registry_host("index.docker.io"), "docker.io");
}

#[test]
fn auth_normalize_registry_host_strips_scheme_and_slash() {
    assert_eq!(normalize_registry_host("https://Docker.IO/"), "docker.io");
}

#[test]
fn normalize_registry_host_preserves_index_docker_io() {
    assert_eq!(registry::normalize_registry_host("index.docker.io"), "index.docker.io");
}

#[test]
fn registry_normalize_registry_host_strips_scheme_and_slash() {
    assert_eq!(registry::normalize_registry_host("https://Docker.IO/"), "docker.io");
}

#[test]
fn resolve_registry_uses_explicit_registry_host() {
    let reference = Reference::parse("ghcr.io/org/app:1.0").unwrap();
    assert_eq!(reference.resolve_registry(), "ghcr.io");
}

#[test]
fn resolve_registry_uses_index_docker_io_when_host_missing() {
    let reference = Reference::parse("org/app:1.0").unwrap();
    assert_eq!(reference.resolve_registry(), "index.docker.io");
}

#[test]
fn resolve_registry_reflects_upstream_normalization_for_index_docker_io() {
    let reference = Reference::parse("index.docker.io/library/nginx:latest").unwrap();
    assert_eq!(reference.resolve_registry(), "index.docker.io");
}

#[test]
fn resolve_explicit_credentials_prefers_token() {
    let auth = resolve_explicit_credentials(None, None, Some("token-123".to_string())).unwrap();
    assert!(matches!(
        auth,
        StoredRegistryCredentials::Token { token } if token == "token-123"
    ));
}

#[test]
fn resolve_explicit_credentials_accepts_basic() {
    let auth =
        resolve_explicit_credentials(Some("user".to_string()), Some("pass".to_string()), None)
            .unwrap();
    assert!(matches!(
        auth,
        StoredRegistryCredentials::Basic { username, password }
            if username == "user" && password == "pass"
    ));
}

#[test]
fn resolve_explicit_credentials_errors() {
    let missing = resolve_explicit_credentials(None, None, None);
    assert!(matches!(missing, Err(MicrosandboxError::InvalidArgument(m))
        if m == "no credentials provided; explicitly pass --token or --username with --password-stdin"));
    let half = resolve_explicit_credentials(Some("user".to_string()), None, None);
    assert!(matches!(half, Err(MicrosandboxError::InvalidArgument(m))
        if m == "both username and password are required"));
    let both = resolve_explicit_credentials(Some("u".to_string()), None, Some("t".to_string()));
    assert!(matches!(both, Err(MicrosandboxError::InvalidArgument(m))
        if m == "token cannot be combined with username/password"));
}

#[test]
fn parse_credential_inputs_classifies() {
    assert!(matches!(parse_credential_inputs(None, None, None), Ok(ParsedCredentials::Missing)));
    assert!(matches!(
        parse_credential_inputs(None, Some("p".to_string()), None),
        Ok(ParsedCredentials::Incomplete)
    ));
}

// The decisions of registry auth resolution, with the environment's credentials
// and the stored credentials of the registry given as values.

#[test]
fn resolve_auth_prefers_env_token() {
    let auth = resolve_auth(None, None, Some("env-token".to_string()), stored_token("stored-token"))
        .expect("resolve auth");
    assert!(matches!(auth, RegistryAuth::Bearer(t) if t == "env-token"));
}

#[test]
fn resolve_auth_prefers_env_basic() {
    let auth = resolve_auth(
        Some("env-user".to_string()),
        Some("env-pass".to_string()),
        None,
        stored_token("stored-token"),
    )
    .expect("resolve auth");
    assert!(matches!(auth, RegistryAuth::Basic(u, p) if u == "env-user" && p == "env-pass"));
}

#[test]
fn resolve_auth_uses_stored_credentials_when_env_missing() {
    let auth = resolve_auth(None, None, None, stored_token("stored-token")).expect("resolve auth");
    assert!(matches!(auth, RegistryAuth::Bearer(t) if t == "stored-token"));
}

#[test]
fn resolve_auth_falls_back_to_stored_when_env_is_incomplete() {
    let auth = resolve_auth(Some("env-user".to_string()), None, None, stored_token("stored-token"))
        .expect("resolve auth");
    assert!(matches!(auth, RegistryAuth::Bearer(t) if t == "stored-token"));
}

#[test]
fn resolve_auth_returns_anonymous_when_missing() {
    let auth = resolve_auth(None, None, None, None).expect("resolve auth");
    assert!(matches!(auth, RegistryAuth::Anonymous));
}

#[test]
fn resolve_auth_errors_on_token_and_basic() {
    let err = resolve_auth(
        Some("env-user".to_string()),
        Some("env-pass".to_string()),
        Some("env-token".to_string()),
        None,
    )
    .expect_err("expected error");
    assert!(matches!(err, MicrosandboxError::InvalidArgument(_)));
}

#[test]
fn resolve_registry_auth_prefers_env_token() {
    let auth = resolve_auth(None, None, Some("env-token".to_string()), stored_token("stored-token"))
        .expect("resolve auth");
    assert!(matches!(auth, RegistryAuth::Bearer(t) if t == "env-token"));
}

#[test]
fn resolve_registry_auth_prefers_env_basic() {
    let auth = resolve_auth(
        Some("env-user".to_string()),
        Some("env-pass".to_string()),
        None,
        stored_token("stored-token"),
    )
    .expect("resolve auth");
    assert!(matches!(auth, RegistryAuth::Basic(u, p) if u == "env-user" && p == "env-pass"));
}

#[test]
fn resolve_registry_auth_falls_back_to_stored() {
    let auth = resolve_auth(None, None, None, stored_token("stored-token")).expect("resolve auth");
    assert!(matches!(auth, RegistryAuth::Bearer(t) if t == "stored-token"));
}

#[test]
fn resolve_registry_auth_returns_anonymous_when_missing() {
    let auth = resolve_auth(None, None, None, None).expect("resolve auth");
    assert!(matches!(auth, RegistryAuth::Anonymous));
}

#[test]
fn resolve_registry_auth_errors_on_token_and_basic() {
    let err = resolve_auth(
        Some("env-user".to_string()),
        Some("env-pass".to_string()),
        Some("env-token".to_string()),
        None,
    )
    .expect_err("expected error");
    assert!(matches!(err, MicrosandboxError::InvalidArgument(_)));
}

#[test]
fn resolves_stored_credentials_when_env_missing() {
    let auth = resolve_auth(None, None, None, stored_token("stored-token")).expect("resolve auth");
    assert!(matches!(auth, RegistryAuth::Bearer(t) if t == "stored-token"));
}

#[test]
fn env_overrides_with_token_when_present() {
    let auth = resolve_auth(None, None, Some("env-token".to_string()), None).expect("resolve auth");
    assert!(matches!(auth, RegistryAuth::Bearer(t) if t == "env-token"));
}

#[test]
fn incomplete_env_falls_back_to_stored_credentials() {
    let auth = resolve_auth(Some("env-user".to_string()), None, None, stored_token("stored-token"))
        .expect("resolve auth");
    assert!(matches!(auth, RegistryAuth::Bearer(t) if t == "stored-token"));
}

#[test]
fn reference_text_and_hosts() {
    let reference = Reference::parse("docker.io/library/ubuntu:latest").unwrap();
    assert_eq!(reference.registry(), "docker.io");
    assert_eq!(reference.resolve_registry(), "index.docker.io");
    assert_eq!(extract_name_from_reference(&reference), "ubuntu");
    assert_eq!(reference.to_string(), reference.as_db_key());
    let ghcr = Reference::parse("ghcr.io/org/app:1.0").unwrap();
    assert_eq!(registry_host_for_reference(&ghcr, "docker.io"), "ghcr.io");
    assert!(Reference::parse("Not A Reference!!").is_err());
}

#[test]
fn platform_digest_selection() {
    let entry = |os: &str, arch: &str, digest: &str| IndexEntry {
        digest: digest.to_string(),
        platform: Some(PlatformInfo { os: os.to_string(), architecture: arch.to_string() }),
        attestation: false,
    };
    let manifests = vec![entry("linux", "arm64", "sha256:a"), entry("linux", "amd64", "sha256:b")];
    assert_eq!(resolve_digest_for_platform("linux", "amd64", &manifests), Some("sha256:b".to_string()));
    assert_eq!(resolve_digest_for_platform("linux", "s390x", &manifests), None);
}

#[test]
fn layer_download_plans() {
    assert!(matches!(plan_layer_download(None, 10), LayerDownload::Fresh));
    assert!(matches!(plan_layer_download(Some(10), 10), LayerDownload::AlreadyComplete));
    assert!(matches!(plan_layer_download(Some(4), 10), LayerDownload::Resume(4)));
    assert_eq!(range_header(5, 9), "bytes=5-9");
    assert_eq!(
        auth_scope("org/app", &vec!["pull", "push"]),
        "repository:org/app:pull,push"
    );
}

#[test]
fn file_modes_and_xattr_values() {
    assert_eq!(get_full_mode(EntryKind::File, 0o644), 0o100644);
    assert_eq!(get_full_mode(EntryKind::Directory, 0o755), 0o040755);
    assert_eq!(get_full_mode(EntryKind::HardLink, 0o644), 0o644);
    assert_eq!(stat_xattr_value(1000, 100, 0o100644), "1000:100:0100644");
    assert_eq!(desired_permission_bits(0o100400, false), (0o600, true));
    assert_eq!(desired_permission_bits(0o040755, true), (0o755, false));
    let mut links = HardLinkVec::new();
    links.push(HardLink {
        link_path: "/a".to_string(),
        target_path: "/b".to_string(),
        uid: 0,
        gid: 0,
        mode: 0o100644,
    });
    assert_eq!(links.hard_links.len(), 1);
    assert_eq!(links.hard_links[0].link_path, "/a");
}

#[test]
fn layer_parents_and_cache() {
    let layers: Vec<String> = ["a", "b", "c"].iter().map(|s| s.to_string()).collect();
    assert_eq!(layer_parents(&layers, "b"), vec!["c".to_string()]);
    assert_eq!(layer_parents(&layers, "c"), Vec::<String>::new());
    assert_eq!(layer_parents(&layers, "z"), layers);
    assert!(image_fully_extracted(true, 3, true, Some(3)));
    assert!(!image_fully_extracted(true, 3, true, Some(2)));
    assert!(!image_fully_extracted(true, 0, true, Some(0)));
}

#[test]
fn selectors_and_layer_records() {
    let tag = ReferenceSelector::Tag { tag: "1.0".to_string(), digest: None };
    assert_eq!(selector_reference(&tag), "1.0");
    let pinned = ReferenceSelector::Tag {
        tag: "1.0".to_string(),
        digest: Some(("sha256".to_string(), "ab".to_string())),
    };
    assert_eq!(selector_reference(&pinned), "1.0@sha256:ab");
    let digest = ReferenceSelector::Digest("sha256".to_string(), "ab".to_string());
    assert_eq!(selector_reference(&digest), "@sha256:ab");
    assert!(matches!(layer_record(true, Some(4)), LayerRecord::Save));
    assert!(matches!(layer_record(false, Some(4)), LayerRecord::Existing(4)));
    assert!(matches!(layer_record(false, None), LayerRecord::Save));
}

#[test]
fn layer_hash_check() {
    assert_eq!(registry::hex_encode(&[0x00, 0x0f, 0xab, 0xff]), "000fabff");
    assert_eq!(registry::hex_encode(&[]), "");
    assert!(registry::check_layer_hash("alpine", "sha256:1", &[0xde, 0xad], "dead").is_ok());
    assert!(matches!(
        registry::check_layer_hash("alpine", "sha256:1", &[0xbe, 0xef], "dead"),
        Err(MicrosandboxError::ImageLayerDownloadFailed(m))
            if m == "(alpine:sha256:1) file hash beef does not match expected hash dead"
    ));
}

#[test]
fn registry_host_spellings_share_a_key() {
    for spelling in ["Docker.IO", "  docker.io\n", "\tDOCKER.io ", "https://Docker.io/"] {
        assert_eq!(normalize_registry_host(spelling), normalize_registry_host("docker.io"));
    }
    assert_eq!(registry::normalize_registry_host(" GHCR.io/ "), "ghcr.io");
    assert_eq!(registry::normalize_registry_host("Index.Docker.IO"), "index.docker.io");
}

#[test]
fn layer_blob_download_path() {
    let downloaded = ImageLayerBlob::Downloaded("sha256:ab".to_string(), "/tmp/ab.tar".to_string());
    assert_eq!(downloaded.download_path().as_deref(), Some("/tmp/ab.tar"));
    let cached = ImageLayerBlob::ExistsInGlobalCache("sha256:ab".to_string());
    assert_eq!(cached.download_path(), None);
}
