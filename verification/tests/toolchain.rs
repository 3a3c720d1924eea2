use microsandbox::config::NetworkScope;
use microsandbox::error::MicrosandboxError;
use microsandbox::home::{check_alias_free, check_alias_uninstall, generate_alias_script, install_sandbox};
use microsandbox::text::contains_text;
use microsandbox::toolchain::{
    cleans_user_script, is_versioned_library, uninstalled_base_libraries, uninstalled_executables,
    versioned_library_prefixes,
};

#[test]
fn toolchain_files() {
    assert_eq!(uninstalled_executables(), vec!["msb", "msbrun", "msr", "msx", "msi", "msbserver"]);
    assert_eq!(
        uninstalled_base_libraries(),
        vec!["libkrun.dylib", "libkrunfw.dylib", "libkrun.so", "libkrunfw.so"]
    );
    assert_eq!(versioned_library_prefixes(), vec!["libkrun", "libkrunfw"]);
}

#[test]
fn versioned_libraries() {
    assert!(is_versioned_library("libkrun.1.dylib", "libkrun"));
    assert!(is_versioned_library("libkrun.so.1.9", "libkrun"));
    assert!(!is_versioned_library("libkrunfw.so.4", "libkrun"));
    assert!(is_versioned_library("libkrunfw.so.4", "libkrunfw"));
    assert!(!is_versioned_library("libkrun", "libkrun"));
    assert!(!is_versioned_library("other.so.1", "libkrun"));
}

#[test]
fn cleaning_user_scripts() {
    let script = generate_alias_script("ubuntu-shell", None);
    assert!(cleans_user_script(Some("ubuntu-shell"), Some(&script)));
    assert!(!cleans_user_script(Some("msi"), Some(&script)));
    assert!(!cleans_user_script(Some("tool"), Some("#!/bin/sh\necho hi\n")));
    assert!(!cleans_user_script(Some("binary"), None));
    assert!(cleans_user_script(None, Some("# MSB-ALIAS: x")));
}

#[test]
fn text_search() {
    assert!(contains_text("abc# MSB-ALIAS:", "# MSB-ALIAS:"));
    assert!(contains_text("abc", ""));
    assert!(!contains_text("ab", "abc"));
    assert!(!contains_text("aXbXc", "bc"));
}

#[test]
fn alias_install_and_uninstall_checks() {
    assert!(check_alias_free("py", false).is_ok());
    assert!(matches!(check_alias_free("ls", true), Err(MicrosandboxError::CommandExists(n)) if n == "ls"));
    let script = generate_alias_script("py", Some("repl"));
    assert!(check_alias_uninstall("py", "/home/u/.local/bin/py", Some(&script)).is_ok());
    assert!(matches!(
        check_alias_uninstall("py", "/home/u/.local/bin/py", None),
        Err(MicrosandboxError::PathNotFound(m)) if m == "Script 'py' not found at /home/u/.local/bin/py"
    ));
    assert!(matches!(
        check_alias_uninstall("py", "/b/py", Some("#!/bin/sh\n")),
        Err(MicrosandboxError::InvalidArgument(m))
            if m == "Script 'py' is not a microsandbox alias (missing MSB-ALIAS marker)"
    ));
}

#[test]
fn installed_sandbox_config() {
    let sb = install_sandbox(
        "python".to_string(),
        Some(2),
        Some(1024),
        None,
        vec!["./data:/data".to_string()],
        vec![],
        vec!["A=1".to_string()],
        Some("Any"),
    )
    .unwrap();
    assert_eq!(sb.image, "python");
    assert_eq!(sb.cpus, Some(2));
    assert_eq!(sb.memory, Some(1024));
    assert_eq!(sb.volumes, vec!["./data:/data"]);
    assert!(sb.ports.is_empty());
    assert_eq!(sb.scope, NetworkScope::Any);
    assert_eq!(sb.shell.as_deref(), Some("/bin/sh"));
    let default_scope = install_sandbox("x".to_string(), None, None, None, vec![], vec![], vec![], None).unwrap();
    assert_eq!(default_scope.scope, NetworkScope::Public);
    assert!(matches!(
        install_sandbox("x".to_string(), None, None, None, vec![], vec![], vec![], Some("lan")),
        Err(MicrosandboxError::InvalidNetworkScope(s)) if s == "lan"
    ));
}
