use microsandbox::config::{
    determine_exec_path_and_args, validate_sandbox_names, Microsandbox, NetworkScope, Sandbox,
};
use microsandbox::error::MicrosandboxError;
use microsandbox::home::{alias_name, generate_alias_script, install_command};
use microsandbox::oci::reference::Reference;
use microsandbox::orchestra::{
    disk_usage_path, memory_mib,
    foreground_outcome, pids_column, prefix_color, sandboxes_to_start, sandboxes_to_stop,
    selected_sandboxes, unconfigured_running, ExitReport, OutputColor, RunningSandbox,
};
use microsandbox::supervisor::{supervisor_args, Rootfs, SupervisorSpec};
use microsandbox::config::{Build, Meta, MicrosandboxBuilder, Module, SandboxBuilder};

fn sandbox(scripts: Vec<(&str, &str)>, command: Vec<&str>, shell: Option<&str>) -> Sandbox {
    Sandbox {
        version: None,
        meta: None,
        image: "alpine:latest".to_string(),
        memory: None,
        cpus: None,
        volumes: vec![],
        ports: vec![],
        envs: vec![],
        depends_on: vec![],
        workdir: None,
        shell: shell.map(String::from),
        scripts: scripts.into_iter().map(|(a, b)| (a.to_string(), b.to_string())).collect(),
        command: command.into_iter().map(String::from).collect(),
        imports: vec![],
        exports: vec![],
        scope: NetworkScope::default_scope(),
    }
}

fn project(names: &[&str]) -> Microsandbox {
    Microsandbox {
        meta: None,
        modules: vec![],
        builds: vec![],
        sandboxes: names
            .iter()
            .map(|n| (n.to_string(), sandbox(vec![], vec![], Some("/bin/sh"))))
            .collect(),
    }
}

#[test]
fn network_scopes() {
    for (text, scope) in [
        ("none", NetworkScope::NoNetwork),
        ("Group", NetworkScope::Group),
        ("PUBLIC", NetworkScope::Public),
        ("any", NetworkScope::Any),
    ] {
        assert_eq!(NetworkScope::try_from_str(text).ok(), Some(scope));
        assert_eq!(NetworkScope::try_from_str(&scope.to_string()).ok(), Some(scope));
        assert_eq!(NetworkScope::try_from_u8(scope.as_u8()).ok(), Some(scope));
    }
    assert!(matches!(NetworkScope::try_from_str("lan"), Err(MicrosandboxError::InvalidNetworkScope(s)) if s == "lan"));
    assert!(matches!(NetworkScope::try_from_u8(9), Err(MicrosandboxError::InvalidNetworkScope(s)) if s == "9"));
    assert_eq!(NetworkScope::default_scope(), NetworkScope::Public);
    assert_eq!("Group".parse::<NetworkScope>().ok(), Some(NetworkScope::Group));
    assert!("lan".parse::<NetworkScope>().is_err());
}

#[test]
fn sandbox_validation() {
    assert!(sandbox(vec![("start", "echo")], vec![], None).validate().is_ok());
    assert!(sandbox(vec![], vec!["ls"], None).validate().is_ok());
    assert!(matches!(
        sandbox(vec![("other", "x")], vec![], None).validate(),
        Err(MicrosandboxError::MissingStartOrExecOrShell)
    ));
    let config = Microsandbox {
        sandboxes: vec![("a".to_string(), sandbox(vec![], vec![], None))],
        ..project(&[])
    };
    assert!(config.validate().is_err());
    assert!(project(&["a"]).get_sandbox("a").is_some());
    assert!(project(&["a"]).get_sandbox("b").is_none());
}

#[test]
fn exec_path_and_args() {
    let s = sandbox(vec![("start", "echo"), ("test", "t")], vec!["python", "-m", "http.server"], Some("/bin/sh"));
    assert_eq!(determine_exec_path_and_args(Some("bash"), None, &s, "x").unwrap(), ("bash".to_string(), vec![]));
    assert_eq!(
        determine_exec_path_and_args(None, Some("test"), &s, "x").unwrap().0,
        ".sandbox/scripts/test"
    );
    assert_eq!(
        determine_exec_path_and_args(None, Some("shell"), &s, "x").unwrap().0,
        ".sandbox/scripts/shell"
    );
    assert!(matches!(
        determine_exec_path_and_args(None, Some("nope"), &s, "x"),
        Err(MicrosandboxError::ScriptNotFoundInSandbox(a, b)) if a == "nope" && b == "x"
    ));
    assert_eq!(determine_exec_path_and_args(None, None, &s, "x").unwrap().0, ".sandbox/scripts/start");
    let c = sandbox(vec![], vec!["python", "-m", "http.server"], Some("/bin/sh"));
    assert_eq!(
        determine_exec_path_and_args(None, None, &c, "x").unwrap(),
        ("python".to_string(), vec!["-m".to_string(), "http.server".to_string()])
    );
    let sh = sandbox(vec![], vec![], Some("/bin/sh"));
    assert_eq!(determine_exec_path_and_args(None, None, &sh, "x").unwrap().0, "/bin/sh");
    let none = sandbox(vec![], vec![], None);
    assert!(matches!(
        determine_exec_path_and_args(None, None, &none, "x"),
        Err(MicrosandboxError::MissingStartOrExecOrShell)
    ));
}

#[test]
fn requested_sandboxes() {
    let config = project(&["a", "b", "c"]);
    let names = vec!["b".to_string(), "x".to_string(), "y".to_string()];
    assert!(matches!(
        validate_sandbox_names(&names, &config, "/p/Sandboxfile"),
        Err(MicrosandboxError::SandboxNotFoundInConfig(n, p)) if n == "x, y" && p == "/p/Sandboxfile"
    ));
    assert_eq!(selected_sandboxes(&vec![], &config, "p").unwrap(), vec!["a", "b", "c"]);
    let running = vec![
        RunningSandbox { name: "a".to_string(), supervisor_pid: 10 },
        RunningSandbox { name: "old".to_string(), supervisor_pid: 11 },
    ];
    let all = selected_sandboxes(&vec![], &config, "p").unwrap();
    assert_eq!(sandboxes_to_start(&config, &all, &running), vec!["b", "c"]);
    assert_eq!(sandboxes_to_stop(&config, &all, &running), vec![10]);
    assert_eq!(unconfigured_running(&config, &running), vec![11]);
}

#[test]
fn foreground_runs() {
    assert_eq!(prefix_color(8), OutputColor::Blue);
    assert_eq!(pids_column(true, Some(3), None), "3/0");
    assert_eq!(pids_column(false, Some(3), None), "-");
    let reports = vec![
        ExitReport { name: "a".to_string(), exit_code: 0, success: true },
        ExitReport { name: "b".to_string(), exit_code: 2, success: false },
        ExitReport { name: "c".to_string(), exit_code: -1, success: false },
    ];
    assert!(matches!(
        foreground_outcome(&reports),
        Err(MicrosandboxError::SupervisorError(m))
            if m == "The following sandboxes failed: b | exit code: 2, c | exit code: -1"
    ));
    assert!(foreground_outcome(&vec![]).is_ok());
}

#[test]
fn supervisor_command_line() {
    let spec = SupervisorSpec {
        log_dir: "/l".to_string(),
        sandbox_name: "s".to_string(),
        config_file: "Sandboxfile".to_string(),
        config_last_modified: "2024-01-01T00:00:00+00:00".to_string(),
        sandbox_db_path: "/db".to_string(),
        scope: NetworkScope::Group,
        exec_path: "/bin/sh".to_string(),
        cpus: Some(2),
        memory: None,
        workdir: None,
        envs: vec!["A=1".to_string()],
        ports: vec![],
        volumes: vec![],
        rootfs: Rootfs::Native("/root".to_string()),
        detach: false,
        args: vec![],
        exec_args: vec!["-c".to_string()],
    };
    let args = supervisor_args(&spec);
    assert_eq!(
        args,
        vec![
            "supervisor", "--log-dir", "/l", "--sandbox-name", "s", "--config-file", "Sandboxfile",
            "--config-last-modified", "2024-01-01T00:00:00+00:00", "--sandbox-db-path", "/db",
            "--scope", "group", "--exec-path", "/bin/sh", "--num-vcpus", "2", "--env", "A=1",
            "--native-rootfs", "/root", "--forward-output", "--", "-c",
        ]
    );
}

#[test]
fn installed_aliases() {
    let image = Reference::parse("docker.io/library/python:3.12").unwrap();
    assert_eq!(alias_name(None, None, &image), "python");
    assert_eq!(alias_name(None, Some("test"), &image), "test");
    assert_eq!(alias_name(Some("py"), Some("test"), &image), "py");
    assert_eq!(install_command(Some("python"), &vec!["-V".to_string()]), Some(vec!["python".to_string(), "-V".to_string()]));
    let script = generate_alias_script("py", Some("repl"));
    assert!(script.starts_with("#!/bin/sh\n# MSB-ALIAS: py\n# Alias for 'msb run py~repl' from installed sandbox\n"));
    assert!(script.ends_with("exec \"$MSB_PATH\" run \"py~repl\" -f \"$HOME/.microsandbox/installs\" \"$@\"\n"));
}

#[test]
fn builders() {
    let s = Sandbox::builder().image("alpine".to_string()).memory(512).cpus(2).shell("/bin/bash").build();
    assert_eq!(s.image, "alpine");
    assert_eq!(s.memory, Some(512));
    assert_eq!(s.shell.as_deref(), Some("/bin/bash"));
    assert_eq!(s.scope, NetworkScope::Public);
    let defaults = Sandbox::builder().image("alpine".to_string()).build();
    assert_eq!(defaults.shell.as_deref(), Some("/bin/sh"));
    let built: MicrosandboxBuilder = Microsandbox::builder().sandboxes(vec![("a".to_string(), defaults)]);
    assert!(built.build().is_ok());
    let no_start = Sandbox { shell: None, ..Sandbox::builder().image("x".to_string()).build() };
    assert!(Microsandbox::builder().sandboxes(vec![("b".to_string(), no_start)]).build().is_err());
}

fn meta(description: &str) -> Meta {
    Meta {
        authors: Some(vec!["a".to_string()]),
        description: Some(description.to_string()),
        homepage: None,
        repository: None,
        readme: None,
        tags: None,
        icon: None,
    }
}

fn build(image: &str) -> Build {
    Build {
        image: image.to_string(),
        memory: None,
        cpus: None,
        volumes: vec![],
        ports: vec![],
        envs: vec![],
        depends_on: vec![],
        workdir: None,
        shell: None,
        steps: vec!["make".to_string()],
        command: vec![],
        imports: vec![],
        exports: vec![],
    }
}

#[test]
fn builder_metadata_and_builds() {
    let s = Sandbox::builder()
        .version("1.2.3".to_string())
        .meta(meta("web"))
        .env_file(".env".to_string())
        .image("alpine".to_string())
        .build();
    assert_eq!(s.version.as_deref(), Some("1.2.3"));
    assert_eq!(s.meta.as_ref().and_then(|m| m.description.as_deref()), Some("web"));
    let defaults: SandboxBuilder<()> = SandboxBuilder::default();
    assert!(defaults.env_file.is_none() && defaults.version.is_none());
    assert_eq!(defaults.shell.as_deref(), Some("/bin/sh"));
    let with_env = SandboxBuilder::default().env_file("vars.env".to_string());
    assert_eq!(with_env.env_file.as_deref(), Some("vars.env"));

    let config = Microsandbox::builder()
        .meta(meta("project"))
        .modules(vec![("m".to_string(), Module(vec![("c".to_string(), None)]))])
        .builds(vec![("b1".to_string(), build("rust")), ("b1".to_string(), build("other"))])
        .sandboxes(vec![("s".to_string(), s)])
        .build()
        .unwrap();
    assert_eq!(config.meta.as_ref().and_then(|m| m.description.as_deref()), Some("project"));
    assert_eq!(config.modules.len(), 1);
    assert_eq!(config.get_build("b1").map(|b| b.image.as_str()), Some("other"));
    assert_eq!(config.builds.len(), 1);
    assert!(config.get_build("b2").is_none());
    assert!(config.get_sandbox("s").is_some());
    let empty = MicrosandboxBuilder::default().build_unchecked();
    assert!(empty.meta.is_none() && empty.builds.is_empty() && empty.sandboxes.is_empty());
}

#[test]
fn status_measurements() {
    assert_eq!(disk_usage_path("native:/srv/root").as_deref(), Some("/srv/root"));
    assert_eq!(disk_usage_path("overlayfs:/a:/b:/top").as_deref(), Some("/top"));
    assert_eq!(disk_usage_path("other"), None);
    assert_eq!(memory_mib(3 * 1024 * 1024 + 5), 3);
    assert_eq!(memory_mib(1024), 0);
}
