use microsandbox::cli::{
    build_sandbox_conflict, duration_parts, log_level, parse_duration_string, parse_file_path,
    parse_key_val, parse_name_and_script, try_parse_duration_string, usage, DurationUnit,
    MicrosandboxCliError,
};
use microsandbox::cli::{clean_plan, script_exec_conflict, scripts_with_start};

fn invalid_argument(e: MicrosandboxCliError) -> String {
    match e {
        MicrosandboxCliError::InvalidArgument(m) => m,
        _ => panic!("not an invalid argument"),
    }
}

#[test]
fn names_scripts_and_pairs() {
    assert_eq!(parse_name_and_script("app~test"), ("app", Some("test")));
    assert_eq!(parse_name_and_script("app"), ("app", None));
    assert_eq!(parse_name_and_script("a~b~c"), ("a", Some("b~c")));
    assert_eq!(parse_key_val("K=v=w").unwrap(), ("K".to_string(), "v=w".to_string()));
    assert_eq!(parse_key_val("K").unwrap_err(), "invalid KEY=value: no `=` found in `K`");
}

#[test]
fn file_paths() {
    assert_eq!(parse_file_path(None, false), (None, None));
    assert_eq!(parse_file_path(Some("proj"), true), (Some("proj".to_string()), None));
    assert_eq!(
        parse_file_path(Some("proj/Sandboxfile"), false),
        (Some("proj".to_string()), Some("Sandboxfile".to_string()))
    );
    assert_eq!(
        parse_file_path(Some("Sandboxfile"), false),
        (Some(".".to_string()), Some("Sandboxfile".to_string()))
    );
}

#[test]
fn durations() {
    assert_eq!(duration_parts(" 3h ").ok(), Some((3, DurationUnit::Hours)));
    assert_eq!(duration_parts("12").ok(), Some((12, DurationUnit::Hours)));
    assert_eq!(duration_parts("2mo").ok(), Some((2, DurationUnit::Months)));
    assert_eq!(invalid_argument(duration_parts("  ").unwrap_err()), "Empty duration string");
    assert_eq!(
        invalid_argument(duration_parts("h").unwrap_err()),
        "Invalid duration: h. No numeric value found."
    );
    assert_eq!(
        invalid_argument(duration_parts("5x").unwrap_err()),
        "Invalid duration unit: x. Expected one of: s, m, h, d, w, mo, y"
    );
    assert_eq!(
        invalid_argument(duration_parts("99999999999999999999s").unwrap_err()),
        "Invalid numeric value in duration: 99999999999999999999"
    );
    assert_eq!(parse_duration_string("2d").unwrap().num_seconds(), 172800);
    assert_eq!(parse_duration_string("1w").unwrap().num_seconds(), 604800);
    assert!(try_parse_duration_string("9223372036854775807s").is_none());
    assert_eq!(try_parse_duration_string("90s").unwrap().unwrap().num_seconds(), 90);
}

#[test]
fn usage_and_levels() {
    assert_eq!(usage("run", Some("<NAME>"), Some("ARGS")), "msb run [OPTIONS] <NAME> [-- ARGS... ]");
    assert_eq!(usage("up", None, None), "msb up [OPTIONS] ");
    assert_eq!(
        log_level(false, true, true, false, false),
        Some("microsandbox=debug,msb=debug".to_string())
    );
    assert_eq!(log_level(false, false, false, false, false), None);
    assert!(build_sandbox_conflict(true, true).is_some());
    assert!(build_sandbox_conflict(true, false).is_none());
}

#[test]
fn subcommand_rules() {
    assert!(script_exec_conflict(Some("s"), Some("e")).is_some());
    assert!(script_exec_conflict(None, Some("e")).is_none());
    let plan = clean_plan(true, false, true);
    assert!(plan.home && plan.user_scripts && !plan.project);
    let plan = clean_plan(false, false, true);
    assert!(!plan.home && !plan.user_scripts && plan.project);
    let scripts = vec![("start".to_string(), "a".to_string()), ("test".to_string(), "t".to_string())];
    let merged = scripts_with_start(scripts, Some("b".to_string()));
    assert_eq!(merged.last(), Some(&("start".to_string(), "b".to_string())));
}

#[test]
fn durations_read_back() {
    let units = [
        ("s", DurationUnit::Seconds),
        ("m", DurationUnit::Minutes),
        ("h", DurationUnit::Hours),
        ("d", DurationUnit::Days),
        ("w", DurationUnit::Weeks),
        ("mo", DurationUnit::Months),
        ("y", DurationUnit::Years),
        ("", DurationUnit::Hours),
    ];
    for count in [0u64, 7, 1234, i64::MAX as u64] {
        for (suffix, unit) in units {
            assert_eq!(duration_parts(&format!("{count}{suffix}")).ok(), Some((count as i64, unit)));
        }
    }
}
