use vibeguard_runtime::wrapper_env::{
    found_project_root, is_stale_session_entry, join_path, log_root, nonempty_value,
    project_root_step, project_root_step_with, project_root_text, sanitize_token, session_expired,
    session_file_path, session_id_from_digest, session_id_from_text, wrapper_cli_name,
    wrapper_env_layout, wrapper_env_report, wrapper_env_usage_error, Elapsed, ProjectRootStep,
    WrapperEnvOverrides,
};

fn s(v: &str) -> String {
    v.to_string()
}

#[test]
fn token_sanitizer_keeps_session_file_names_safe() {
    assert_eq!(sanitize_token("codex-cli"), "codex-cli");
    assert_eq!(sanitize_token("bad/value"), "bad_value");
    assert_eq!(sanitize_token(""), "unknown");
}

#[test]
fn sanitizer_replaces_each_unsafe_character() {
    assert_eq!(sanitize_token("a b.c_d-E9"), "a_b.c_d-E9");
    assert_eq!(sanitize_token("é/"), "__");
    assert_eq!(sanitize_token(" "), "_");
    // idempotent
    let once = sanitize_token("x/y z");
    assert_eq!(sanitize_token(&once), once);
    assert_eq!(sanitize_token(&sanitize_token("")), "unknown");
}

#[test]
fn blank_environment_values_do_not_count() {
    assert_eq!(nonempty_value(None), None);
    assert_eq!(nonempty_value(Some(s(""))), None);
    assert_eq!(nonempty_value(Some(s(" \t\n\u{3000}"))), None);
    assert_eq!(nonempty_value(Some(s(" x "))), Some(s(" x ")));
}

#[test]
fn paths_join_as_on_unix() {
    assert_eq!(join_path("/home/u", ".vibeguard"), "/home/u/.vibeguard");
    assert_eq!(join_path("/home/u/", ".vibeguard"), "/home/u/.vibeguard");
    assert_eq!(join_path("", "projects"), "projects");
    assert_eq!(join_path("/logs", "/abs"), "/abs");
    assert_eq!(join_path("a", ""), "a/");
    for (base, comp) in [("/home/u", "x"), ("rel/", "y"), ("", "z"), ("/q", "/r"), ("a", "")] {
        let expected = std::path::Path::new(base).join(comp);
        assert_eq!(join_path(base, comp), expected.to_string_lossy());
    }
}

#[test]
fn log_root_prefers_env_then_home() {
    assert_eq!(log_root(Some(s("/var/vg")), Some(s("/home/u"))), "/var/vg");
    assert_eq!(log_root(Some(s("  ")), Some(s("/home/u"))), "/home/u/.vibeguard");
    assert_eq!(log_root(None, None), ".vibeguard");
}

#[test]
fn cli_name_prefers_env_then_argument() {
    assert_eq!(wrapper_cli_name(Some(s("aider")), &vec![s("codex")]), "aider");
    assert_eq!(wrapper_cli_name(Some(s(" ")), &vec![s("codex")]), "codex");
    assert_eq!(wrapper_cli_name(None, &vec![s("  ")]), "unknown");
    assert_eq!(wrapper_cli_name(None, &vec![]), "unknown");
}

#[test]
fn wrapper_env_takes_at_most_one_argument() {
    assert_eq!(wrapper_env_usage_error(&vec![]), None);
    assert_eq!(wrapper_env_usage_error(&vec![s("a")]), None);
    assert_eq!(
        wrapper_env_usage_error(&vec![s("a"), s("b")]),
        Some(s("Usage: vibeguard-runtime wrapper-env [cli]"))
    );
}

#[test]
fn project_root_text_is_global_outside_projects() {
    assert_eq!(project_root_text(&None), "global");
    assert_eq!(project_root_text(&Some(s("/repo"))), "/repo");
}

fn no_overrides() -> WrapperEnvOverrides {
    WrapperEnvOverrides { cli: None, project_hash: None, project_log_dir: None, log_file: None }
}

#[test]
fn layout_defaults_under_the_log_root() {
    let layout = wrapper_env_layout(no_overrides(), &vec![s("codex")], "/home/u/.vibeguard", Some(s("/repo")), s("abc123"));
    assert_eq!(layout.cli, "codex");
    assert_eq!(layout.project_root_text, "/repo");
    assert_eq!(layout.project_hash, "abc123");
    assert_eq!(layout.project_log_dir, "/home/u/.vibeguard/projects/abc123");
    assert_eq!(layout.log_file, "/home/u/.vibeguard/projects/abc123/events.jsonl");
    assert_eq!(
        layout.project_root_record,
        Some((s("/home/u/.vibeguard/projects/abc123/.project-root"), s("/repo")))
    );
}

#[test]
fn layout_honours_overrides() {
    let overrides = WrapperEnvOverrides {
        cli: Some(s("gemini")),
        project_hash: Some(s("h1")),
        project_log_dir: Some(s("/tmp/pl")),
        log_file: Some(s("/tmp/log.jsonl")),
    };
    let layout = wrapper_env_layout(overrides, &vec![], "/lr", None, s("ignored"));
    assert_eq!(layout.cli, "gemini");
    assert_eq!(layout.project_root_text, "global");
    assert_eq!(layout.project_hash, "h1");
    assert_eq!(layout.project_log_dir, "/tmp/pl");
    assert_eq!(layout.log_file, "/tmp/log.jsonl");
    assert_eq!(layout.project_root_record, None);

    let overrides = WrapperEnvOverrides { project_hash: Some(s("h2")), ..no_overrides() };
    let layout = wrapper_env_layout(overrides, &vec![], "/lr", None, s("ignored"));
    assert_eq!(layout.project_log_dir, "/lr/projects/h2");
    assert_eq!(layout.log_file, "/lr/projects/h2/events.jsonl");
}

#[test]
fn report_prints_five_assignments() {
    let layout = wrapper_env_layout(no_overrides(), &vec![s("codex")], "/lr", None, s("hh"));
    let lines = wrapper_env_report(&layout, "0123456789abcdef");
    assert_eq!(
        lines,
        vec![
            s("VIBEGUARD_CLI=codex"),
            s("VIBEGUARD_PROJECT_HASH=hh"),
            s("VIBEGUARD_PROJECT_LOG_DIR=/lr/projects/hh"),
            s("VIBEGUARD_LOG_FILE=/lr/projects/hh/events.jsonl"),
            s("VIBEGUARD_SESSION_ID=0123456789abcdef"),
        ]
    );
}

#[test]
fn session_files_are_named_by_token_and_parent() {
    assert_eq!(session_file_path("/lr/p", "codex", 1), "/lr/p/.wrapper_session_codex_1");
    assert_eq!(session_file_path("/lr/p/", "bad/cli", 4242), "/lr/p/.wrapper_session_bad_cli_4242");
    assert_eq!(session_file_path("d", "", -7), "d/.wrapper_session_unknown_-7");
    assert_eq!(session_file_path("d", "x", 0), "d/.wrapper_session_x_0");
    assert_eq!(session_file_path("d", "x", i32::MIN), "d/.wrapper_session_x_-2147483648");
    assert_eq!(session_file_path("d", "x", i32::MAX), "d/.wrapper_session_x_2147483647");
}

#[test]
fn session_ttl_is_thirty_minutes() {
    assert!(!session_expired(&Elapsed { secs: 0, nanos: 0 }));
    assert!(!session_expired(&Elapsed { secs: 1800, nanos: 0 }));
    assert!(session_expired(&Elapsed { secs: 1800, nanos: 1 }));
    assert!(session_expired(&Elapsed { secs: 1801, nanos: 0 }));
}

#[test]
fn stale_entries_need_the_prefix_and_two_hours() {
    let old = || Some(Elapsed { secs: 7201, nanos: 0 });
    assert!(is_stale_session_entry(".wrapper_session_codex_1", old()));
    assert!(!is_stale_session_entry(".wrapper_session_codex_1", Some(Elapsed { secs: 7200, nanos: 0 })));
    assert!(!is_stale_session_entry(".wrapper_session_codex_1", None));
    assert!(!is_stale_session_entry("events.jsonl", old()));
    assert!(!is_stale_session_entry(".wrapper_sessio", old()));
    // a file old enough to remove would not have been reused either
    assert!(session_expired(&Elapsed { secs: 7201, nanos: 0 }));
}

#[test]
fn session_text_is_trimmed() {
    assert_eq!(session_id_from_text("session-one"), Some(s("session-one")));
    assert_eq!(session_id_from_text("  session-one\n"), Some(s("session-one")));
    assert_eq!(session_id_from_text(" \n\t "), None);
    assert_eq!(session_id_from_text(""), None);
    assert_eq!(session_id_from_text("a b"), Some(s("a b")));
}

#[test]
fn session_ids_are_sixteen_hex_digits() {
    assert_eq!(session_id_from_digest(0), "0000000000000000");
    assert_eq!(session_id_from_digest(255), "00000000000000ff");
    assert_eq!(session_id_from_digest(u64::MAX), "ffffffffffffffff");
    let d = 0x0123_4567_89ab_cdef_u64;
    assert_eq!(session_id_from_digest(d), format!("{:016x}", d));
}

#[test]
fn project_root_walk_steps() {
    assert!(matches!(project_root_step("/repo/a/b", true), ProjectRootStep::Found));
    match project_root_step("/repo/a/b", false) {
        ProjectRootStep::Ascend(p) => assert_eq!(p, "/repo/a"),
        _ => panic!("expected to ascend"),
    }
    match project_root_step("/repo", false) {
        ProjectRootStep::Ascend(p) => assert_eq!(p, "/"),
        _ => panic!("expected to ascend"),
    }
    assert!(matches!(project_root_step("/", false), ProjectRootStep::Exhausted));
    assert!(matches!(project_root_step_with(false, None), ProjectRootStep::Exhausted));
    assert!(matches!(project_root_step_with(true, None), ProjectRootStep::Found));
    assert_eq!(found_project_root(s("/r/./x"), Some(s("/r/x"))), "/r/x");
    assert_eq!(found_project_root(s("/r/x"), None), "/r/x");
}
