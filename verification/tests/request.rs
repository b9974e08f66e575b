use codex_wrapper::session::{build_prompt, codex_program, exec_args, plan_send, version_args};
use codex_wrapper::version::{classify_version, trim_whitespace, CodexStatus, VersionProbe};

#[test]
fn prompt_without_context_is_the_message_alone() {
    let context: Vec<String> = Vec::new();
    assert_eq!(build_prompt("fix bug", &context), "fix bug");
}

#[test]
fn prompt_with_context_carries_header_lines_and_blank_separator() {
    let context = vec!["ctx1".to_string(), "ctx2".to_string()];
    assert_eq!(
        build_prompt("fix bug", &context),
        "Previous context:\nctx1\nctx2\n\nfix bug"
    );
}

#[test]
fn send_invocation_has_the_fixed_command_line() {
    let context = vec!["earlier".to_string()];
    let (program, args) = plan_send("do it", "/work/project", &context);
    assert_eq!(program, "codex");
    assert_eq!(
        args,
        vec![
            "exec".to_string(),
            "--sandbox".to_string(),
            "workspace-write".to_string(),
            "--skip-git-repo-check".to_string(),
            "-C".to_string(),
            "/work/project".to_string(),
            "Previous context:\nearlier\n\ndo it".to_string(),
        ]
    );
}

#[test]
fn exec_args_place_the_prompt_last() {
    let args = exec_args("/tmp/dir", "just this".to_string());
    assert_eq!(args.len(), 7);
    assert_eq!(args[5], "/tmp/dir");
    assert_eq!(args[6], "just this");
}

#[test]
fn version_probe_uses_the_version_flag() {
    assert_eq!(codex_program(), "codex");
    assert_eq!(version_args(), vec!["--version".to_string()]);
}

#[test]
fn version_probe_success_reports_trimmed_stdout() {
    let status = classify_version(VersionProbe::Exited {
        success: true,
        stdout: b"1.2.3\n".to_vec(),
    });
    assert_eq!(
        status,
        CodexStatus {
            installed: true,
            version: Some("1.2.3".to_string()),
            error: None,
        }
    );
}

#[test]
fn version_probe_nonzero_exit_reports_failure() {
    let status = classify_version(VersionProbe::Exited {
        success: false,
        stdout: b"whatever".to_vec(),
    });
    assert!(!status.installed);
    assert_eq!(status.version, None);
    let error = status.error.unwrap();
    assert!(error.contains("failed"));
    assert_eq!(error, "Codex command failed");
}

#[test]
fn version_probe_launch_failure_reports_not_found_with_cause() {
    let status = classify_version(VersionProbe::LaunchFailed {
        cause: "No such file or directory (os error 2)".to_string(),
    });
    assert!(!status.installed);
    assert_eq!(status.version, None);
    let error = status.error.unwrap();
    assert!(error.contains("not found"));
    assert_eq!(
        error,
        "Codex not found: No such file or directory (os error 2)"
    );
}

#[test]
fn version_text_with_invalid_bytes_is_replaced_not_dropped() {
    let status = classify_version(VersionProbe::Exited {
        success: true,
        stdout: vec![0xff],
    });
    assert_eq!(status.version, Some("\u{FFFD}".to_string()));
}

#[test]
fn trimming_strips_unicode_whitespace_from_both_ends() {
    assert_eq!(trim_whitespace(" \t1.0 rc\r\n"), "1.0 rc");
    assert_eq!(trim_whitespace("1.2.3\u{B}"), "1.2.3");
    assert_eq!(trim_whitespace("\u{A0}\u{2003}v2\u{3000}"), "v2");
    assert_eq!(trim_whitespace("a\u{200B}b"), "a\u{200B}b");
    assert_eq!(trim_whitespace("   "), "");
    assert_eq!(trim_whitespace(""), "");
}

#[test]
fn version_trailing_unicode_whitespace_is_stripped() {
    let status = classify_version(VersionProbe::Exited {
        success: true,
        stdout: "1.2.3\u{B}\u{A0}".as_bytes().to_vec(),
    });
    assert_eq!(status.version, Some("1.2.3".to_string()));
}
