//! The `noetl` binary: which one, how it is called, and what it means.

use std::path::PathBuf;

use noetl_doctor::json::{Document, Json};
use noetl_doctor::runner::{
    binary_error, interpret_output, interpret_text, resolve_noetl_binary, Argument, BinaryOverride, DoctorError,
    settle_report, PlaybookRunOptions, PlaybookRunner, ProcessOutput,
};
use noetl_doctor::text::tail;

fn text_of(json: &Json, name: &str) -> String {
    match json {
        Json::Object(members) => match members.iter().find(|m| m.0 == name) {
            Some((_, Json::Text(text))) => text.clone(),
            other => panic!("no text under {name}: {other:?}"),
        },
        other => panic!("not an object: {other:?}"),
    }
}

#[test]
fn missing_noetl_cli_surfaces_clear_error() {
    let error = resolve_noetl_binary(None, Err("cannot find binary path".to_string())).unwrap_err();
    assert!(error.message().contains("noetl CLI not found"));
    assert_eq!(
        error.message(),
        "noetl CLI not found on PATH; install noetl 2.13.0+ (https://github.com/noetl/cli) \
         or pass --noetl-bin /path/to/noetl: cannot find binary path"
    );
    assert_eq!(
        binary_error(&error),
        "locating noetl CLI binary: noetl CLI not found on PATH; install noetl 2.13.0+ \
         (https://github.com/noetl/cli) or pass --noetl-bin /path/to/noetl: cannot find binary path"
    );
}

#[test]
fn an_override_wins_over_the_search() {
    let wanted = |exists: bool| BinaryOverride {
        path: PathBuf::from("/opt/noetl"),
        shown: "/opt/noetl".to_string(),
        exists,
    };
    let found = || Ok(PathBuf::from("/usr/bin/noetl"));
    assert_eq!(resolve_noetl_binary(Some(wanted(true)), found()).unwrap(), PathBuf::from("/opt/noetl"));
    assert_eq!(resolve_noetl_binary(None, found()).unwrap(), PathBuf::from("/usr/bin/noetl"));
    let error = resolve_noetl_binary(Some(wanted(false)), found()).unwrap_err();
    assert_eq!(error.message(), "--noetl-bin path does not exist: /opt/noetl");
}

#[test]
fn runner_knows_its_binary_and_arguments() {
    let runner = PlaybookRunner::new(PathBuf::from("/opt/noetl"));
    assert_eq!(runner.binary(), &PathBuf::from("/opt/noetl"));
    let arguments = runner.arguments(PlaybookRunOptions {
        playbook: PathBuf::from("/tmp/p.yaml"),
        set: vec!["a=1".to_string(), "b=2".to_string()],
        runtime: "local",
    });
    let shown: Vec<String> = arguments
        .iter()
        .map(|argument| match argument {
            Argument::Text(text) => text.clone(),
            Argument::File(path) => path.display().to_string(),
        })
        .collect();
    assert_eq!(
        shown,
        ["run", "/tmp/p.yaml", "--runtime", "local", "--set", "a=1", "--set", "b=2"]
    );
    assert!(matches!(arguments[1], Argument::File(_)));
}

#[test]
fn a_failed_run_is_an_error_with_its_output() {
    let error = interpret_text(false, Some(-7), "half done", "boom").unwrap_err();
    assert_eq!(
        error.message(),
        "noetl run failed (exit Some(-7))\nstderr: boom\nstdout: half done"
    );
    let long = "x".repeat(2000);
    match interpret_text(false, None, &long, "").unwrap_err() {
        DoctorError::RunFailed { code, stderr, stdout } => {
            assert_eq!(code, None);
            assert_eq!(stderr, "");
            assert_eq!(stdout, format!("...{}", "x".repeat(1500)));
        }
        other => panic!("unexpected error: {other:?}"),
    }
    assert!(interpret_text(false, None, "", "").unwrap_err().message().contains("(exit None)"));
}

#[test]
fn a_report_on_stdout_is_reported() {
    let value = interpret_text(true, Some(0), "log\n{\"status\":\"ok\"}\n", "{\"status\":\"stuck\"}").unwrap();
    assert_eq!(value.status().as_deref(), Some("ok"));
}

#[test]
fn a_report_on_stderr_is_reported_where_stdout_has_none() {
    let value = interpret_text(true, Some(0), "log\n", "warn\n{\"status\":\"stuck\"}\n").unwrap();
    assert_eq!(value.status().as_deref(), Some("stuck"));
}

#[test]
fn settling_prefers_stdout() {
    let document = |text: &str| Document::parse(text.as_bytes().to_vec());
    let value = settle_report(document("[1]"), document("[2]"), "o", "e");
    assert!(matches!(value, Json::Document(ref d) if d.text().as_slice() == b"[1]"));
    let value = settle_report(None, document("[2]"), "o", "e");
    assert!(matches!(value, Json::Document(ref d) if d.text().as_slice() == b"[2]"));
    let value = settle_report(None, None, "o", "e");
    assert_eq!(text_of(&value, "raw_stdout"), "o");
    assert_eq!(text_of(&value, "raw_stderr"), "e");
}

#[test]
fn output_without_a_report_is_surfaced() {
    let stdout = format!("{}end", "a".repeat(4000));
    let stderr = format!("{}end", "b".repeat(1000));
    let value = interpret_text(true, Some(0), &stdout, &stderr).unwrap();
    assert_eq!(text_of(&value, "raw_stdout"), format!("...{}end", "a".repeat(3997)));
    assert_eq!(text_of(&value, "raw_stderr"), format!("...{}end", "b".repeat(997)));
    assert_eq!(
        text_of(&value, "note"),
        "noetl run succeeded but no JSON object was found on stdout"
    );
}

#[test]
fn raw_bytes_are_read_with_replacement_characters() {
    let output = ProcessOutput {
        success: true,
        code: Some(0),
        stdout: b"caf\xc3\xa9 \xff".to_vec(),
        stderr: Vec::new(),
    };
    let value = interpret_output(&output).unwrap();
    assert_eq!(text_of(&value, "raw_stdout"), "caf\u{e9} \u{fffd}");
    let output = ProcessOutput {
        success: true,
        code: Some(0),
        stdout: b"\xff {\"ok\":true}".to_vec(),
        stderr: Vec::new(),
    };
    assert_eq!(interpret_output(&output).unwrap().ok(), Some(true));
}

#[test]
fn spawn_failures_name_playbook_and_binary() {
    let error = DoctorError::SpawnFailed {
        playbook: "/tmp/p.yaml".to_string(),
        binary: "/opt/noetl".to_string(),
        cause: "denied".to_string(),
    };
    assert_eq!(
        error.message(),
        "failed to spawn `noetl run /tmp/p.yaml` (binary at /opt/noetl): denied"
    );
}

#[test]
fn tail_keeps_the_end() {
    assert_eq!(tail("short", 5), "short");
    assert_eq!(tail("shorter", 5), "...orter");
    assert_eq!(tail("", 0), "");
    assert_eq!(tail("abc", 0), "...");
}

#[test]
fn tail_breaks_no_character() {
    // Each of these characters takes two bytes.
    assert_eq!(tail("\u{e4}\u{f6}\u{fc}", 6), "\u{e4}\u{f6}\u{fc}");
    assert_eq!(tail("\u{e4}\u{f6}\u{fc}", 5), "...\u{f6}\u{fc}");
    assert_eq!(tail("\u{e4}\u{f6}\u{fc}", 4), "...\u{f6}\u{fc}");
    assert_eq!(tail("\u{e4}\u{f6}\u{fc}", 1), "...");
    assert_eq!(tail("a\u{1f600}", 3), "...");
    for max in 0..12usize {
        let kept = tail("x\u{1f600}y\u{fc}z", max);
        assert!(kept.len() <= max + 3);
    }
}
