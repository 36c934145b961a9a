use fiberpath_bridge::cli_process::{
    command_for_cli, exec_fiberpath, ProcessOutcome, Program, Spawned,
};
use fiberpath_bridge::encoding::fits;
use fiberpath_bridge::error::FiberpathError;
use fiberpath_bridge::platform::{Platform, CREATE_NO_WINDOW};
use fiberpath_bridge::response::{
    format_cli_error, parse_json_payload, parsed_payload, plan_payload, preview_artifact,
    preview_payload, with_output,
};
use serde_json::Value;
use std::path::PathBuf;

fn outcome(code: Option<i32>, stdout: &str, stderr: &str) -> ProcessOutcome {
    ProcessOutcome { code, stdout: stdout.as_bytes().to_vec(), stderr: stderr.as_bytes().to_vec() }
}

fn json(text: &str) -> Value {
    serde_json::from_str(text).unwrap()
}

#[test]
fn failed_process_reports_code_and_stderr() {
    let payload = parse_json_payload(&outcome(Some(1), "", "boom: no such layer"));
    match payload {
        Err(error @ FiberpathError::Process(_)) => {
            let message = error.message();
            assert!(message.contains("1"));
            assert!(message.contains("boom: no such layer"));
            assert_eq!(
                message,
                "fiberpath exited with status Some(1)\nstdout:\n\nstderr:\nboom: no such layer"
            );
        }
        other => panic!("expected a process failure, got {:?}", other),
    }
}

#[test]
fn output_that_is_not_json_is_a_parse_failure() {
    let payload = parse_json_payload(&outcome(Some(0), "not json", ""));
    match payload {
        Err(error @ FiberpathError::Parse(_)) => {
            assert!(error.message().starts_with("Unable to parse JSON: "));
            assert_eq!(error.message(), "Unable to parse JSON: expected ident at line 1 column 2");
        }
        other => panic!("expected a parse failure, got {:?}", other),
    }
}

#[test]
fn empty_output_is_a_parse_failure() {
    let payload = parse_json_payload(&outcome(Some(0), "", "warning"));
    assert!(matches!(payload, Err(FiberpathError::Parse(_))));
}

#[test]
fn failure_wins_over_well_formed_output() {
    let payload = parse_json_payload(&outcome(Some(2), "{\"ok\":true}", ""));
    assert!(matches!(payload, Err(FiberpathError::Process(_))));
}

#[test]
fn successful_process_yields_its_json() {
    let payload = parse_json_payload(&outcome(Some(0), " {\"layers\": 3, \"ok\": true}\n", "noise"));
    assert_eq!(payload.unwrap(), json("{\"layers\":3,\"ok\":true}"));
    let payload = parse_json_payload(&outcome(Some(0), "[1, 2]", ""));
    assert_eq!(payload.unwrap(), json("[1,2]"));
}

#[test]
fn report_trims_both_streams() {
    let report = format_cli_error(&outcome(Some(3), "  partial output \n", "\n\tTraceback\nline 2\r\n"));
    assert_eq!(
        report,
        "fiberpath exited with status Some(3)\nstdout:\npartial output\nstderr:\nTraceback\nline 2"
    );
}

#[test]
fn report_of_a_process_without_exit_code() {
    let report = format_cli_error(&outcome(None, "", "killed"));
    assert_eq!(report, "fiberpath exited with status None\nstdout:\n\nstderr:\nkilled");
    assert!(matches!(
        parse_json_payload(&outcome(None, "{}", "")),
        Err(FiberpathError::Process(_))
    ));
}

#[test]
fn report_of_a_negative_exit_code() {
    let report = format_cli_error(&outcome(Some(-1073741819), "", ""));
    assert_eq!(report, "fiberpath exited with status Some(-1073741819)\nstdout:\n\nstderr:\n");
    let report = format_cli_error(&outcome(Some(i32::MIN), "", ""));
    assert_eq!(report, "fiberpath exited with status Some(-2147483648)\nstdout:\n\nstderr:\n");
}

#[test]
fn report_decodes_leniently() {
    let output = ProcessOutcome {
        code: Some(1),
        stdout: vec![b' ', 0xff, b'a', b' '],
        stderr: "\u{00a0}gr\u{00fc}\u{00df}e\u{3000}".as_bytes().to_vec(),
    };
    assert_eq!(
        format_cli_error(&output),
        "fiberpath exited with status Some(1)\nstdout:\n\u{fffd}a\nstderr:\ngr\u{00fc}\u{00df}e"
    );
}

#[test]
fn parsed_payload_classifies_both_ways() {
    let parsed = serde_json::from_str::<Value>("{\"a\":1}");
    assert_eq!(parsed_payload(parsed).unwrap(), json("{\"a\":1}"));
    let parsed = serde_json::from_str::<Value>("{");
    assert!(matches!(parsed_payload(parsed), Err(FiberpathError::Parse(_))));
}

#[test]
fn plan_payload_gains_the_output_file() {
    let payload = plan_payload(&outcome(Some(0), "{\"layers\":3}", ""), "/tmp/fiberpath-1.gcode".to_string());
    assert_eq!(payload.unwrap(), json("{\"layers\":3,\"output\":\"/tmp/fiberpath-1.gcode\"}"));
    let payload = plan_payload(&outcome(Some(0), "{}", ""), "o.gcode".to_string());
    assert_eq!(payload.unwrap(), json("{\"output\":\"o.gcode\"}"));
}

#[test]
fn plan_payload_keeps_the_output_the_tool_named() {
    let payload = plan_payload(&outcome(Some(0), "{\"output\":\"theirs.gcode\"}", ""), "ours.gcode".to_string());
    assert_eq!(payload.unwrap(), json("{\"output\":\"theirs.gcode\"}"));
    let payload = plan_payload(&outcome(Some(0), "{\"output\":null}", ""), "ours.gcode".to_string());
    assert_eq!(payload.unwrap(), json("{\"output\":null}"));
}

#[test]
fn plan_payload_leaves_other_values_alone() {
    let payload = plan_payload(&outcome(Some(0), "[1,2]", ""), "o.gcode".to_string());
    assert_eq!(payload.unwrap(), json("[1,2]"));
    assert_eq!(with_output(Value::Null, "o".to_string()), Value::Null);
    assert_eq!(with_output(json("\"text\""), "o".to_string()), json("\"text\""));
}

#[test]
fn plan_payload_fails_like_any_other() {
    let payload = plan_payload(&outcome(Some(1), "{}", "bad input"), "o.gcode".to_string());
    match payload {
        Err(error @ FiberpathError::Process(_)) => assert_eq!(
            error.message(),
            "fiberpath exited with status Some(1)\nstdout:\n{}\nstderr:\nbad input"
        ),
        other => panic!("expected a process failure, got {:?}", other),
    }
    let payload = plan_payload(&outcome(Some(0), "oops", ""), "o.gcode".to_string());
    assert!(matches!(payload, Err(FiberpathError::Parse(_))));
}

#[test]
fn preview_reads_the_output_file_after_success() {
    let artifact = preview_artifact(&outcome(Some(0), "", ""), "/tmp/fiberpath-2.png".to_string());
    assert_eq!(artifact.unwrap(), "/tmp/fiberpath-2.png");
    let artifact = preview_artifact(&outcome(Some(4), "", "no display"), "/tmp/fiberpath-2.png".to_string());
    match artifact {
        Err(error @ FiberpathError::Process(_)) => assert_eq!(
            error.message(),
            "fiberpath exited with status Some(4)\nstdout:\n\nstderr:\nno display"
        ),
        other => panic!("expected a process failure, got {:?}", other),
    }
}

#[test]
fn preview_payload_encodes_the_image() {
    let preview = preview_payload("/tmp/p.png".to_string(), Ok(b"hello world~".to_vec())).unwrap();
    assert_eq!(preview.path, "/tmp/p.png");
    assert_eq!(preview.image_base64, "aGVsbG8gd29ybGR+");
    let preview = preview_payload("p".to_string(), Ok(vec![0x89, b'P', b'N', b'G'])).unwrap();
    assert_eq!(preview.image_base64, "iVBORw==");
    let preview = preview_payload("p".to_string(), Ok(vec![0xfb, 0xff])).unwrap();
    assert_eq!(preview.image_base64, "+/8=");
    let preview = preview_payload("p".to_string(), Ok(vec![])).unwrap();
    assert_eq!(preview.image_base64, "");
}

#[test]
fn preview_payload_reports_an_unreadable_file() {
    let payload = preview_payload(
        "/tmp/p.png".to_string(),
        Err("No such file or directory (os error 2)".to_string()),
    );
    match payload {
        Err(error @ FiberpathError::ArtifactRead(_)) => {
            assert_eq!(error.message(), "File error: No such file or directory (os error 2)")
        }
        other => panic!("expected a file failure, got {:?}", other),
    }
}

#[test]
fn exited_process_is_handed_on() {
    let args = vec!["simulate".to_string(), "p".to_string(), "--json".to_string()];
    let ran = exec_fiberpath(&args, Spawned::Exited(outcome(Some(9), "out", "err"))).unwrap();
    assert_eq!(ran.code, Some(9));
    assert_eq!(ran.stdout, b"out");
    assert_eq!(ran.stderr, b"err");
}

#[test]
fn refused_process_is_a_launch_failure() {
    let args = vec!["simulate".to_string(), "my part.gcode".to_string(), "--json".to_string()];
    let ran = exec_fiberpath(&args, Spawned::Refused("No such file or directory (os error 2)".to_string()));
    match ran {
        Err(FiberpathError::Launch(reason)) => {
            assert_eq!(
                reason,
                "No such file or directory (os error 2) while running `simulate my part.gcode --json`"
            );
            assert_eq!(
                FiberpathError::Launch(reason).message(),
                "fiberpath exited with an error: No such file or directory (os error 2) \
                 while running `simulate my part.gcode --json`"
            );
        }
        other => panic!("expected a launch failure, got {:?}", other),
    }
}

#[test]
fn abandoned_task_is_a_launch_failure() {
    let ran = exec_fiberpath(&vec![], Spawned::Abandoned("task 7 panicked".to_string()));
    match ran {
        Err(FiberpathError::Launch(reason)) => {
            assert_eq!(reason, "Failed to run fiberpath: task 7 panicked")
        }
        other => panic!("expected a launch failure, got {:?}", other),
    }
}

#[test]
fn console_window_is_hidden_on_windows_only() {
    let command = command_for_cli(Program::Name("fiberpath".to_string()), Some(Platform::Windows));
    assert_eq!(command.creation_flags, 0x0800_0000);
    assert_eq!(command.creation_flags, CREATE_NO_WINDOW);
    assert!(matches!(command.program, Program::Name(name) if name == "fiberpath"));
    let path = PathBuf::from("/opt/app/bundled-cli/fiberpath");
    let command = command_for_cli(Program::Path(path.clone()), Some(Platform::Linux));
    assert_eq!(command.creation_flags, 0);
    assert!(matches!(command.program, Program::Path(held) if held == path));
    assert_eq!(command_for_cli(Program::Path(path.clone()), Some(Platform::MacOs)).creation_flags, 0);
    assert_eq!(command_for_cli(Program::Path(path), None).creation_flags, 0);
}

#[test]
fn success_is_exit_code_zero() {
    assert!(outcome(Some(0), "", "").success());
    assert!(!outcome(Some(1), "", "").success());
    assert!(!outcome(Some(-1), "", "").success());
    assert!(!outcome(None, "", "").success());
}

#[test]
fn base64_length_must_fit() {
    assert!(fits(0));
    assert!(fits(1));
    assert!(fits(3));
    assert!(fits(usize::MAX / 4 * 3));
    assert!(!fits(usize::MAX / 4 * 3 + 1));
    assert!(!fits(usize::MAX / 4 * 3 + 3));
    assert!(!fits(usize::MAX));
}

#[test]
fn preview_text_has_four_characters_for_three_bytes() {
    for len in 0usize..10 {
        let preview = preview_payload("p".to_string(), Ok(vec![7u8; len])).unwrap();
        assert_eq!(preview.image_base64.len(), (len + 2) / 3 * 4);
    }
}
