use docker_invoker::operation::Operation;
use docker_invoker::outcome::{conclude, launch_failure, listing, tool_failure};
use docker_invoker::process::{Launch, ProcessOutput};

fn finished(exit_code: Option<i32>, stdout: &[u8], stderr: &[u8]) -> Launch {
    Launch::Finished(ProcessOutput {
        exit_code,
        stdout: stdout.to_vec(),
        stderr: stderr.to_vec(),
    })
}

fn not_started(reason: &str) -> Launch {
    Launch::NotStarted { reason: reason.to_string() }
}

fn stop(id: &str) -> Operation {
    Operation::StopContainer { container_id: id.to_string() }
}

fn remove(id: &str) -> Operation {
    Operation::RemoveContainer { container_id: id.to_string() }
}

fn every_operation() -> Vec<Operation> {
    vec![Operation::ListContainers, stop("web"), remove("web")]
}

#[test]
fn listing_returns_one_record_verbatim() {
    let launch = finished(Some(0), b"abc123\tnginx\tUp 2 hours\t80/tcp\tweb", b"");
    assert_eq!(
        conclude(&Operation::ListContainers, launch),
        Ok("abc123\tnginx\tUp 2 hours\t80/tcp\tweb".to_string())
    );
}

#[test]
fn stop_reports_what_the_tool_said() {
    let launch = finished(Some(1), b"", b"No such container: xyz");
    assert_eq!(
        conclude(&stop("xyz"), launch),
        Err("Docker command failed: No such container: xyz".to_string())
    );
}

#[test]
fn listing_is_not_trimmed() {
    let stdout = "  abc123\tnginx\tUp 2 hours\t\tweb \r\ndef456\tredis\tExited (0)\t\tcache\n\n";
    let launch = finished(Some(0), stdout.as_bytes(), b"warning\n");
    let text = conclude(&Operation::ListContainers, launch).unwrap();
    assert_eq!(text, stdout);
    assert_eq!(text.as_bytes(), stdout.as_bytes());
}

#[test]
fn listing_of_nothing_is_empty_text() {
    let launch = finished(Some(0), b"", b"");
    assert_eq!(conclude(&Operation::ListContainers, launch), Ok(String::new()));
}

#[test]
fn listing_decodes_text_beyond_ascii() {
    let stdout = "abc\tna\u{ef}ve\tUp \u{2713}\t\t\u{1f433}-web\n";
    let launch = finished(Some(0), stdout.as_bytes(), b"");
    assert_eq!(conclude(&Operation::ListContainers, launch), Ok(stdout.to_string()));
}

#[test]
fn stop_confirms_with_fixed_text() {
    let launch = finished(Some(0), b"xyz\n", b"");
    assert_eq!(conclude(&stop("xyz"), launch), Ok("Container stopped".to_string()));
}

#[test]
fn remove_confirms_with_fixed_text() {
    let launch = finished(Some(0), b"xyz\n", b"");
    assert_eq!(conclude(&remove("xyz"), launch), Ok("Container removed".to_string()));
}

#[test]
fn confirmation_ignores_both_streams() {
    let streams: Vec<(&[u8], &[u8])> = vec![
        (b"", b""),
        (b"anything at all", b"a warning"),
        (&[0xff, 0xfe], &[0xc0]),
    ];
    for (stdout, stderr) in streams {
        assert_eq!(
            conclude(&stop("web"), finished(Some(0), stdout, stderr)),
            Ok("Container stopped".to_string())
        );
        assert_eq!(
            conclude(&remove("web"), finished(Some(0), stdout, stderr)),
            Ok("Container removed".to_string())
        );
    }
}

#[test]
fn status_zero_is_success() {
    for operation in every_operation() {
        let result = conclude(&operation, finished(Some(0), b"some output\n", b"some noise\n"));
        assert!(result.is_ok());
    }
}

#[test]
fn any_other_status_is_failure() {
    let codes = vec![Some(1), Some(2), Some(125), Some(127), Some(255), Some(-1), Some(i32::MIN), Some(i32::MAX), None];
    for code in codes {
        for operation in every_operation() {
            let result = conclude(&operation, finished(code, b"abc123\tnginx\n", b"went wrong"));
            assert_eq!(result, Err("Docker command failed: went wrong".to_string()));
        }
    }
}

#[test]
fn failure_ignores_standard_output() {
    let outputs: Vec<&[u8]> = vec![b"", b"Container stopped", &[0xff]];
    for stdout in outputs {
        for operation in every_operation() {
            let result = conclude(&operation, finished(Some(1), stdout, b"boom\n"));
            assert_eq!(result, Err("Docker command failed: boom\n".to_string()));
        }
    }
}

#[test]
fn failure_without_words_keeps_the_prefix() {
    assert_eq!(
        conclude(&remove("web"), finished(Some(1), b"", b"")),
        Err("Docker command failed: ".to_string())
    );
}

#[test]
fn remove_reports_what_the_tool_said() {
    let stderr = "Error response from daemon: No such container: web\n";
    assert_eq!(
        conclude(&remove("web"), finished(Some(1), b"", stderr.as_bytes())),
        Err(format!("Docker command failed: {}", stderr))
    );
}

#[test]
fn launch_failure_names_the_subcommand() {
    let reason = "No such file or directory (os error 2)";
    assert_eq!(
        conclude(&Operation::ListContainers, not_started(reason)),
        Err("Failed to execute docker ps: No such file or directory (os error 2)".to_string())
    );
    assert_eq!(
        conclude(&stop("web"), not_started(reason)),
        Err("Failed to execute docker stop: No such file or directory (os error 2)".to_string())
    );
    assert_eq!(
        conclude(&remove("web"), not_started(reason)),
        Err("Failed to execute docker rm: No such file or directory (os error 2)".to_string())
    );
}

#[test]
fn launch_failure_always_names_the_tool() {
    let reasons = vec!["", "Permission denied (os error 13)", "program not found"];
    for reason in reasons {
        for operation in every_operation() {
            let message = conclude(&operation, not_started(reason)).unwrap_err();
            assert!(message.contains("Failed to execute docker"));
            assert!(message.ends_with(reason));
            assert_eq!(message, launch_failure(&operation, reason));
        }
    }
}

#[test]
fn launch_failure_message_is_built_from_its_parts() {
    assert_eq!(
        launch_failure(&stop("web"), "Permission denied (os error 13)"),
        "Failed to execute docker stop: Permission denied (os error 13)"
    );
}

#[test]
fn listing_with_unreadable_output_fails() {
    let launch = finished(Some(0), &[0xff], b"");
    assert_eq!(
        conclude(&Operation::ListContainers, launch),
        Err("Failed to parse output: invalid utf-8 sequence of 1 bytes from index 0".to_string())
    );
}

#[test]
fn listing_with_cut_off_output_fails() {
    let stdout = vec![b'a', b'b', 0xe2, 0x82];
    let described = String::from_utf8(stdout.clone()).unwrap_err().to_string();
    let launch = finished(Some(0), &stdout, b"");
    assert_eq!(
        conclude(&Operation::ListContainers, launch),
        Err(format!("Failed to parse output: {}", described))
    );
    assert_eq!(described, "incomplete utf-8 byte sequence from index 2");
}

#[test]
fn failure_with_unreadable_words_fails_differently() {
    let stderr = vec![b'n', b'o', 0xc3, 0x28];
    let described = String::from_utf8(stderr.clone()).unwrap_err().to_string();
    for operation in every_operation() {
        assert_eq!(
            conclude(&operation, finished(Some(1), b"fine", &stderr)),
            Err(format!("Failed to parse error: {}", described))
        );
    }
    assert_eq!(described, "invalid utf-8 sequence of 1 bytes from index 2");
}

#[test]
fn decoded_listing_passes_through() {
    assert_eq!(listing(Ok("a\tb\n".to_string())), Ok("a\tb\n".to_string()));
    assert_eq!(
        listing(Err("not text".to_string())),
        Err("Failed to parse output: not text".to_string())
    );
}

#[test]
fn decoded_failure_is_always_an_error() {
    assert_eq!(
        tool_failure(Ok("No such container: xyz".to_string())),
        Err("Docker command failed: No such container: xyz".to_string())
    );
    assert_eq!(
        tool_failure(Err("not text".to_string())),
        Err("Failed to parse error: not text".to_string())
    );
}

#[test]
fn only_status_zero_counts_as_success() {
    let output = |exit_code| ProcessOutput { exit_code, stdout: Vec::new(), stderr: Vec::new() };
    assert!(output(Some(0)).succeeded());
    assert!(!output(Some(1)).succeeded());
    assert!(!output(Some(-1)).succeeded());
    assert!(!output(Some(256)).succeeded());
    assert!(!output(None).succeeded());
}
