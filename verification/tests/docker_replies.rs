use docker_manager::docker::{interpret_process_output, normalize_reply, run_docker_command, ProcessOutput};
use docker_manager::testing::MockDockerExecutor;

const NO_OUTPUT: &str = "Command completed successfully (no output).";

#[test]
fn normalize_reply_replaces_blank_output() {
    assert_eq!(normalize_reply(Ok("\t\r\n\u{3000}".to_string())), Ok(NO_OUTPUT.to_string()));
    assert_eq!(normalize_reply(Ok(String::new())), Ok(NO_OUTPUT.to_string()));
}

#[test]
fn normalize_reply_keeps_other_output_unchanged() {
    assert_eq!(normalize_reply(Ok("  x  ".to_string())), Ok("  x  ".to_string()));
}

#[test]
fn normalize_reply_keeps_errors_unchanged() {
    assert_eq!(normalize_reply(Err("   ".to_string())), Err("   ".to_string()));
}

#[test]
fn normalization_is_idempotent_on_examples() {
    for reply in [Ok(String::new()), Ok(" a ".to_string()), Err(String::new())] {
        let once = normalize_reply(reply);
        assert_eq!(normalize_reply(once.clone()), once);
    }
}

#[test]
fn normalized_output_is_never_blank() {
    for out in ["", " ", "\n\n", "x"] {
        let text = normalize_reply(Ok(out.to_string())).unwrap();
        assert!(!text.trim().is_empty());
    }
}

#[test]
fn run_docker_command_passes_error_through() {
    let mut executor = MockDockerExecutor::with_error("   ");
    assert_eq!(run_docker_command(&mut executor, &["ps"]), Err("   ".to_string()));
}

fn output(status: Option<i32>, stdout: &[u8], stderr: &[u8]) -> ProcessOutput {
    ProcessOutput { status, stdout: stdout.to_vec(), stderr: stderr.to_vec() }
}

#[test]
fn process_that_could_not_start_reports_launch_error() {
    assert_eq!(
        interpret_process_output(Err("no such program".to_string())),
        Err("Failed to execute docker command: no such program".to_string())
    );
}

#[test]
fn process_with_zero_status_gives_stdout() {
    assert_eq!(
        interpret_process_output(Ok(output(Some(0), "héllo\n".as_bytes(), b"warning"))),
        Ok("héllo\n".to_string())
    );
}

#[test]
fn process_without_status_counts_as_success() {
    assert_eq!(interpret_process_output(Ok(output(None, b"out", b""))), Ok("out".to_string()));
}

#[test]
fn process_stdout_with_invalid_utf8_is_replaced() {
    assert_eq!(
        interpret_process_output(Ok(output(Some(0), &[0xff, b'a'], b""))),
        Ok("\u{FFFD}a".to_string())
    );
}

#[test]
fn failed_process_without_message_says_so() {
    assert_eq!(
        interpret_process_output(Ok(output(Some(1), b"out", b" \n"))),
        Err("Docker command failed with no error message.".to_string())
    );
}

#[test]
fn failed_process_reports_stderr() {
    assert_eq!(
        interpret_process_output(Ok(output(Some(125), b"", b"no such container\n"))),
        Err("Docker error: no such container\n".to_string())
    );
}
