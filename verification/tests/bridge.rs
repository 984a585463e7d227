use procbridge::errors::{kill_response, scan_response, BridgeError};
use procbridge::locator::{artifact_resource_name, dev_candidate, interpreter, resolve_artifact};
use procbridge::outcome::{classify_outcome, ProcessOutcome};
use procbridge::signal::classify_termination;
use procbridge::text::i32_to_dec;

fn outcome(exit_code: Option<i32>, stdout: &[u8], stderr: &[u8]) -> ProcessOutcome {
    ProcessOutcome { exit_code, stdout: stdout.to_vec(), stderr: stderr.to_vec() }
}

#[test]
fn dev_override_wins_over_bundle() {
    let r = resolve_artifact(
        Some("tree/resources/scanner.py".to_string()),
        Ok("bundle/resources/scanner.py".to_string()),
    );
    assert_eq!(r, Ok("tree/resources/scanner.py".to_string()));
}

#[test]
fn dev_override_wins_over_bundle_error() {
    let r = resolve_artifact(
        Some("tree/resources/scanner.py".to_string()),
        Err("bundle lacks the resource".to_string()),
    );
    assert_eq!(r, Ok("tree/resources/scanner.py".to_string()));
}

#[test]
fn bundle_is_used_without_dev_copy() {
    let r = resolve_artifact(None, Ok("bundle/resources/scanner.py".to_string()));
    assert_eq!(r, Ok("bundle/resources/scanner.py".to_string()));
}

#[test]
fn missing_everywhere_is_resolution_error() {
    let r = resolve_artifact(None, Err("bundle lacks the resource".to_string()));
    match r {
        Err(BridgeError::Resolution { ref cause }) => {
            assert_eq!(cause, "bundle lacks the resource");
        }
        other => panic!("expected a resolution error, got {:?}", other),
    }
    let rendered = scan_response(r);
    assert_eq!(
        rendered,
        Err("resolve resource failed: bundle lacks the resource".to_string())
    );
}

#[test]
fn dev_candidate_joins_root_and_name() {
    assert_eq!(
        dev_candidate("/src/tree"),
        "/src/tree/resources/scanner.py".to_string()
    );
}

#[test]
fn fixed_names_are_exact() {
    assert_eq!(artifact_resource_name(), "resources/scanner.py".to_string());
    assert_eq!(interpreter(), "python3".to_string());
}

#[test]
fn scan_zero_exit_yields_stdout() {
    let r = classify_outcome(outcome(Some(0), b"OK\n", b""));
    assert_eq!(r, Ok("OK\n".to_string()));
}

#[test]
fn scan_success_ignores_stderr() {
    let quiet = classify_outcome(outcome(Some(0), b"OK\n", b""));
    let noisy = classify_outcome(outcome(Some(0), b"OK\n", b"warning: noise"));
    assert_eq!(quiet, Ok("OK\n".to_string()));
    assert_eq!(noisy, Ok("OK\n".to_string()));
}

#[test]
fn scan_empty_stdout_yields_empty_payload() {
    let r = classify_outcome(outcome(Some(0), b"", b""));
    assert_eq!(r, Ok(String::new()));
}

#[test]
fn scan_decodes_invalid_bytes_lossily() {
    let r = classify_outcome(outcome(Some(0), &[0x4F, 0xFF, 0x4B], b""));
    assert_eq!(r, Ok("O\u{FFFD}K".to_string()));
}

#[test]
fn scan_nonzero_exit_is_execution_error() {
    let r = classify_outcome(outcome(Some(1), b"", b"bad"));
    let e = r.expect_err("a non-zero exit must fail");
    let message = e.message();
    assert_eq!(message, "scanner exited with 1\nstdout: \nstderr: bad");
    assert!(message.contains('1'));
    assert!(message.contains("bad"));
}

#[test]
fn execution_error_message_is_fully_labeled() {
    let r = classify_outcome(outcome(Some(3), b"partial out", b"diagnostic"));
    let e = r.expect_err("a non-zero exit must fail");
    assert_eq!(
        e.message(),
        "scanner exited with 3\nstdout: partial out\nstderr: diagnostic"
    );
}

#[test]
fn execution_error_keeps_negative_code() {
    let r = classify_outcome(outcome(Some(-7), b"", b""));
    let e = r.expect_err("a non-zero exit must fail");
    assert_eq!(e.message(), "scanner exited with -7\nstdout: \nstderr: ");
}

#[test]
fn signal_termination_has_no_exit_code_marker() {
    let r = classify_outcome(outcome(None, b"part", b"killed"));
    let e = r.expect_err("a signal-terminated artifact must fail");
    let message = e.message();
    assert_eq!(
        message,
        "scanner exited with no exit code\nstdout: part\nstderr: killed"
    );
    assert!(message.contains("no exit code"));
}

#[test]
fn scan_response_passes_payload_through() {
    assert_eq!(
        scan_response(Ok("payload".to_string())),
        Ok("payload".to_string())
    );
}

#[test]
fn kill_delivered_signal_is_success() {
    assert_eq!(classify_termination(Ok(Some(0))), Ok(()));
}

#[test]
fn kill_against_missing_process_fails_with_status() {
    let r = classify_termination(Ok(Some(1)));
    match r {
        Err(BridgeError::Signal { status }) => assert_eq!(status, Some(1)),
        other => panic!("expected a signal error, got {:?}", other),
    }
    let rendered = kill_response(classify_termination(Ok(Some(1))));
    assert_eq!(rendered, Err("kill exited with 1".to_string()));
}

#[test]
fn kill_command_ended_by_signal_fails_with_marker() {
    let rendered = kill_response(classify_termination(Ok(None)));
    assert_eq!(rendered, Err("kill exited with no exit code".to_string()));
}

#[test]
fn kill_command_that_cannot_spawn_is_spawn_error() {
    let r = classify_termination(Err("command not found".to_string()));
    match r {
        Err(BridgeError::Spawn { ref cause }) => assert_eq!(cause, "command not found"),
        ref other => panic!("expected a spawn error, got {:?}", other),
    }
    assert_eq!(
        kill_response(r),
        Err("spawn failed: command not found".to_string())
    );
}

#[test]
fn kill_response_passes_success_through() {
    assert_eq!(kill_response(Ok(())), Ok(()));
}

#[test]
fn decimal_rendering_is_exact() {
    assert_eq!(i32_to_dec(0), "0".to_string());
    assert_eq!(i32_to_dec(7), "7".to_string());
    assert_eq!(i32_to_dec(42), "42".to_string());
    assert_eq!(i32_to_dec(100), "100".to_string());
    assert_eq!(i32_to_dec(-1), "-1".to_string());
    assert_eq!(i32_to_dec(i32::MAX), "2147483647".to_string());
    assert_eq!(i32_to_dec(i32::MIN), "-2147483648".to_string());
}

#[test]
fn spawn_error_message_carries_cause() {
    let e = BridgeError::Spawn { cause: "no python3 on this host".to_string() };
    assert_eq!(e.message(), "spawn failed: no python3 on this host");
}
