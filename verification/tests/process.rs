use kubectl_gateway::process::{
    conclude, exit_code, watch, CommandResult, ExecError, ProcessOutcome, Watch, NO_EXIT_CODE,
};

#[test]
fn the_exit_code_of_a_normal_exit() {
    assert_eq!(exit_code(Some(0)), 0);
    assert_eq!(exit_code(Some(1)), 1);
    assert_eq!(exit_code(Some(127)), 127);
    assert_eq!(exit_code(Some(-1)), -1);
    assert_eq!(exit_code(Some(i32::MAX)), i32::MAX);
    assert_eq!(exit_code(Some(i32::MIN)), i32::MIN);
}

#[test]
fn the_exit_code_of_a_process_that_left_none() {
    assert_eq!(NO_EXIT_CODE, -1);
    assert_eq!(exit_code(None), -1);
}

#[test]
fn a_result_has_all_three_fields() {
    let result = CommandResult::new("out".to_string(), String::new(), Some(0));
    assert_eq!(
        result,
        CommandResult { stdout: "out".to_string(), stderr: String::new(), exit_code: 0 }
    );
    let result = CommandResult::new(String::new(), "killed".to_string(), None);
    assert_eq!(
        result,
        CommandResult { stdout: String::new(), stderr: "killed".to_string(), exit_code: -1 }
    );
}

#[test]
fn a_process_that_exited_normally() {
    let outcome = ProcessOutcome::Exited {
        stdout: b"hello\n".to_vec(),
        stderr: Vec::new(),
        code: Some(0),
    };
    assert_eq!(
        conclude(outcome),
        Ok(CommandResult { stdout: "hello\n".to_string(), stderr: String::new(), exit_code: 0 })
    );
}

#[test]
fn a_process_that_failed_of_its_own() {
    let outcome = ProcessOutcome::Exited {
        stdout: Vec::new(),
        stderr: b"error: the server doesn't have a resource type \"pod\"\n".to_vec(),
        code: Some(1),
    };
    assert_eq!(
        conclude(outcome),
        Ok(CommandResult {
            stdout: String::new(),
            stderr: "error: the server doesn't have a resource type \"pod\"\n".to_string(),
            exit_code: 1,
        })
    );
}

#[test]
fn a_process_that_a_signal_ended_keeps_its_output() {
    let outcome = ProcessOutcome::Exited {
        stdout: b"partial".to_vec(),
        stderr: b"so far".to_vec(),
        code: None,
    };
    assert_eq!(
        conclude(outcome),
        Ok(CommandResult {
            stdout: "partial".to_string(),
            stderr: "so far".to_string(),
            exit_code: -1,
        })
    );
}

#[test]
fn valid_utf8_is_decoded_as_it_stands() {
    let text = "naïve — 日本語 \u{1F680}\n";
    let outcome = ProcessOutcome::Exited {
        stdout: text.as_bytes().to_vec(),
        stderr: "é".as_bytes().to_vec(),
        code: Some(0),
    };
    let result = conclude(outcome).unwrap();
    assert_eq!(result.stdout, text);
    assert_eq!(result.stderr, "é");
}

#[test]
fn invalid_bytes_are_replaced_and_not_rejected() {
    let outcome = ProcessOutcome::Exited {
        stdout: vec![b'a', 0xFF, b'b'],
        stderr: vec![0xC3],
        code: Some(0),
    };
    let result = conclude(outcome).unwrap();
    assert_eq!(result.stdout, "a\u{FFFD}b");
    assert_eq!(result.stderr, "\u{FFFD}");
    assert_eq!(result.exit_code, 0);
}

#[test]
fn a_process_that_never_started() {
    let outcome = ProcessOutcome::SpawnFailed { reason: "No such file or directory".to_string() };
    assert_eq!(
        conclude(outcome),
        Err(ExecError::SpawnFailed { reason: "No such file or directory".to_string() })
    );
}

#[test]
fn a_process_that_ran_out_of_time() {
    let outcome = ProcessOutcome::TimedOut { limit_ms: 30_000 };
    assert_eq!(conclude(outcome), Err(ExecError::TimedOut { limit_ms: 30_000 }));
}

#[test]
fn without_a_limit_the_wait_goes_on() {
    assert_eq!(watch(None, 0), Watch::Wait);
    assert_eq!(watch(None, u64::MAX), Watch::Wait);
}

#[test]
fn the_wait_ends_when_the_limit_is_reached() {
    assert_eq!(watch(Some(1000), 0), Watch::Wait);
    assert_eq!(watch(Some(1000), 999), Watch::Wait);
    assert_eq!(watch(Some(1000), 1000), Watch::Terminate { limit_ms: 1000 });
    assert_eq!(watch(Some(1000), 1001), Watch::Terminate { limit_ms: 1000 });
    assert_eq!(watch(Some(0), 0), Watch::Terminate { limit_ms: 0 });
    assert_eq!(watch(Some(u64::MAX), u64::MAX - 1), Watch::Wait);
    assert_eq!(watch(Some(u64::MAX), u64::MAX), Watch::Terminate { limit_ms: u64::MAX });
}
