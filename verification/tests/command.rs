use macgen::command::{command_result, judge_exit, Failure, Observed};

#[test]
fn exit_code_zero_is_success() {
    let result = command_result(Observed::Exited { code: Some(0), stderr: Vec::new() });
    assert!(result.is_ok());
    let result =
        command_result(Observed::Exited { code: Some(0), stderr: b"a warning".to_vec() });
    assert!(result.is_ok());
}

#[test]
fn another_exit_code_is_a_failure_with_what_was_written_to_stderr() {
    let result = command_result(Observed::Exited {
        code: Some(10),
        stderr: b"Error: unknown connection 'home-wifi'.\n".to_vec(),
    });
    match result {
        Err(Failure::Failed { stderr }) => {
            assert_eq!(stderr, "Error: unknown connection 'home-wifi'.\n")
        }
        other => panic!("{:?}", other),
    }
    for code in [1, -1, 2, 255, i32::MAX, i32::MIN] {
        let result = command_result(Observed::Exited { code: Some(code), stderr: Vec::new() });
        assert!(matches!(result, Err(Failure::Failed { .. })), "{}", code);
    }
}

#[test]
fn no_exit_code_is_a_failure() {
    let result = command_result(Observed::Exited { code: None, stderr: b"killed".to_vec() });
    match result {
        Err(Failure::Failed { stderr }) => assert_eq!(stderr, "killed"),
        other => panic!("{:?}", other),
    }
}

#[test]
fn a_program_that_did_not_start_is_a_failure_with_the_reason() {
    let result = command_result(Observed::NotStarted {
        reason: "No such file or directory (os error 2)".to_string(),
    });
    match result {
        Err(Failure::NotStarted { reason }) => {
            assert_eq!(reason, "No such file or directory (os error 2)")
        }
        other => panic!("{:?}", other),
    }
}

#[test]
fn failure_messages() {
    let failed = Failure::Failed { stderr: "boom".to_string() };
    assert_eq!(failed.message(), "Command failed with error: boom");
    let empty = Failure::Failed { stderr: String::new() };
    assert_eq!(empty.message(), "Command failed with error: ");
    let not_started = Failure::NotStarted { reason: "Permission denied (os error 13)".to_string() };
    assert_eq!(not_started.message(), "Permission denied (os error 13)");
}

#[test]
fn stderr_that_is_not_utf8_is_kept_with_replacement_characters() {
    let result = command_result(Observed::Exited {
        code: Some(1),
        stderr: b"bad \xff byte".to_vec(),
    });
    match result {
        Err(Failure::Failed { stderr }) => assert_eq!(stderr, "bad \u{fffd} byte"),
        other => panic!("{:?}", other),
    }
    let result = command_result(Observed::Exited {
        code: Some(1),
        stderr: "caf\u{e9} \u{1f600}".as_bytes().to_vec(),
    });
    match result {
        Err(Failure::Failed { stderr }) => assert_eq!(stderr, "caf\u{e9} \u{1f600}"),
        other => panic!("{:?}", other),
    }
}

#[test]
fn judge_exit_goes_by_the_exit_code_alone() {
    assert!(judge_exit(Some(0), String::new()).is_ok());
    assert!(judge_exit(Some(0), "noise".to_string()).is_ok());
    match judge_exit(Some(2), "noise".to_string()) {
        Err(Failure::Failed { stderr }) => assert_eq!(stderr, "noise"),
        other => panic!("{:?}", other),
    }
    match judge_exit(None, String::new()) {
        Err(Failure::Failed { stderr }) => assert_eq!(stderr, ""),
        other => panic!("{:?}", other),
    }
}
