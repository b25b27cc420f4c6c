use test_supervisor::checks::{
    check_valgrind_leaks, classify_build, compile_target, log_reports_no_errors, BuildError,
    BuildOutcome, CommunicateOutput,
};

#[test]
fn build_error_marker() {
    assert_eq!(classify_build(b"main.c:3:5: error: expected ';'"), BuildOutcome::Error);
    assert_eq!(classify_build(b"warning: x\nerror: y"), BuildOutcome::Error);
}

#[test]
fn build_warning_marker() {
    assert_eq!(classify_build(b"warning: unused variable"), BuildOutcome::Warning);
}

#[test]
fn build_success_on_empty_stderr() {
    assert_eq!(classify_build(b""), BuildOutcome::Success);
    assert_eq!(classify_build(b"error"), BuildOutcome::Success);
}

#[test]
fn build_labels() {
    assert_eq!(BuildOutcome::Success.label(), "success");
    assert_eq!(BuildOutcome::Warning.label(), "warning");
    assert_eq!(BuildOutcome::Error.label(), "error");
}

#[test]
fn compile_target_is_last_word() {
    assert_eq!(compile_target("gcc -Wall main.c -o  prog"), Ok(String::from("prog")));
    assert_eq!(compile_target("gcc main.c -o prog"), Err(BuildError::InvalidCommand));
}

#[test]
fn clean_leak_log() {
    let log = "==1== ERROR SUMMARY: 0 errors from 0 contexts (suppressed: 0 from 0)\n";
    assert!(check_valgrind_leaks(Some(log)));
    assert!(log_reports_no_errors(log.as_bytes()));
}

#[test]
fn dirty_leak_log() {
    let log = "==1== ERROR SUMMARY: 3 errors from 2 contexts (suppressed: 0 from 0)\n";
    assert!(!check_valgrind_leaks(Some(log)));
}

#[test]
fn missing_leak_log() {
    assert!(!check_valgrind_leaks(None));
}

#[test]
fn communication_log_joins_chunks_and_error() {
    let out = CommunicateOutput {
        output: vec![b"ping ".to_vec(), b"pong".to_vec()],
        error: Some(String::from(" reset")),
    };
    assert_eq!(out.log_bytes(), b"ping pong reset".to_vec());
    let out = CommunicateOutput { output: vec![b"a".to_vec(), Vec::new(), b"b".to_vec()], error: None };
    assert_eq!(out.log_bytes(), b"ab".to_vec());
}
