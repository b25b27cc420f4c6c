use test_supervisor::capture::{may_spawn, settle, Drain, ProcessOutput, ReadEvent};
use test_supervisor::checks::{on_validate, verdict};
use test_supervisor::disposition::{classify, Classification, ExitDisposition, Status};

fn result(stderr: &[u8], d: ExitDisposition) -> ProcessOutput {
    ProcessOutput::new(Vec::new(), stderr.to_vec(), d)
}

#[test]
fn exit_zero_and_one_are_normal() {
    assert_eq!(classify(&result(b"", ExitDisposition::Exited(0))), Classification::Normal);
    assert_eq!(classify(&result(b"", ExitDisposition::Exited(1))), Classification::Normal);
    assert_eq!(on_validate(&result(b"", ExitDisposition::Exited(1))), Some(true));
}

#[test]
fn exit_two_is_unusual_but_passes() {
    let c = classify(&result(b"", ExitDisposition::Exited(2)));
    assert_eq!(c, Classification::UnusualExit(2));
    assert!(c.passes());
}

#[test]
fn segfault_and_abort_fail() {
    assert_eq!(classify(&result(b"", ExitDisposition::Signaled(11))), Classification::Crashed(11));
    assert_eq!(classify(&result(b"", ExitDisposition::Signaled(6))), Classification::Crashed(6));
    assert_eq!(on_validate(&result(b"", ExitDisposition::Signaled(11))), Some(false));
    assert_eq!(on_validate(&result(b"", ExitDisposition::Signaled(6))), Some(false));
}

#[test]
fn other_signal_is_unusual_but_passes() {
    let c = classify(&result(b"", ExitDisposition::Signaled(9)));
    assert_eq!(c, Classification::UnusualSignal(9));
    assert!(c.passes());
}

#[test]
fn timeout_fails() {
    let c = classify(&result(b"", ExitDisposition::TimedOut));
    assert_eq!(c, Classification::TimedOut);
    assert!(!c.passes());
}

#[test]
fn port_in_use_fails_ignoring_case() {
    let r = result(b"bind: Address Already IN USE\n", ExitDisposition::Exited(0));
    assert_eq!(classify(&r), Classification::PortInUse);
    assert_eq!(on_validate(&r), Some(false));
    let r = result(b"in us", ExitDisposition::Exited(0));
    assert_eq!(classify(&r), Classification::Normal);
}

#[test]
fn supervisor_error_is_fatal() {
    let r = result(b"", ExitDisposition::SupervisorError(String::from("lost child")));
    assert_eq!(classify(&r), Classification::SupervisorFailure);
    assert!(classify(&r).is_fatal());
    assert_eq!(on_validate(&r), None);
    assert_eq!(verdict(&r, true), None);
}

#[test]
fn verdict_needs_both() {
    let ok = result(b"", ExitDisposition::Exited(0));
    assert_eq!(verdict(&ok, true), Some(true));
    assert_eq!(verdict(&ok, false), Some(false));
    let crashed = result(b"", ExitDisposition::Signaled(11));
    assert_eq!(verdict(&crashed, true), Some(false));
}

#[test]
fn expired_wait_is_timed_out() {
    assert_eq!(settle(None), ExitDisposition::TimedOut);
    assert_eq!(settle(Some(ExitDisposition::Exited(3))), ExitDisposition::Exited(3));
    assert_eq!(settle(Some(ExitDisposition::Signaled(15))), ExitDisposition::Signaled(15));
}

#[test]
fn status_codes() {
    assert_eq!(Status::Timeout.exit_code(), 124);
    assert_eq!(Status::Timeout.raw(), 124 << 8);
    assert_eq!(Status::Sigsegv.raw(), 139 << 8);
    assert_eq!(Status::Sigpipe.exit_code(), 141);
}

#[test]
fn drain_collects_until_end() {
    let mut d = Drain::new();
    assert!(d.on_read(ReadEvent::Data(b"ab".to_vec())));
    assert!(d.on_read(ReadEvent::Data(b"cd".to_vec())));
    assert!(!d.is_finished());
    assert!(!d.on_read(ReadEvent::Data(Vec::new())));
    assert!(d.is_finished());
    assert!(!d.on_read(ReadEvent::Data(b"ef".to_vec())));
    assert_eq!(d.contents(), &b"abcd".to_vec());
}

#[test]
fn drain_stops_on_failure() {
    let mut d = Drain::new();
    assert!(d.on_read(ReadEvent::Data(b"x".to_vec())));
    assert!(!d.on_read(ReadEvent::Failed));
    assert!(d.is_finished());
    assert_eq!(d.contents(), &b"x".to_vec());
}

#[test]
fn assembled_result_holds_both_streams() {
    let mut out = Drain::new();
    let mut err = Drain::new();
    out.on_read(ReadEvent::Data(b"hello".to_vec()));
    out.on_read(ReadEvent::Data(Vec::new()));
    err.on_read(ReadEvent::Data(b"oops".to_vec()));
    err.on_read(ReadEvent::Failed);
    let r = ProcessOutput::assemble(out, err, ExitDisposition::Exited(0));
    assert_eq!(r.stdout, b"hello".to_vec());
    assert_eq!(r.stderr, b"oops".to_vec());
}

#[test]
fn idle_result_is_empty_success() {
    let r = ProcessOutput::idle();
    assert!(r.stdout.is_empty());
    assert!(r.stderr.is_empty());
    assert_eq!(r.status, ExitDisposition::Exited(0));
}

#[test]
fn spawn_needs_executable_unless_leak_checker() {
    assert!(may_spawn(true, "prog"));
    assert!(!may_spawn(false, "prog"));
    assert!(may_spawn(false, "valgrind"));
    assert!(!may_spawn(false, "valgrin"));
}
