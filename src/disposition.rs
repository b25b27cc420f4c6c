//! How a supervised process ended, and how that ending is judged.
use vstd::prelude::*;
use crate::capture::ProcessOutput;
use crate::text::{contains_ignore_case, find_bytes_ignore_case};

verus! {

/// Wait statuses in the encoding the operating system reports (exit code in
/// the second byte) for the endings the supervisor knows by name.
#[derive(Debug, Clone, Copy, PartialEq, Eq, Structural)]
pub enum Status {
    Timeout,
    Sigint,
    Sigabrt,
    Sigkill,
    Sigsegv,
    Sigpipe,
}

impl Status {
    pub open spec fn spec_exit_code(self) -> i32 {
        match self {
            Status::Timeout => 124,
            Status::Sigint => 130,
            Status::Sigabrt => 134,
            Status::Sigkill => 137,
            Status::Sigsegv => 139,
            Status::Sigpipe => 141,
        }
    }

    /// The shell-style exit code of this ending.
    pub fn exit_code(&self) -> (r: i32)
        ensures
            r == self.spec_exit_code(),
    {
        match self {
            Status::Timeout => 124,
            Status::Sigint => 130,
            Status::Sigabrt => 134,
            Status::Sigkill => 137,
            Status::Sigsegv => 139,
            Status::Sigpipe => 141,
        }
    }

    /// The raw wait status: the exit code shifted into the second byte.
    pub fn raw(&self) -> (r: i32)
        ensures
            r == self.spec_exit_code() * 256,
    {
        self.exit_code() * 256
    }
}

/// How a supervised process ended.
#[derive(Debug, Clone, PartialEq, Eq)]
pub enum ExitDisposition {
    /// The process exited by itself with this code.
    Exited(i32),
    /// The process was ended by this signal.
    Signaled(i32),
    /// The process outlived its time budget and was killed and reaped.
    TimedOut,
    /// The supervisor could not observe how the process ended.
    SupervisorError(String),
}

/// The judgement passed on a finished process.
#[derive(Debug, Clone, Copy, PartialEq, Eq, Structural)]
pub enum Classification {
    /// Its stderr says that an address was already in use.
    PortInUse,
    /// It exited with code 0 or 1.
    Normal,
    /// It ran out of time.
    TimedOut,
    /// It exited with another code: noted, not failing.
    UnusualExit(i32),
    /// It died of a memory fault or an abort.
    Crashed(i32),
    /// It died of another signal: noted, not failing.
    UnusualSignal(i32),
    /// The supervisor failed; the run cannot go on.
    SupervisorFailure,
}

pub open spec fn sigsegv_number() -> i32 {
    11
}

pub open spec fn sigabrt_number() -> i32 {
    6
}

/// Relies on libc::SIGSEGV, the segmentation fault signal number (11 on Linux).
#[verifier::external_body]
fn sigsegv() -> (r: i32)
    ensures
        r == sigsegv_number(),
{
    libc::SIGSEGV
}

/// Relies on libc::SIGABRT, the abort signal number (6 on Linux).
#[verifier::external_body]
fn sigabrt() -> (r: i32)
    ensures
        r == sigabrt_number(),
{
    libc::SIGABRT
}

/// The lower-case marker of an address that is already bound: "in use".
pub open spec fn in_use_marker() -> Seq<u8> {
    seq![105u8, 110u8, 32u8, 117u8, 115u8, 101u8]
}

/// The classification of a process that ended as `d` and wrote `stderr`.
pub open spec fn spec_classify(stderr: Seq<u8>, d: ExitDisposition) -> Classification {
    if contains_ignore_case(stderr, in_use_marker()) {
        Classification::PortInUse
    } else {
        match d {
            ExitDisposition::Exited(code) => {
                if code == 0 || code == 1 {
                    Classification::Normal
                } else {
                    Classification::UnusualExit(code)
                }
            },
            ExitDisposition::TimedOut => Classification::TimedOut,
            ExitDisposition::Signaled(sig) => {
                if sig == sigsegv_number() || sig == sigabrt_number() {
                    Classification::Crashed(sig)
                } else {
                    Classification::UnusualSignal(sig)
                }
            },
            ExitDisposition::SupervisorError(_) => Classification::SupervisorFailure,
        }
    }
}

impl Classification {
    pub open spec fn spec_passes(self) -> bool {
        match self {
            Classification::Normal => true,
            Classification::UnusualExit(_) => true,
            Classification::UnusualSignal(_) => true,
            _ => false,
        }
    }

    /// Whether this ending, by itself, lets the test pass.
    pub fn passes(&self) -> (r: bool)
        ensures
            r == self.spec_passes(),
    {
        match self {
            Classification::Normal => true,
            Classification::UnusualExit(_) => true,
            Classification::UnusualSignal(_) => true,
            _ => false,
        }
    }

    /// Whether the run has to be aborted.
    pub fn is_fatal(&self) -> (r: bool)
        ensures
            r == (*self == Classification::SupervisorFailure),
    {
        match self {
            Classification::SupervisorFailure => true,
            _ => false,
        }
    }
}

/// Without a port conflict on stderr: exit codes 0 and 1 pass, any other exit
/// code is noted and passes, a timeout fails, SIGSEGV and SIGABRT fail as
/// crashes, and any other signal is noted and passes.
pub proof fn lemma_exit_classification(stderr: Seq<u8>, code: i32, sig: i32)
    requires
        !contains_ignore_case(stderr, in_use_marker()),
    ensures
        spec_classify(stderr, ExitDisposition::Exited(0)) == Classification::Normal,
        spec_classify(stderr, ExitDisposition::Exited(1)) == Classification::Normal,
        code != 0 && code != 1 ==> spec_classify(stderr, ExitDisposition::Exited(code))
            == Classification::UnusualExit(code),
        spec_classify(stderr, ExitDisposition::Exited(code)).spec_passes(),
        spec_classify(stderr, ExitDisposition::TimedOut) == Classification::TimedOut,
        !spec_classify(stderr, ExitDisposition::TimedOut).spec_passes(),
        spec_classify(stderr, ExitDisposition::Signaled(sigsegv_number())) == Classification::Crashed(
            sigsegv_number(),
        ),
        spec_classify(stderr, ExitDisposition::Signaled(sigabrt_number())) == Classification::Crashed(
            sigabrt_number(),
        ),
        !spec_classify(stderr, ExitDisposition::Signaled(sigsegv_number())).spec_passes(),
        !spec_classify(stderr, ExitDisposition::Signaled(sigabrt_number())).spec_passes(),
        sig != sigsegv_number() && sig != sigabrt_number() ==> spec_classify(
            stderr,
            ExitDisposition::Signaled(sig),
        ) == Classification::UnusualSignal(sig) && spec_classify(
            stderr,
            ExitDisposition::Signaled(sig),
        ).spec_passes(),
{
}

/// A stderr that reports an address in use fails the run, however the
/// process ended.
pub proof fn lemma_port_in_use_fails(stderr: Seq<u8>, d: ExitDisposition)
    requires
        contains_ignore_case(stderr, in_use_marker()),
    ensures
        spec_classify(stderr, d) == Classification::PortInUse,
        !spec_classify(stderr, d).spec_passes(),
{
}

/// Classifies a finished process: a port conflict reported on stderr first,
/// then the exit disposition.
pub fn classify(result: &ProcessOutput) -> (r: Classification)
    ensures
        r == spec_classify(result.stderr@, result.status),
{
    let marker: [u8; 6] = [105u8, 110u8, 32u8, 117u8, 115u8, 101u8];
    proof {
        assert(marker@ =~= in_use_marker());
    }
    if find_bytes_ignore_case(result.stderr.as_slice(), marker.as_slice()) {
        return Classification::PortInUse;
    }
    match &result.status {
        ExitDisposition::Exited(code) => {
            if *code == 0 || *code == 1 {
                Classification::Normal
            } else {
                Classification::UnusualExit(*code)
            }
        },
        ExitDisposition::TimedOut => Classification::TimedOut,
        ExitDisposition::Signaled(sig) => {
            if *sig == sigsegv() || *sig == sigabrt() {
                Classification::Crashed(*sig)
            } else {
                Classification::UnusualSignal(*sig)
            }
        },
        ExitDisposition::SupervisorError(_) => Classification::SupervisorFailure,
    }
}

} // verus!
