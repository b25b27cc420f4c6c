//! The collaborators' judgements: the build log, the leak checker's log, the
//! communication log and the final verdict of a run.
use vstd::prelude::*;
use crate::capture::ProcessOutput;
use crate::disposition::{classify, spec_classify, Classification};
use crate::text::{chars_of, contains, find_bytes, split_words, string_of, words};
use vstd::utf8::encode_utf8;

verus! {

/// How a build went.
#[derive(Debug, Clone, Copy, PartialEq, Eq, Structural)]
pub enum BuildOutcome {
    Success,
    Warning,
    Error,
}

/// Why a build command was refused.
#[derive(Debug, Clone, Copy, PartialEq, Eq, Structural)]
pub enum BuildError {
    /// The command has fewer than five words, so it cannot name a compiler,
    /// sources, an output flag and an output file.
    InvalidCommand,
}

pub open spec fn error_marker() -> Seq<u8> {
    seq![101u8, 114u8, 114u8, 111u8, 114u8, 58u8]
}

pub open spec fn warning_marker() -> Seq<u8> {
    seq![119u8, 97u8, 114u8, 110u8, 105u8, 110u8, 103u8]
}

/// The leak checker's summary line of a clean run.
pub open spec fn clean_summary() -> Seq<u8> {
    "ERROR SUMMARY: 0 errors from 0 contexts"@.map_values(|c: char| c as u8)
}

pub open spec fn spec_classify_build(stderr: Seq<u8>) -> BuildOutcome {
    if contains(stderr, error_marker()) {
        BuildOutcome::Error
    } else if contains(stderr, warning_marker()) {
        BuildOutcome::Warning
    } else {
        BuildOutcome::Success
    }
}

impl BuildOutcome {
    /// The outcome's name: "success", "warning" or "error".
    pub fn label(&self) -> (r: &'static str)
        ensures
            *self == BuildOutcome::Success ==> r@ == "success"@,
            *self == BuildOutcome::Warning ==> r@ == "warning"@,
            *self == BuildOutcome::Error ==> r@ == "error"@,
    {
        match self {
            BuildOutcome::Success => "success",
            BuildOutcome::Warning => "warning",
            BuildOutcome::Error => "error",
        }
    }
}

/// Judges a build by its stderr: "error:" anywhere means an error, else
/// "warning" anywhere means warnings, else success.
pub fn classify_build(stderr: &[u8]) -> (r: BuildOutcome)
    ensures
        r == spec_classify_build(stderr@),
{
    let error: [u8; 6] = [101u8, 114u8, 114u8, 111u8, 114u8, 58u8];
    let warning: [u8; 7] = [119u8, 97u8, 114u8, 110u8, 105u8, 110u8, 103u8];
    proof {
        assert(error@ =~= error_marker());
        assert(warning@ =~= warning_marker());
    }
    if find_bytes(stderr, error.as_slice()) {
        BuildOutcome::Error
    } else if find_bytes(stderr, warning.as_slice()) {
        BuildOutcome::Warning
    } else {
        BuildOutcome::Success
    }
}

/// The file a build command writes: its last word. A command of fewer than
/// five words is refused.
pub fn compile_target(input: &str) -> (r: Result<String, BuildError>)
    ensures
        words(input@).len() < 5 ==> r == Err::<String, BuildError>(BuildError::InvalidCommand),
        words(input@).len() >= 5 ==> (r matches Ok(t) && t@ == words(input@).last()),
{
    let cs = chars_of(input);
    let pieces = split_words(cs.as_slice());
    if pieces.len() < 5 {
        return Err(BuildError::InvalidCommand);
    }
    let last = pieces.len() - 1;
    proof {
        assert(crate::text::char_views(pieces@)[last as int] == pieces@[last as int]@);
    }
    Ok(string_of(pieces[last].as_slice()))
}

/// Whether the leak checker's log reports a clean run.
pub fn log_reports_no_errors(log: &[u8]) -> (r: bool)
    ensures
        r == contains(log@, clean_summary()),
{
    let needle: [u8; 39] = [
        69u8, 82u8, 82u8, 79u8, 82u8, 32u8, 83u8, 85u8, 77u8, 77u8, 65u8, 82u8, 89u8, 58u8, 32u8,
        48u8, 32u8, 101u8, 114u8, 114u8, 111u8, 114u8, 115u8, 32u8, 102u8, 114u8, 111u8, 109u8,
        32u8, 48u8, 32u8, 99u8, 111u8, 110u8, 116u8, 101u8, 120u8, 116u8, 115u8,
    ];
    proof {
        reveal_strlit("ERROR SUMMARY: 0 errors from 0 contexts");
        assert(needle@ =~= clean_summary());
    }
    find_bytes(log, needle.as_slice())
}

/// Whether the leak check passed: the log could be read (`Some`) and reports
/// a clean run. An unreadable or missing log fails the check.
pub fn check_valgrind_leaks(log_contents: Option<&str>) -> (r: bool)
    ensures
        log_contents is None ==> !r,
        log_contents matches Some(s) ==> r == contains(encode_utf8(s@), clean_summary()),
{
    match log_contents {
        None => false,
        Some(s) => log_reports_no_errors(s.as_bytes()),
    }
}

/// What the communication phase exchanged with the process, and the message
/// of the failure that ended it, if one did.
#[derive(Debug, Clone)]
pub struct CommunicateOutput {
    pub output: Vec<Vec<u8>>,
    pub error: Option<String>,
}

pub open spec fn flatten(chunks: Seq<Seq<u8>>) -> Seq<u8>
    decreases chunks.len(),
{
    if chunks.len() == 0 {
        Seq::empty()
    } else {
        flatten(chunks.drop_last()) + chunks.last()
    }
}

impl CommunicateOutput {
    pub open spec fn chunk_views(&self) -> Seq<Seq<u8>> {
        self.output@.map_values(|c: Vec<u8>| c@)
    }

    /// The bytes written to the communication log: every chunk in order,
    /// followed by the failure message if there is one.
    pub open spec fn log_spec(&self) -> Seq<u8> {
        match self.error {
            None => flatten(self.chunk_views()),
            Some(e) => flatten(self.chunk_views()) + encode_utf8(e@),
        }
    }

    /// The content of the communication log.
    pub fn log_bytes(&self) -> (r: Vec<u8>)
        ensures
            r@ == self.log_spec(),
    {
        let mut out: Vec<u8> = Vec::new();
        let mut i: usize = 0;
        while i < self.output.len()
            invariant
                i <= self.output@.len(),
                out@ == flatten(self.chunk_views().subrange(0, i as int)),
            decreases self.output@.len() - i,
        {
            let chunk = &self.output[i];
            let ghost before = out@;
            let mut k: usize = 0;
            while k < chunk.len()
                invariant
                    k <= chunk@.len(),
                    out@ == before + chunk@.subrange(0, k as int),
                decreases chunk@.len() - k,
            {
                out.push(chunk[k]);
                k += 1;
                proof {
                    assert(out@ =~= before + chunk@.subrange(0, k as int));
                }
            }
            proof {
                assert(chunk@.subrange(0, chunk@.len() as int) =~= chunk@);
                assert(self.chunk_views().subrange(0, i + 1).drop_last() =~= self.chunk_views().subrange(0, i as int));
            }
            i += 1;
        }
        proof {
            assert(self.chunk_views().subrange(0, self.output@.len() as int) =~= self.chunk_views());
        }
        match &self.error {
            None => out,
            Some(e) => {
                let bytes = e.as_str().as_bytes();
                let ghost before = out@;
                let mut k: usize = 0;
                while k < bytes.len()
                    invariant
                        k <= bytes@.len(),
                        out@ == before + bytes@.subrange(0, k as int),
                    decreases bytes@.len() - k,
                {
                    out.push(bytes[k]);
                    k += 1;
                    proof {
                        assert(out@ =~= before + bytes@.subrange(0, k as int));
                    }
                }
                proof {
                    assert(bytes@.subrange(0, bytes@.len() as int) =~= bytes@);
                }
                out
            },
        }
    }
}

/// Whether the ending of a process, by itself, lets its test pass; `None`
/// when the supervisor failed and the run must be aborted.
pub fn on_validate(result: &ProcessOutput) -> (r: Option<bool>)
    ensures
        spec_classify(result.stderr@, result.status) == Classification::SupervisorFailure
            <==> r is None,
        r matches Some(b) ==> b == spec_classify(result.stderr@, result.status).spec_passes(),
{
    let c = classify(result);
    if c.is_fatal() {
        None
    } else {
        Some(c.passes())
    }
}

/// The verdict of a run: the ending must pass and the agent must confirm.
/// Both are always judged; `None` when the supervisor failed.
pub fn verdict(result: &ProcessOutput, confirmed: bool) -> (r: Option<bool>)
    ensures
        spec_classify(result.stderr@, result.status) == Classification::SupervisorFailure
            <==> r is None,
        r matches Some(b) ==> b == (spec_classify(result.stderr@, result.status).spec_passes()
            && confirmed),
{
    match on_validate(result) {
        None => None,
        Some(not_errored) => Some(not_errored && confirmed),
    }
}

} // verus!
