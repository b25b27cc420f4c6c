//! Capture of a child's output streams and assembly of its final result.
use vstd::prelude::*;
use crate::disposition::ExitDisposition;

verus! {

/// The evidence left by one supervised process.
#[derive(Debug, Clone)]
pub struct ProcessOutput {
    pub stdout: Vec<u8>,
    pub stderr: Vec<u8>,
    pub status: ExitDisposition,
}

impl ProcessOutput {
    pub fn new(stdout: Vec<u8>, stderr: Vec<u8>, status: ExitDisposition) -> (r: Self)
        ensures
            r.stdout@ == stdout@,
            r.stderr@ == stderr@,
            r.status == status,
    {
        ProcessOutput { stdout, stderr, status }
    }

    /// The result handed over when no process had to run: no output, exit code 0.
    pub fn idle() -> (r: Self)
        ensures
            r.stdout@.len() == 0,
            r.stderr@.len() == 0,
            r.status == ExitDisposition::Exited(0),
    {
        ProcessOutput { stdout: Vec::new(), stderr: Vec::new(), status: ExitDisposition::Exited(0) }
    }

    /// Puts together the result once both streams have reached their end.
    pub fn assemble(out: Drain, err: Drain, status: ExitDisposition) -> (r: Self)
        requires
            out.is_finished_spec(),
            err.is_finished_spec(),
        ensures
            r.stdout@ == out.contents_spec(),
            r.stderr@ == err.contents_spec(),
            r.status == status,
    {
        ProcessOutput { stdout: out.buffer, stderr: err.buffer, status }
    }
}

/// What one read from an output pipe gave.
#[derive(Debug, Clone)]
pub enum ReadEvent {
    /// A chunk of bytes; an empty chunk means end of stream.
    Data(Vec<u8>),
    /// The read failed; the stream is treated as ended.
    Failed,
}

/// The bytes drained so far from one output pipe, and whether the pipe has
/// reached its end.
#[derive(Debug)]
pub struct Drain {
    buffer: Vec<u8>,
    finished: bool,
}

impl Drain {
    pub closed spec fn contents_spec(&self) -> Seq<u8> {
        self.buffer@
    }

    pub closed spec fn is_finished_spec(&self) -> bool {
        self.finished
    }

    /// An empty drain, still reading.
    pub fn new() -> (r: Self)
        ensures
            r.contents_spec().len() == 0,
            !r.is_finished_spec(),
    {
        Drain { buffer: Vec::new(), finished: false }
    }

    /// Records one read; returns whether more reads are wanted. Once the
    /// stream has ended nothing changes any more.
    pub fn on_read(&mut self, event: ReadEvent) -> (more: bool)
        ensures
            old(self).is_finished_spec() ==> *final(self) == *old(self) && !more,
            !old(self).is_finished_spec() ==> match event {
                ReadEvent::Data(chunk) => if chunk@.len() == 0 {
                    final(self).contents_spec() == old(self).contents_spec()
                        && final(self).is_finished_spec() && !more
                } else {
                    final(self).contents_spec() == old(self).contents_spec() + chunk@
                        && !final(self).is_finished_spec() && more
                },
                ReadEvent::Failed => final(self).contents_spec() == old(self).contents_spec()
                    && final(self).is_finished_spec() && !more,
            },
    {
        if self.finished {
            return false;
        }
        match event {
            ReadEvent::Data(chunk) => {
                if chunk.len() == 0 {
                    self.finished = true;
                    false
                } else {
                    let mut chunk = chunk;
                    self.buffer.append(&mut chunk);
                    true
                }
            },
            ReadEvent::Failed => {
                self.finished = true;
                false
            },
        }
    }

    pub fn is_finished(&self) -> (r: bool)
        ensures
            r == self.is_finished_spec(),
    {
        self.finished
    }

    /// The bytes read so far.
    pub fn contents(&self) -> (r: &Vec<u8>)
        ensures
            r@ == self.contents_spec(),
    {
        &self.buffer
    }
}

/// The disposition reported after waiting: what the operating system said if
/// the process ended within its time, else `TimedOut` (the supervisor has
/// then killed and reaped it, whatever its own status says).
pub fn settle(ended: Option<ExitDisposition>) -> (r: ExitDisposition)
    ensures
        ended is None ==> r == ExitDisposition::TimedOut,
        ended matches Some(d) ==> r == d,
{
    match ended {
        Some(d) => d,
        None => ExitDisposition::TimedOut,
    }
}

/// The program name that may run without an executable in the working
/// directory: the leak checker, found on the search path.
pub open spec fn leak_checker_name() -> Seq<char> {
    seq!['v', 'a', 'l', 'g', 'r', 'i', 'n', 'd']
}

/// Whether a process may be spawned: its executable exists, or it is the leak
/// checker.
pub fn may_spawn(present: bool, file_name: &str) -> (r: bool)
    ensures
        r == (present || file_name@ == leak_checker_name()),
{
    if present {
        return true;
    }
    let name: Vec<char> = crate::text::chars_of(file_name);
    let expected: [char; 8] = ['v', 'a', 'l', 'g', 'r', 'i', 'n', 'd'];
    proof {
        assert(expected@ =~= leak_checker_name());
    }
    crate::text::same_chars(name.as_slice(), expected.as_slice())
}

} // verus!
