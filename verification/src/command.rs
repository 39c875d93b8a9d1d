//! Running a command: the order in which its process is waited for, ended and
//! drained, and how much of its output is kept.

use vstd::prelude::*;

verus! {

/// How many bytes of a command's output are kept.
pub const STDOUT_LIMIT: usize = 512 * 1024;

/// How many bytes of a command's diagnostics are kept.
pub const STDERR_LIMIT: usize = 32 * 1024;

/// What is reported where the thread that drains a pipe did not return.
pub const READER_PANICKED: &'static str = "command output reader panicked";

/// How a process ended: with an exit code, or without one where a signal
/// ended it.
#[derive(Debug, Clone, Copy, PartialEq, Eq, Structural)]
pub struct ExitStatus {
    pub code: Option<i32>,
}

impl ExitStatus {
    /// Exit code zero.
    pub open spec fn ok(self) -> bool {
        self.code == Some(0i32)
    }

    /// Whether the process exited with code zero.
    pub fn success(&self) -> (r: bool)
        ensures
            r == self.ok(),
    {
        match self.code {
            Some(code) => code == 0,
            None => false,
        }
    }
}

/// What a command left behind.
#[derive(Debug)]
pub struct Output {
    pub status: ExitStatus,
    pub stdout: Vec<u8>,
    pub stdout_truncated: bool,
    pub timed_out: bool,
}

impl Output {
    /// The command ended in time and with exit code zero.
    pub open spec fn ok(self) -> bool {
        !self.timed_out && self.status.ok()
    }

    /// Whether the command ended in time and with exit code zero.
    pub fn success(&self) -> (r: bool)
        ensures
            r == self.ok(),
    {
        !self.timed_out && self.status.success()
    }
}

/// What was kept of a stream.
#[derive(Debug)]
pub struct Captured {
    pub bytes: Vec<u8>,
    pub truncated: bool,
}

/// The contents of a [`Captured`].
pub struct CapturedView {
    pub bytes: Seq<u8>,
    pub truncated: bool,
}

impl View for Captured {
    type V = CapturedView;

    open spec fn view(&self) -> CapturedView {
        CapturedView { bytes: self.bytes@, truncated: self.truncated }
    }
}

/// What is kept of a stream: its first `limit` bytes, and whether there were more.
pub open spec fn capture(stream: Seq<u8>, limit: nat) -> CapturedView {
    if stream.len() <= limit {
        CapturedView { bytes: stream, truncated: false }
    } else {
        CapturedView { bytes: stream.take(limit as int), truncated: true }
    }
}

/// How many bytes of a chunk still fit.
pub open spec fn room(captured: CapturedView, chunk: Seq<u8>, limit: nat) -> int {
    let remaining = if captured.bytes.len() <= limit {
        limit - captured.bytes.len()
    } else {
        0
    };
    if remaining <= chunk.len() {
        remaining
    } else {
        chunk.len() as int
    }
}

/// What is kept after one more chunk.
pub open spec fn absorbed(captured: CapturedView, chunk: Seq<u8>, limit: nat) -> CapturedView {
    let keep = room(captured, chunk, limit);
    CapturedView {
        bytes: captured.bytes + chunk.take(keep),
        truncated: captured.truncated || keep < chunk.len(),
    }
}

/// What is kept after all the chunks.
pub open spec fn absorbed_all(chunks: Seq<Seq<u8>>, limit: nat) -> CapturedView
    decreases chunks.len(),
{
    if chunks.len() == 0 {
        CapturedView { bytes: seq![], truncated: false }
    } else {
        absorbed(absorbed_all(chunks.drop_last(), limit), chunks.last(), limit)
    }
}

/// The stream that the chunks make up.
pub open spec fn stream_of(chunks: Seq<Seq<u8>>) -> Seq<u8>
    decreases chunks.len(),
{
    if chunks.len() == 0 {
        seq![]
    } else {
        stream_of(chunks.drop_last()) + chunks.last()
    }
}

impl Captured {
    /// Nothing read yet.
    pub fn new() -> (r: Captured)
        ensures
            r@ == (CapturedView { bytes: seq![], truncated: false }),
    {
        let r: Captured = Captured { bytes: Vec::new(), truncated: false };
        assert(r.bytes@ =~= seq![]);
        r
    }
}

/// Takes in what one read gave. A read that gave nothing ends the stream: then
/// the result is false.
pub fn read_capped(captured: &mut Captured, chunk: &[u8], limit: usize) -> (more: bool)
    ensures
        final(captured)@ == absorbed(old(captured)@, chunk@, limit as nat),
        more == (chunk@.len() > 0),
{
    let ghost start = captured@;
    let held: usize = captured.bytes.len();
    let remaining: usize = if held <= limit {
        limit - held
    } else {
        0
    };
    let keep: usize = if remaining <= chunk.len() {
        remaining
    } else {
        chunk.len()
    };
    let mut i: usize = 0;
    assert(captured.bytes@ =~= start.bytes + chunk@.take(0));
    while i < keep
        invariant
            i <= keep <= chunk@.len(),
            captured.bytes@ == start.bytes + chunk@.take(i as int),
            captured.truncated == start.truncated,
        decreases keep - i,
    {
        captured.bytes.push(chunk[i]);
        i = i + 1;
        assert(captured.bytes@ =~= start.bytes + chunk@.take(i as int));
    }
    captured.truncated = captured.truncated || keep < chunk.len();
    chunk.len() > 0
}

/// In whatever chunks a stream arrives, what is kept of it is its first `limit`
/// bytes, and it counts as truncated exactly if it was longer.
pub proof fn law_capture_is_a_prefix(chunks: Seq<Seq<u8>>, limit: nat)
    ensures
        absorbed_all(chunks, limit) == capture(stream_of(chunks), limit),
    decreases chunks.len(),
{
    if chunks.len() > 0 {
        law_capture_is_a_prefix(chunks.drop_last(), limit);
        let head = stream_of(chunks.drop_last());
        let chunk = chunks.last();
        let kept = absorbed_all(chunks.drop_last(), limit);
        let keep = room(kept, chunk, limit);
        if head.len() + chunk.len() <= limit {
            assert(chunk.take(keep) =~= chunk);
        } else {
            assert(kept.bytes + chunk.take(keep) =~= (head + chunk).take(limit as int));
        }
    }
}

/// How the thread that drains a pipe ended.
#[derive(Debug)]
pub enum Reader<E> {
    /// There was no pipe.
    Absent,
    /// The thread panicked.
    Panicked,
    /// The thread returned.
    Finished(Result<Captured, E>),
}

/// Why nothing was captured from a pipe.
#[derive(Debug)]
pub enum ReaderError<E> {
    /// The thread that drains it panicked.
    Panicked,
    /// A read failed.
    Failed(E),
}

/// What the thread that drains a pipe captured. Where there was no pipe, that
/// is nothing.
pub fn join_reader<E>(reader: Reader<E>) -> (r: Result<Captured, ReaderError<E>>)
    ensures
        reader is Absent ==> r is Ok && r->Ok_0@ == capture(seq![], 0),
        reader is Panicked ==> r == Err::<Captured, _>(ReaderError::<E>::Panicked),
        reader matches Reader::Finished(Ok(captured)) ==> r == Ok::<_, ReaderError<E>>(captured),
        reader matches Reader::Finished(Err(error)) ==> r == Err::<Captured, _>(
            ReaderError::Failed(error),
        ),
{
    match reader {
        Reader::Absent => Ok(Captured::new()),
        Reader::Panicked => Err(ReaderError::Panicked),
        Reader::Finished(Ok(captured)) => Ok(captured),
        Reader::Finished(Err(error)) => Err(ReaderError::Failed(error)),
    }
}

/// How far a command has got.
#[derive(Debug)]
pub enum RunState<E> {
    /// The process is to be started.
    Spawning,
    /// The process is waited for, for as long as the command may take.
    Waiting,
    /// The time is up, and the process is to be ended.
    Killing,
    /// The process is waited for, however long that takes.
    Reaping,
    /// The process has ended, and its output is to be collected.
    JoiningStdout { status: ExitStatus, timed_out: bool },
    /// Its diagnostics are to be collected.
    JoiningStderr { status: ExitStatus, timed_out: bool, stdout: Captured },
    /// The command is over.
    Finished(Result<Output, E>),
}

/// What is to be done next for a command.
#[derive(Debug, Clone, Copy, PartialEq, Eq, Structural)]
pub enum RunAction {
    Spawn,
    WaitTimeout,
    Kill,
    Wait,
    JoinStdout,
    JoinStderr,
    Return,
}

/// What came of that.
#[derive(Debug)]
pub enum RunEvent<E> {
    /// The process was started, or could not be.
    Spawned(Result<(), E>),
    /// The process ended in the time it had, or did not.
    Waited(Result<Option<ExitStatus>, E>),
    /// The process was told to end; it may have ended by itself.
    Killed,
    /// The process ended.
    Reaped(Result<ExitStatus, E>),
    /// What came out of the pipe.
    Joined(Result<Captured, E>),
}

impl<E> RunState<E> {
    /// What is to be done next.
    pub open spec fn asks(self) -> RunAction {
        match self {
            RunState::Spawning => RunAction::Spawn,
            RunState::Waiting => RunAction::WaitTimeout,
            RunState::Killing => RunAction::Kill,
            RunState::Reaping => RunAction::Wait,
            RunState::JoiningStdout { .. } => RunAction::JoinStdout,
            RunState::JoiningStderr { .. } => RunAction::JoinStderr,
            RunState::Finished(_) => RunAction::Return,
        }
    }

    /// The state after an event. An event that was not asked for changes nothing.
    pub open spec fn after(self, event: RunEvent<E>) -> RunState<E> {
        match (self, event) {
            (RunState::Spawning, RunEvent::Spawned(Ok(_))) => RunState::Waiting,
            (RunState::Spawning, RunEvent::Spawned(Err(error))) => RunState::Finished(Err(error)),
            (RunState::Waiting, RunEvent::Waited(Ok(Some(status)))) => RunState::JoiningStdout {
                status,
                timed_out: false,
            },
            (RunState::Waiting, RunEvent::Waited(Ok(None))) => RunState::Killing,
            (RunState::Waiting, RunEvent::Waited(Err(error))) => RunState::Finished(Err(error)),
            (RunState::Killing, RunEvent::Killed) => RunState::Reaping,
            (RunState::Reaping, RunEvent::Reaped(Ok(status))) => RunState::JoiningStdout {
                status,
                timed_out: true,
            },
            (RunState::Reaping, RunEvent::Reaped(Err(error))) => RunState::Finished(Err(error)),
            (
                RunState::JoiningStdout { status, timed_out },
                RunEvent::Joined(Ok(stdout)),
            ) => RunState::JoiningStderr { status, timed_out, stdout },
            (RunState::JoiningStdout { .. }, RunEvent::Joined(Err(error))) => RunState::Finished(
                Err(error),
            ),
            (
                RunState::JoiningStderr { status, timed_out, stdout },
                RunEvent::Joined(Ok(_)),
            ) => RunState::Finished(
                Ok(
                    Output {
                        status,
                        stdout: stdout.bytes,
                        stdout_truncated: stdout.truncated,
                        timed_out,
                    },
                ),
            ),
            (RunState::JoiningStderr { .. }, RunEvent::Joined(Err(error))) => RunState::Finished(
                Err(error),
            ),
            _ => self,
        }
    }

    /// What is to be done next.
    pub fn action(&self) -> (r: RunAction)
        ensures
            r == self.asks(),
    {
        match self {
            RunState::Spawning => RunAction::Spawn,
            RunState::Waiting => RunAction::WaitTimeout,
            RunState::Killing => RunAction::Kill,
            RunState::Reaping => RunAction::Wait,
            RunState::JoiningStdout { .. } => RunAction::JoinStdout,
            RunState::JoiningStderr { .. } => RunAction::JoinStderr,
            RunState::Finished(_) => RunAction::Return,
        }
    }

    /// The result of a command that is over.
    pub fn result(self) -> (r: Option<Result<Output, E>>)
        ensures
            self matches RunState::Finished(result) ==> r == Some(result),
            !(self is Finished) ==> r is None,
    {
        match self {
            RunState::Finished(result) => Some(result),
            _ => None,
        }
    }
}

/// Takes in what came of the last action. Diagnostics are drained, so that a
/// process cannot block on a full pipe, and dropped: they may hold private details.
pub fn run<E>(state: RunState<E>, event: RunEvent<E>) -> (r: RunState<E>)
    ensures
        r == state.after(event),
{
    match (state, event) {
        (RunState::Spawning, RunEvent::Spawned(Ok(_))) => RunState::Waiting,
        (RunState::Spawning, RunEvent::Spawned(Err(error))) => RunState::Finished(Err(error)),
        (RunState::Waiting, RunEvent::Waited(Ok(Some(status)))) => RunState::JoiningStdout {
            status,
            timed_out: false,
        },
        (RunState::Waiting, RunEvent::Waited(Ok(None))) => RunState::Killing,
        (RunState::Waiting, RunEvent::Waited(Err(error))) => RunState::Finished(Err(error)),
        (RunState::Killing, RunEvent::Killed) => RunState::Reaping,
        (RunState::Reaping, RunEvent::Reaped(Ok(status))) => RunState::JoiningStdout {
            status,
            timed_out: true,
        },
        (RunState::Reaping, RunEvent::Reaped(Err(error))) => RunState::Finished(Err(error)),
        (
            RunState::JoiningStdout { status, timed_out },
            RunEvent::Joined(Ok(stdout)),
        ) => RunState::JoiningStderr { status, timed_out, stdout },
        (RunState::JoiningStdout { .. }, RunEvent::Joined(Err(error))) => RunState::Finished(
            Err(error),
        ),
        (
            RunState::JoiningStderr { status, timed_out, stdout },
            RunEvent::Joined(Ok(_)),
        ) => RunState::Finished(
            Ok(
                Output {
                    status,
                    stdout: stdout.bytes,
                    stdout_truncated: stdout.truncated,
                    timed_out,
                },
            ),
        ),
        (RunState::JoiningStderr { .. }, RunEvent::Joined(Err(error))) => RunState::Finished(
            Err(error),
        ),
        (state, _) => state,
    }
}

} // verus!
