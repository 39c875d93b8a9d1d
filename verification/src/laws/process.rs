//! Laws of the processes: of the commands that are run, of the lock that keeps the
//! bridge single, and of the request to open the popup.

use vstd::prelude::*;

use crate::bridge::{HerdrCommandView, OpenActionView, OpenEventView, OpenModel, OpenOutcome};
use crate::command::{
    absorbed, absorbed_all, law_capture_is_a_prefix, stream_of, Captured, CapturedView, ExitStatus,
    Output, RunAction, RunEvent, RunState,
};
use crate::dontspeak::ClientError;
use crate::instance::{lock_name, lock_step, named, Entrypoint, LockStep, LOCK_RETRY_COUNT};
use crate::model::SnapshotView;
use crate::text::{decimal, digit, hexadecimal};

verus! {

/// How far a command has got after all the events.
pub open spec fn command_run<E>(events: Seq<RunEvent<E>>) -> RunState<E>
    decreases events.len(),
{
    if events.len() == 0 {
        RunState::Spawning
    } else {
        command_run(events.drop_last()).after(events.last())
    }
}

/// Whether an action was asked for on the way, and something came of it.
pub open spec fn performed<E>(events: Seq<RunEvent<E>>, action: RunAction) -> bool
    decreases events.len(),
{
    if events.len() == 0 {
        false
    } else {
        let before = command_run(events.drop_last());
        performed(events.drop_last(), action) || (before.asks() == action && command_run(events)
            != before)
    }
}

/// What is known of a command from how far it has got.
spec fn on_course<E>(events: Seq<RunEvent<E>>) -> bool {
    let killed = performed(events, RunAction::Kill);
    match command_run(events) {
        RunState::Spawning | RunState::Waiting | RunState::Killing => !killed,
        RunState::Reaping => killed,
        RunState::JoiningStdout { timed_out, .. } => timed_out == killed,
        RunState::JoiningStderr { timed_out, .. } => timed_out == killed && performed(
            events,
            RunAction::JoinStdout,
        ),
        RunState::Finished(Ok(output)) => {
            &&& output.timed_out == killed
            &&& performed(events, RunAction::JoinStdout)
            &&& performed(events, RunAction::JoinStderr)
        },
        RunState::Finished(Err(_)) => true,
    }
}

proof fn lemma_on_course<E>(events: Seq<RunEvent<E>>)
    ensures
        on_course(events),
    decreases events.len(),
{
    if events.len() > 0 {
        lemma_on_course(events.drop_last());
    }
}

/// A command has timed out exactly if its process was told to end, and then it is no
/// success, however the process ended.
pub proof fn law_late_commands_are_killed<E>(events: Seq<RunEvent<E>>)
    ensures
        command_run(events) matches RunState::Finished(Ok(output)) ==> {
            &&& output.timed_out == performed(events, RunAction::Kill)
            &&& output.timed_out ==> !output.ok()
        },
{
    lemma_on_course(events);
}

/// A command has an output only once both of its pipes are drained.
pub proof fn law_pipes_are_drained<E>(events: Seq<RunEvent<E>>)
    ensures
        command_run(events) matches RunState::Finished(Ok(_)) ==> performed(
            events,
            RunAction::JoinStdout,
        ) && performed(events, RunAction::JoinStderr),
{
    lemma_on_course(events);
}

/// An answer that was not asked for changes nothing.
pub proof fn law_command_ignores_other_answers<E>(state: RunState<E>, event: RunEvent<E>)
    requires
        match (state.asks(), event) {
            (RunAction::Spawn, RunEvent::Spawned(_)) => false,
            (RunAction::WaitTimeout, RunEvent::Waited(_)) => false,
            (RunAction::Kill, RunEvent::Killed) => false,
            (RunAction::Wait, RunEvent::Reaped(_)) => false,
            (RunAction::JoinStdout, RunEvent::Joined(_)) => false,
            (RunAction::JoinStderr, RunEvent::Joined(_)) => false,
            _ => true,
        },
    ensures
        state.after(event) == state,
{
}

/// A command that ends in time gives its own exit status and what was kept of its output.
/// Of its diagnostics nothing is left.
pub proof fn law_command_in_time<E>(status: ExitStatus, stdout: Captured, stderr: Captured)
    ensures
        ({
            let started = RunState::<E>::Spawning.after(RunEvent::Spawned(Ok(())));
            let ended = started.after(RunEvent::Waited(Ok(Some(status))));
            let read = ended.after(RunEvent::Joined(Ok(stdout)));
            let over = read.after(RunEvent::Joined(Ok(stderr)));
            &&& RunState::<E>::Spawning.asks() == RunAction::Spawn
            &&& started.asks() == RunAction::WaitTimeout
            &&& ended.asks() == RunAction::JoinStdout
            &&& read.asks() == RunAction::JoinStderr
            &&& over.asks() == RunAction::Return
            &&& over matches RunState::Finished(Ok(output)) && output.status == status
                && output.stdout == stdout.bytes && output.stdout_truncated == stdout.truncated
                && !output.timed_out
        }),
{
}

/// A command that does not end in time is told to end and waited for. It gives the status
/// with which it ended and what was kept of its output, and counts as late.
pub proof fn law_command_too_late<E>(status: ExitStatus, stdout: Captured, stderr: Captured)
    ensures
        ({
            let started = RunState::<E>::Spawning.after(RunEvent::Spawned(Ok(())));
            let late = started.after(RunEvent::Waited(Ok(None)));
            let killed = late.after(RunEvent::Killed);
            let ended = killed.after(RunEvent::Reaped(Ok(status)));
            let read = ended.after(RunEvent::Joined(Ok(stdout)));
            let over = read.after(RunEvent::Joined(Ok(stderr)));
            &&& late.asks() == RunAction::Kill
            &&& killed.asks() == RunAction::Wait
            &&& ended.asks() == RunAction::JoinStdout
            &&& read.asks() == RunAction::JoinStderr
            &&& over.asks() == RunAction::Return
            &&& over matches RunState::Finished(Ok(output)) && output.status == status
                && output.stdout == stdout.bytes && output.stdout_truncated == stdout.truncated
                && output.timed_out
        }),
{
}

/// Whatever fails on the way ends the command with that error and nothing else.
pub proof fn law_command_hands_errors_on<E>(state: RunState<E>, event: RunEvent<E>, error: E)
    requires
        match (state.asks(), event) {
            (RunAction::Spawn, RunEvent::Spawned(Err(e))) => e == error,
            (RunAction::WaitTimeout, RunEvent::Waited(Err(e))) => e == error,
            (RunAction::Wait, RunEvent::Reaped(Err(e))) => e == error,
            (RunAction::JoinStdout, RunEvent::Joined(Err(e))) => e == error,
            (RunAction::JoinStderr, RunEvent::Joined(Err(e))) => e == error,
            _ => false,
        },
    ensures
        state.after(event) == RunState::<E>::Finished(Err(error)),
{
}

/// A command is a success exactly if it ended in time and with code zero. A process that
/// was ended by a signal has no code, and is none.
pub proof fn law_success_is_code_zero_in_time(output: Output)
    ensures
        output.ok() <==> !output.timed_out && output.status.code == Some(0i32),
        output.status.ok() <==> output.status.code == Some(0i32),
{
}

/// What is kept of a stream is all of it, if that is within the limit, and otherwise its
/// beginning up to the limit. Only then it counts as truncated.
pub proof fn law_capture_is_the_beginning(chunks: Seq<Seq<u8>>, limit: nat)
    ensures
        ({
            let kept = absorbed_all(chunks, limit);
            let stream = stream_of(chunks);
            &&& kept.truncated <==> stream.len() > limit
            &&& kept.bytes.is_prefix_of(stream)
            &&& kept.bytes.len() == if stream.len() > limit {
                limit
            } else {
                stream.len()
            }
        }),
{
    law_capture_is_a_prefix(chunks, limit);
}

/// Of a chunk as much is kept as fits under the limit, behind what was kept before. Anything
/// that does not fit counts as truncation, and what was truncated stays so.
pub proof fn law_chunk_is_kept_as_far_as_it_fits(kept: CapturedView, chunk: Seq<u8>, limit: nat)
    ensures
        ({
            let more = absorbed(kept, chunk, limit);
            let fits = if kept.bytes.len() >= limit {
                0
            } else if kept.bytes.len() + chunk.len() <= limit {
                chunk.len() as int
            } else {
                limit - kept.bytes.len()
            };
            &&& more.bytes == kept.bytes + chunk.take(fits)
            &&& more.truncated <==> kept.truncated || fits < chunk.len()
        }),
{
}

/// A stream is its chunks one after the other, and what is kept grows chunk by chunk.
pub proof fn law_chunks_follow_each_other(chunks: Seq<Seq<u8>>, chunk: Seq<u8>, limit: nat)
    ensures
        stream_of(seq![]) == Seq::<u8>::empty(),
        stream_of(chunks.push(chunk)) == stream_of(chunks) + chunk,
        absorbed_all(chunks.push(chunk), limit) == absorbed(
            absorbed_all(chunks, limit),
            chunk,
            limit,
        ),
{
    assert(chunks.push(chunk).drop_last() =~= chunks);
}

/// A lock that was free is held, at whatever try, and an error ends the tries.
pub proof fn law_lock_is_held<L, E>(attempt: usize, lock: L, error: E)
    ensures
        lock_step::<L, E>(attempt, Ok(Some(lock))) == LockStep::<L, E>::Hold(lock),
        lock_step::<L, E>(attempt, Err(error)) == LockStep::<L, E>::Fail(error),
        attempt >= 39 ==> lock_step::<L, E>(attempt, Ok(None)) == LockStep::<L, E>::GiveUp,
        attempt < 39 ==> lock_step::<L, E>(attempt, Ok(None)) == (LockStep::<L, E>::Retry {
            attempt: (attempt + 1) as usize,
        }),
{
}

/// An entry point is named by its own word and by no other.
pub proof fn law_entrypoints_are_named(name: Seq<char>)
    ensures
        named(name) == Some(Entrypoint::Startup) <==> name == "startup"@,
        named(name) == Some(Entrypoint::Bridge) <==> name == "bridge"@,
        named(name) == Some(Entrypoint::Open) <==> name == "open"@,
        named(name) == Some(Entrypoint::Dictation) <==> name == "dictation"@,
{
    reveal_strlit("startup");
    reveal_strlit("bridge");
    reveal_strlit("open");
    reveal_strlit("dictation");
    assert("startup"@.len() == 7 && "bridge"@.len() == 6);
    assert("open"@.len() == 4 && "dictation"@.len() == 9);
}

/// What follows so many tries that all found the lock held by another bridge.
pub open spec fn blocked<L, E>(tries: nat) -> LockStep<L, E>
    decreases tries,
{
    if tries == 0 {
        LockStep::Retry { attempt: 0 }
    } else {
        match blocked::<L, E>((tries - 1) as nat) {
            LockStep::Retry { attempt } => lock_step(attempt, Ok(None)),
            end => end,
        }
    }
}

/// A lock that another bridge holds is tried as often as it may be, and then given up.
pub proof fn law_lock_is_given_up<L, E>(tries: nat)
    ensures
        blocked::<L, E>(tries) == if tries < LOCK_RETRY_COUNT {
            LockStep::<L, E>::Retry { attempt: tries as usize }
        } else {
            LockStep::GiveUp
        },
    decreases tries,
{
    if tries > 0 {
        law_lock_is_given_up::<L, E>((tries - 1) as nat);
    }
}

/// A hexadecimal digit, in lower case.
pub open spec fn hex_digit(c: char) -> bool {
    '0' <= c <= '9' || 'a' <= c <= 'f'
}

proof fn lemma_digit(d: nat)
    requires
        d < 16,
    ensures
        hex_digit(digit(d)),
        digit(d) as nat == if d < 10 {
            48 + d
        } else {
            87 + d
        },
{
}

proof fn lemma_hexadecimal(n: nat, width: nat)
    ensures
        hexadecimal(n, width).len() == width,
        forall|i: int| 0 <= i < width ==> hex_digit(#[trigger] hexadecimal(n, width)[i]),
    decreases width,
{
    if width > 0 {
        lemma_hexadecimal(n / 16, (width - 1) as nat);
        lemma_digit(n % 16);
    }
}

/// The lock's name shows nothing of the socket's path: between its fixed ends it is made
/// of hexadecimal digits, always as many.
pub proof fn law_lock_name_is_plain(socket_hash: u64)
    ensures
        lock_name(socket_hash).len() == 28,
        lock_name(socket_hash).take(7) == "bridge-"@,
        lock_name(socket_hash).skip(23) == ".lock"@,
        forall|i: int| 7 <= i < 23 ==> hex_digit(#[trigger] lock_name(socket_hash)[i]),
{
    let name = lock_name(socket_hash);
    let hash = hexadecimal(socket_hash as nat, 16);
    reveal_strlit("bridge-");
    reveal_strlit(".lock");
    lemma_hexadecimal(socket_hash as nat, 16);
    assert(name.take(7) =~= "bridge-"@);
    assert(name.skip(23) =~= ".lock"@);
    assert forall|i: int| 7 <= i < 23 implies hex_digit(#[trigger] name[i]) by {
        assert(name[i] == hash[i - 7]);
    }
}

/// The numbers that have so many hexadecimal digits.
spec fn range(width: nat) -> nat
    decreases width,
{
    if width == 0 {
        1
    } else {
        16 * range((width - 1) as nat)
    }
}

proof fn lemma_hexadecimal_differs(a: nat, b: nat, width: nat)
    requires
        a < range(width),
        b < range(width),
        hexadecimal(a, width) == hexadecimal(b, width),
    ensures
        a == b,
    decreases width,
{
    if width > 0 {
        let fewer = (width - 1) as nat;
        let (x, y) = (hexadecimal(a, width), hexadecimal(b, width));
        assert(x.drop_last() =~= hexadecimal(a / 16, fewer));
        assert(y.drop_last() =~= hexadecimal(b / 16, fewer));
        lemma_hexadecimal_differs(a / 16, b / 16, fewer);
        lemma_digit(a % 16);
        lemma_digit(b % 16);
        assert(x.last() == y.last());
    }
}

/// Bridges share a lock only where the hashes of their sockets are the same.
pub proof fn law_locks_are_told_apart(a: u64, b: u64)
    ensures
        lock_name(a) == lock_name(b) ==> a == b,
{
    if lock_name(a) == lock_name(b) {
        let (x, y) = (hexadecimal(a as nat, 16), hexadecimal(b as nat, 16));
        reveal_strlit("bridge-");
        lemma_hexadecimal(a as nat, 16);
        lemma_hexadecimal(b as nat, 16);
        assert(lock_name(a).subrange(7, 23) =~= x);
        assert(lock_name(b).subrange(7, 23) =~= y);
        reveal_with_fuel(range, 17);
        lemma_hexadecimal_differs(a as nat, b as nat, 16);
    }
}

/// The number that a row of hexadecimal digits stands for.
pub open spec fn hex_number(digits: Seq<char>) -> int
    decreases digits.len(),
{
    if digits.len() == 0 {
        0
    } else {
        16 * hex_number(digits.drop_last()) + if digits.last() <= '9' {
            digits.last() as int - '0' as int
        } else {
            digits.last() as int - 'a' as int + 10
        }
    }
}

proof fn lemma_hexadecimal_reads_back(n: nat, width: nat)
    requires
        n < range(width),
    ensures
        hex_number(hexadecimal(n, width)) == n,
    decreases width,
{
    if width > 0 {
        let fewer = (width - 1) as nat;
        lemma_hexadecimal_reads_back(n / 16, fewer);
        lemma_digit(n % 16);
        assert(hexadecimal(n, width).drop_last() =~= hexadecimal(n / 16, fewer));
    }
}

/// The digits in the lock's name stand for the hash.
pub proof fn law_lock_name_reads_back(socket_hash: u64)
    ensures
        hex_number(lock_name(socket_hash).subrange(7, 23)) == socket_hash,
{
    reveal_strlit("bridge-");
    lemma_hexadecimal(socket_hash as nat, 16);
    assert(lock_name(socket_hash).subrange(7, 23) =~= hexadecimal(socket_hash as nat, 16));
    reveal_with_fuel(range, 17);
    lemma_hexadecimal_reads_back(socket_hash as nat, 16);
}

/// The number that a row of decimal digits stands for.
pub open spec fn number(digits: Seq<char>) -> int
    decreases digits.len(),
{
    if digits.len() == 0 {
        0
    } else {
        10 * number(digits.drop_last()) + (digits.last() as int - '0' as int)
    }
}

/// A number on a command line is made of digits, at least one and without leading zeros,
/// and reads back as the same number.
pub proof fn law_decimal_reads_back(n: nat)
    ensures
        number(decimal(n)) == n,
        decimal(n).len() > 0,
        n > 0 ==> decimal(n)[0] != '0',
        n < 10 ==> decimal(n).len() == 1,
        forall|i: int| 0 <= i < decimal(n).len() ==> '0' <= #[trigger] decimal(n)[i] <= '9',
    decreases n,
{
    if n < 10 {
        lemma_digit(n);
        assert(decimal(n).drop_last() =~= seq![]);
        assert(number(decimal(n).drop_last()) == 0);
    } else {
        law_decimal_reads_back(n / 10);
        lemma_digit(n % 10);
        assert(decimal(n)[0] == decimal(n / 10)[0]);
        assert(decimal(n).drop_last() =~= decimal(n / 10));
    }
}

/// How far a request to open the popup has got after all the events.
pub open spec fn open_run(events: Seq<OpenEventView>) -> OpenModel
    decreases events.len(),
{
    if events.len() == 0 {
        OpenModel::Asking
    } else {
        open_run(events.drop_last()).after(events.last())
    }
}

/// The first status among the events stands at `i`, and shows the session.
pub open spec fn first_shows(events: Seq<OpenEventView>, i: int, session_id: Seq<char>) -> bool {
    &&& 0 <= i < events.len()
    &&& forall|k: int| 0 <= k < i ==> !((#[trigger] events[k]) is Status)
    &&& events[i] matches OpenEventView::Status(Ok(snapshot))
    &&& snapshot.dictation.presentable_session() == Some(session_id)
}

/// The first answer on the focus after `i` stands at `j`, and says that Herdr has it.
pub open spec fn focus_after(events: Seq<OpenEventView>, i: int, j: int) -> bool {
    &&& i < j < events.len()
    &&& forall|k: int| i < k < j ==> !((#[trigger] events[k]) is Foreground)
    &&& events[j] == OpenEventView::Foreground(true)
}

/// The first status shows the session, and the first answer on the focus after it says
/// that Herdr has it.
pub open spec fn shown_in_focus(events: Seq<OpenEventView>, session_id: Seq<char>) -> bool {
    exists|i: int, j: int|
        #![trigger first_shows(events, i, session_id), focus_after(events, i, j)]
        first_shows(events, i, session_id) && focus_after(events, i, j)
}

/// On request the popup is opened only for the session that the status shows, if that
/// may be shown, and only where Herdr was found to have the focus after the status came.
pub proof fn law_requested_popup_needs_the_focus(events: Seq<OpenEventView>)
    ensures
        open_run(events).asks() matches OpenActionView::Herdr(command) ==> {
            &&& command matches HerdrCommandView::OpenPopup { session_id }
            &&& shown_in_focus(events, session_id)
        },
{
    lemma_open_run(events);
}

spec fn without_status(events: Seq<OpenEventView>) -> bool {
    forall|k: int| 0 <= k < events.len() ==> !((#[trigger] events[k]) is Status)
}

spec fn without_focus_after(events: Seq<OpenEventView>, i: int) -> bool {
    forall|k: int| i < k < events.len() ==> !((#[trigger] events[k]) is Foreground)
}

/// The first status shows the session, and there is no answer on the focus after it.
spec fn awaiting_focus(events: Seq<OpenEventView>, session_id: Seq<char>) -> bool {
    exists|i: int| #[trigger]
        first_shows(events, i, session_id) && without_focus_after(events, i)
}

proof fn lemma_open_run(events: Seq<OpenEventView>)
    ensures
        match open_run(events) {
            OpenModel::Asking => without_status(events),
            OpenModel::Checking { session_id } => awaiting_focus(events, session_id),
            OpenModel::Opening { session_id } => shown_in_focus(events, session_id),
            OpenModel::Finished { .. } => true,
        },
    decreases events.len(),
{
    if events.len() > 0 {
        let fewer = events.drop_last();
        let last = events.len() - 1;
        lemma_open_run(fewer);
        assert(forall|k: int| 0 <= k < last ==> #[trigger] events[k] == fewer[k]);
        assert(events[last] == events.last());
        match (open_run(fewer), open_run(events)) {
            (OpenModel::Asking, OpenModel::Checking { session_id }) => {
                assert(first_shows(events, last, session_id));
            },
            (OpenModel::Checking { session_id }, OpenModel::Checking { .. }) => {
                let i = choose|i: int| #[trigger]
                    first_shows(fewer, i, session_id) && without_focus_after(fewer, i);
                assert(first_shows(events, i, session_id));
            },
            (OpenModel::Checking { session_id }, OpenModel::Opening { .. }) => {
                let i = choose|i: int| #[trigger]
                    first_shows(fewer, i, session_id) && without_focus_after(fewer, i);
                assert(first_shows(events, i, session_id));
                assert(focus_after(events, i, last));
            },
            (OpenModel::Opening { session_id }, OpenModel::Opening { .. }) => {
                let (i, j) = choose|i: int, j: int|
                    #![trigger first_shows(fewer, i, session_id), focus_after(fewer, i, j)]
                    first_shows(fewer, i, session_id) && focus_after(fewer, i, j);
                assert(first_shows(events, i, session_id));
                assert(focus_after(events, i, j));
            },
            _ => {},
        }
    }
}

/// On request the popup is opened: where the first status shows a session that may be shown,
/// recorded or waiting to be confirmed, and the first answer on the focus after it says that
/// Herdr has it, Herdr is asked to open the popup for that session, and that is asked
/// until there is an answer.
pub proof fn law_request_opens_the_session(
    events: Seq<OpenEventView>,
    session_id: Seq<char>,
    i: int,
    j: int,
)
    requires
        first_shows(events, i, session_id),
        focus_after(events, i, j),
        forall|k: int| j < k < events.len() ==> !((#[trigger] events[k]) is Command),
    ensures
        open_run(events).asks() == OpenActionView::Herdr(HerdrCommandView::OpenPopup { session_id }),
{
    lemma_request_asks(events, i);
    lemma_request_checks(events, session_id, i, j);
    lemma_request_opens(events, session_id, i, j, events.len() as int);
    assert(events.take(events.len() as int) =~= events);
}

proof fn lemma_take(events: Seq<OpenEventView>, n: int)
    requires
        0 < n <= events.len(),
    ensures
        open_run(events.take(n)) == open_run(events.take(n - 1)).after(events[n - 1]),
{
    assert(events.take(n).drop_last() =~= events.take(n - 1));
}

proof fn lemma_request_asks(events: Seq<OpenEventView>, n: int)
    requires
        0 <= n <= events.len(),
        forall|k: int| 0 <= k < n ==> !((#[trigger] events[k]) is Status),
    ensures
        open_run(events.take(n)) == OpenModel::Asking,
    decreases n,
{
    if n > 0 {
        lemma_request_asks(events, n - 1);
        lemma_take(events, n);
        assert(!(events[n - 1] is Status));
    }
}

proof fn lemma_request_checks(events: Seq<OpenEventView>, session_id: Seq<char>, i: int, n: int)
    requires
        first_shows(events, i, session_id),
        i < n <= events.len(),
        forall|k: int| i < k < n ==> !((#[trigger] events[k]) is Foreground),
    ensures
        open_run(events.take(n)) == (OpenModel::Checking { session_id }),
    decreases n,
{
    lemma_take(events, n);
    if n == i + 1 {
        lemma_request_asks(events, i);
    } else {
        lemma_request_checks(events, session_id, i, n - 1);
        assert(!(events[n - 1] is Foreground));
    }
}

proof fn lemma_request_opens(
    events: Seq<OpenEventView>,
    session_id: Seq<char>,
    i: int,
    j: int,
    n: int,
)
    requires
        first_shows(events, i, session_id),
        focus_after(events, i, j),
        j < n <= events.len(),
        forall|k: int| j < k < n ==> !((#[trigger] events[k]) is Command),
    ensures
        open_run(events.take(n)) == (OpenModel::Opening { session_id }),
    decreases n,
{
    lemma_take(events, n);
    if n == j + 1 {
        lemma_request_checks(events, session_id, i, j);
    } else {
        lemma_request_opens(events, session_id, i, j, n - 1);
        assert(!(events[n - 1] is Command));
    }
}

/// A request asks for the status first, and for the focus exactly if the first status shows a
/// session. It ends where there is nothing to show, where Herdr has not the focus, and once
/// Herdr has answered, and it is an error where there is no status or no popup.
pub proof fn law_request_ends(
    snapshot: SnapshotView,
    error: ClientError,
    session_id: Seq<char>,
    outcome: OpenOutcome,
    event: OpenEventView,
)
    ensures
        OpenModel::Asking.asks() == OpenActionView::NextStatus,
        OpenModel::Asking.after(OpenEventView::Status(Ok(snapshot))).asks() == (
        if snapshot.dictation.presentable_session() is Some {
            OpenActionView::CheckForeground
        } else {
            OpenActionView::Exit(OpenOutcome::Done)
        }),
        OpenModel::Asking.after(OpenEventView::Status(Err(error))).asks() == OpenActionView::Exit(
            OpenOutcome::StatusUnreadable(error),
        ),
        (OpenModel::Checking { session_id }).after(OpenEventView::Foreground(false)).asks()
            == OpenActionView::Exit(OpenOutcome::Done),
        (OpenModel::Opening { session_id }).after(OpenEventView::Command(true)).asks()
            == OpenActionView::Exit(OpenOutcome::Done),
        (OpenModel::Opening { session_id }).after(OpenEventView::Command(false)).asks()
            == OpenActionView::Exit(OpenOutcome::PopupRejected),
        (OpenModel::Finished { outcome }).asks() == OpenActionView::Exit(outcome),
        (OpenModel::Finished { outcome }).after(event) == (OpenModel::Finished { outcome }),
{
}

/// An answer that was not asked for changes nothing.
pub proof fn law_request_ignores_other_answers(state: OpenModel, event: OpenEventView)
    requires
        match (state.asks(), event) {
            (OpenActionView::NextStatus, OpenEventView::Status(_)) => false,
            (OpenActionView::CheckForeground, OpenEventView::Foreground(_)) => false,
            (OpenActionView::Herdr(_), OpenEventView::Command(_)) => false,
            _ => true,
        },
    ensures
        state.after(event) == state,
{
}

} // verus!
