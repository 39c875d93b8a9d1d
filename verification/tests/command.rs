use dontspeak_voice::command::{
    join_reader, read_capped, run, Captured, ExitStatus, Output, Reader, ReaderError, RunAction,
    RunEvent, RunState, READER_PANICKED, STDERR_LIMIT, STDOUT_LIMIT,
};

fn capture(chunks: &[&[u8]], limit: usize) -> Captured {
    let mut captured = Captured::new();
    for chunk in chunks {
        assert!(read_capped(&mut captured, chunk, limit));
    }
    assert!(!read_capped(&mut captured, b"", limit));
    captured
}

#[test]
fn capped_reader_drains_and_marks_truncation() {
    let captured = capture(&[b"abcdef"], 3);
    assert_eq!(captured.bytes, b"abc");
    assert!(captured.truncated);
}

#[test]
fn chunks_do_not_matter_to_what_is_kept() {
    let chunkings: [&[&[u8]]; 4] = [
        &[b"abcdef"],
        &[b"abc", b"def"],
        &[b"a", b"bcde", b"f"],
        &[b"a", b"b", b"c", b"d", b"e", b"f"],
    ];
    for chunks in chunkings {
        for limit in 0..8 {
            let captured = capture(chunks, limit);
            assert_eq!(captured.bytes, b"abcdef"[..limit.min(6)]);
            assert_eq!(captured.truncated, limit < 6);
        }
    }
}

#[test]
fn limits_are_powers_of_two() {
    assert_eq!(STDOUT_LIMIT, 524_288);
    assert_eq!(STDERR_LIMIT, 32_768);
}

#[test]
fn readers_end_in_three_ways() {
    let absent = join_reader::<&str>(Reader::Absent).expect("absent");
    assert!(absent.bytes.is_empty() && !absent.truncated);
    assert!(matches!(
        join_reader::<&str>(Reader::Panicked),
        Err(ReaderError::Panicked)
    ));
    assert!(matches!(
        join_reader(Reader::Finished(Err("broken pipe"))),
        Err(ReaderError::Failed("broken pipe"))
    ));
    let kept = Captured { bytes: b"ok".to_vec(), truncated: true };
    let joined = join_reader::<&str>(Reader::Finished(Ok(kept))).expect("finished");
    assert_eq!(joined.bytes, b"ok");
    assert!(joined.truncated);
    assert_eq!(READER_PANICKED, "command output reader panicked");
}

fn captured(bytes: &[u8]) -> Captured {
    Captured { bytes: bytes.to_vec(), truncated: false }
}

/// Answers each action of a command in turn, and notes them.
fn drive(waited: Option<i32>, reaped: Option<i32>) -> (Vec<RunAction>, Output) {
    let mut actions = Vec::new();
    let mut state: RunState<String> = RunState::Spawning;
    loop {
        let action = state.action();
        let event = match action {
            RunAction::Spawn => RunEvent::Spawned(Ok(())),
            RunAction::WaitTimeout => {
                RunEvent::Waited(Ok(waited.map(|code| ExitStatus { code: Some(code) })))
            }
            RunAction::Kill => RunEvent::Killed,
            RunAction::Wait => RunEvent::Reaped(Ok(ExitStatus { code: reaped })),
            RunAction::JoinStdout => RunEvent::Joined(Ok(captured(b"out"))),
            RunAction::JoinStderr => RunEvent::Joined(Ok(captured(b"private"))),
            RunAction::Return => break,
        };
        actions.push(action);
        state = run(state, event);
    }
    let output = state.result().expect("over").expect("output");
    (actions, output)
}

#[test]
fn a_command_in_time_is_not_killed() {
    let (actions, output) = drive(Some(0), None);
    assert_eq!(
        actions,
        vec![
            RunAction::Spawn,
            RunAction::WaitTimeout,
            RunAction::JoinStdout,
            RunAction::JoinStderr,
        ]
    );
    assert!(output.success());
    assert!(!output.timed_out);
    assert_eq!(output.stdout, b"out");
    let (_, failed) = drive(Some(3), None);
    assert!(!failed.success());
}

#[test]
fn a_late_command_is_killed_and_is_no_success() {
    for reaped in [None, Some(0), Some(9)] {
        let (actions, output) = drive(None, reaped);
        assert_eq!(
            actions,
            vec![
                RunAction::Spawn,
                RunAction::WaitTimeout,
                RunAction::Kill,
                RunAction::Wait,
                RunAction::JoinStdout,
                RunAction::JoinStderr,
            ]
        );
        assert!(output.timed_out);
        assert!(!output.success());
    }
}

fn failure(state: RunState<&'static str>, event: RunEvent<&'static str>) -> &'static str {
    let state = run(state, event);
    assert_eq!(state.action(), RunAction::Return);
    match state.result() {
        Some(Err(error)) => error,
        _ => panic!("no error"),
    }
}

#[test]
fn every_failure_of_a_command_is_handed_on() {
    let status = ExitStatus { code: Some(0) };
    assert_eq!(failure(RunState::Spawning, RunEvent::Spawned(Err("spawn"))), "spawn");
    assert_eq!(failure(RunState::Waiting, RunEvent::Waited(Err("wait"))), "wait");
    assert_eq!(failure(RunState::Reaping, RunEvent::Reaped(Err("reap"))), "reap");
    assert_eq!(
        failure(
            RunState::JoiningStdout { status, timed_out: false },
            RunEvent::Joined(Err("stdout")),
        ),
        "stdout"
    );
    assert_eq!(
        failure(
            RunState::JoiningStderr { status, timed_out: false, stdout: captured(b"") },
            RunEvent::Joined(Err("stderr")),
        ),
        "stderr"
    );
}

#[test]
fn an_event_that_was_not_asked_for_changes_nothing() {
    let state: RunState<&str> = run(RunState::Spawning, RunEvent::Killed);
    assert_eq!(state.action(), RunAction::Spawn);
    assert!(state.result().is_none());
}
