use dontspeak_voice::command::{ExitStatus, Output};
use dontspeak_voice::herdr::{
    snapshot_args, snapshot_foreground_eligible, usable_stdout, Snapshot, SnapshotResponse,
    SnapshotResult,
};
use serde_json::Value;

fn parse_snapshot(json: &[u8]) -> Option<SnapshotResponse> {
    let value: Value = serde_json::from_slice(json).ok()?;
    let result = value.get("result")?;
    Some(SnapshotResponse {
        result: SnapshotResult {
            response_type: result.get("type").and_then(Value::as_str)?.to_string(),
            snapshot: Snapshot {
                outer_terminal_focus: result
                    .get("snapshot")?
                    .get("outer_terminal_focus")
                    .and_then(Value::as_bool),
            },
        },
    })
}

fn eligible(json: &[u8]) -> bool {
    snapshot_foreground_eligible(parse_snapshot(json).as_ref())
}

#[test]
fn snapshot_requires_explicit_outer_terminal_focus() {
    assert!(eligible(
        br#"{"result":{"type":"session_snapshot","snapshot":{"outer_terminal_focus":true}}}"#
    ));
    assert!(!eligible(
        br#"{"result":{"type":"session_snapshot","snapshot":{"outer_terminal_focus":false}}}"#
    ));
    assert!(!eligible(br#"{"result":{"type":"session_snapshot","snapshot":{}}}"#));
    assert!(!eligible(
        br#"{"result":{"type":"other","snapshot":{"outer_terminal_focus":true}}}"#
    ));
    assert!(!eligible(b"not-json"));
}

#[test]
fn snapshot_is_asked_for_through_the_api() {
    assert_eq!(snapshot_args(), ["api", "snapshot"]);
}

fn output(code: Option<i32>, stdout_truncated: bool, timed_out: bool) -> Output {
    Output {
        status: ExitStatus { code },
        stdout: b"{}".to_vec(),
        stdout_truncated,
        timed_out,
    }
}

#[test]
fn only_a_whole_answer_in_time_is_used() {
    assert_eq!(
        usable_stdout::<()>(Ok(output(Some(0), false, false))),
        Some(b"{}".to_vec())
    );
    assert_eq!(usable_stdout::<()>(Ok(output(Some(1), false, false))), None);
    assert_eq!(usable_stdout::<()>(Ok(output(None, false, false))), None);
    assert_eq!(usable_stdout::<()>(Ok(output(Some(0), true, false))), None);
    assert_eq!(usable_stdout::<()>(Ok(output(Some(0), false, true))), None);
    assert_eq!(usable_stdout(Err("no such program")), None);
}
