use dontspeak_voice::command::{ExitStatus, Output};
use dontspeak_voice::dontspeak::{
    checked_output, next_status, presenter_acquire, presenter_acquire_args, presenter_lease_args,
    status_args, validate_opaque_id, validate_presenter_id, ClientError, LeasePayload,
    LeaseResponse, PresenterCommand, PresenterLease,
};
use dontspeak_voice::model::{Activity, Dictation, StatusSnapshot};
use serde_json::Value;

fn payload(value: &Value) -> Option<LeasePayload> {
    Some(LeasePayload {
        lease_id: value.get("lease_id").and_then(Value::as_str)?.to_string(),
        ttl_ms: value.get("ttl_ms").and_then(Value::as_u64)?,
    })
}

fn parse_lease(json: &str) -> Option<LeaseResponse> {
    let value: Value = serde_json::from_str(json).ok()?;
    match payload(&value) {
        Some(direct) => Some(LeaseResponse::Direct(direct)),
        None => Some(LeaseResponse::Wrapped { result: payload(value.get("result")?)? }),
    }
}

#[test]
fn long_poll_arguments_contain_only_status_sequence() {
    assert_eq!(
        status_args(Some(42)),
        ["status", "--json", "--since", "42", "--timeout-ms", "1000"]
    );
}

#[test]
fn the_present_status_needs_no_sequence() {
    assert_eq!(status_args(None), ["status", "--json"]);
}

#[test]
fn lease_response_accepts_direct_and_wrapped_json() {
    for input in [
        r#"{"lease_id":"lease-1","ttl_ms":3500}"#,
        r#"{"result":{"lease_id":"lease-1","ttl_ms":3500}}"#,
    ] {
        let response = parse_lease(input).expect("lease");
        assert_eq!(
            response.into_lease(),
            PresenterLease { lease_id: "lease-1".to_string(), ttl_ms: 3_500 }
        );
    }
}

#[test]
fn presenter_arguments_match_the_cli_contract() {
    let acquire = presenter_acquire_args("herdr.voice", "session-1", 3_500).expect("acquire args");
    let ready = presenter_lease_args("ready", "lease-1", "session-1", None).expect("ready args");
    let renew =
        presenter_lease_args("renew", "lease-1", "session-1", Some(3_500)).expect("renew args");
    let release =
        presenter_lease_args("release", "lease-1", "session-1", None).expect("release args");
    assert_eq!(
        acquire,
        [
            "presenter",
            "acquire",
            "--id",
            "herdr.voice",
            "--session",
            "session-1",
            "--ttl-ms",
            "3500",
        ]
    );
    assert_eq!(
        ready,
        [
            "presenter",
            "ready",
            "--lease",
            "lease-1",
            "--session",
            "session-1",
        ]
    );
    assert_eq!(
        renew,
        [
            "presenter",
            "renew",
            "--lease",
            "lease-1",
            "--session",
            "session-1",
            "--ttl-ms",
            "3500",
        ]
    );
    assert_eq!(
        release,
        [
            "presenter",
            "release",
            "--lease",
            "lease-1",
            "--session",
            "session-1",
        ]
    );
}

#[test]
fn presenter_commands_write_their_arguments() {
    let lease_id = "lease-1".to_string();
    let session_id = "session-1".to_string();
    assert_eq!(
        PresenterCommand::Acquire {
            presenter_id: "herdr.voice".to_string(),
            session_id: session_id.clone(),
            ttl_ms: 3_500,
        }
        .args(),
        presenter_acquire_args("herdr.voice", "session-1", 3_500)
    );
    assert_eq!(
        PresenterCommand::Ready { lease_id: lease_id.clone(), session_id: session_id.clone() }
            .args(),
        presenter_lease_args("ready", "lease-1", "session-1", None)
    );
    assert_eq!(
        PresenterCommand::Renew {
            lease_id: lease_id.clone(),
            session_id: session_id.clone(),
            ttl_ms: 9,
        }
        .args(),
        presenter_lease_args("renew", "lease-1", "session-1", Some(9))
    );
    assert_eq!(
        PresenterCommand::Release { lease_id, session_id }.args(),
        presenter_lease_args("release", "lease-1", "session-1", None)
    );
}

#[test]
fn malformed_identifiers_never_reach_a_command_line() {
    let invalid = Err(ClientError::Invalid);
    assert_eq!(presenter_acquire_args("", "session-1", 1), invalid);
    assert_eq!(presenter_acquire_args("herdr voice", "session-1", 1), invalid);
    assert_eq!(presenter_acquire_args("herdr.voice", "a:b", 1), invalid);
    assert_eq!(presenter_lease_args("ready", "", "session-1", None), invalid);
    assert_eq!(presenter_lease_args("ready", "lease-1", "x\n", None), invalid);
    assert_eq!(
        PresenterCommand::Release { lease_id: "é".to_string(), session_id: "s".to_string() }
            .args(),
        invalid
    );
    assert_eq!(validate_presenter_id("herdr.voice"), Ok(()));
    assert_eq!(validate_presenter_id(&"p".repeat(121)), Err(ClientError::Invalid));
    assert_eq!(validate_opaque_id("lease-1"), Ok(()));
    assert_eq!(validate_opaque_id(""), Err(ClientError::Invalid));
}

#[test]
fn only_a_usable_lease_is_acquired() {
    let lease = |lease_id: &str, ttl_ms: u64| {
        Some(LeaseResponse::Direct(LeasePayload { lease_id: lease_id.to_string(), ttl_ms }))
    };
    assert_eq!(
        presenter_acquire(lease("lease-1", 1)),
        Ok(PresenterLease { lease_id: "lease-1".to_string(), ttl_ms: 1 })
    );
    assert_eq!(presenter_acquire(lease("lease-1", 0)), Err(ClientError::Invalid));
    assert_eq!(presenter_acquire(lease("", 1)), Err(ClientError::Invalid));
    assert_eq!(presenter_acquire(lease("a b", 1)), Err(ClientError::Invalid));
    assert_eq!(presenter_acquire(None), Err(ClientError::Invalid));
    assert_eq!(
        presenter_acquire(Some(LeaseResponse::Wrapped {
            result: LeasePayload { lease_id: "lease-2".to_string(), ttl_ms: 7 },
        })),
        Ok(PresenterLease { lease_id: "lease-2".to_string(), ttl_ms: 7 })
    );
}

#[test]
fn an_unreadable_status_is_invalid() {
    assert_eq!(next_status(None).err(), Some(ClientError::Invalid));
    let snapshot = StatusSnapshot {
        seq: 9,
        activity: Activity { muted: false },
        voice_sessions: Vec::new(),
        dictation: Dictation::default(),
    };
    assert_eq!(next_status(Some(snapshot)).expect("status").seq, 9);
}

fn output(code: Option<i32>, stdout_truncated: bool, timed_out: bool) -> Result<Output, String> {
    Ok(Output {
        status: ExitStatus { code },
        stdout: b"{}".to_vec(),
        stdout_truncated,
        timed_out,
    })
}

#[test]
fn outputs_are_checked_in_order() {
    assert_eq!(
        checked_output::<&str>(Err("no program")).err(),
        Some(ClientError::Unavailable)
    );
    assert_eq!(
        checked_output(output(Some(1), true, true)).err(),
        Some(ClientError::Timeout)
    );
    assert_eq!(
        checked_output(output(Some(1), true, false)).err(),
        Some(ClientError::Rejected(Some(1)))
    );
    assert_eq!(
        checked_output(output(None, false, false)).err(),
        Some(ClientError::Rejected(None))
    );
    assert_eq!(
        checked_output(output(Some(0), true, false)).err(),
        Some(ClientError::Oversized)
    );
    let kept = checked_output(output(Some(0), false, false)).expect("output");
    assert_eq!(kept.stdout, b"{}");
}

#[test]
fn errors_are_said_in_words() {
    for (error, words) in [
        (ClientError::Unavailable, "Don’t Speak is unavailable"),
        (ClientError::Timeout, "Don’t Speak command timed out"),
        (ClientError::Rejected(Some(2)), "Don’t Speak command exited with code 2"),
        (ClientError::Rejected(Some(-1)), "Don’t Speak command exited with code -1"),
        (
            ClientError::Rejected(Some(i32::MIN)),
            "Don’t Speak command exited with code -2147483648",
        ),
        (ClientError::Rejected(None), "Don’t Speak command was terminated"),
        (ClientError::Oversized, "Don’t Speak response exceeded the size limit"),
        (ClientError::Invalid, "Don’t Speak returned an invalid response"),
    ] {
        assert_eq!(error.message(), words);
    }
}
