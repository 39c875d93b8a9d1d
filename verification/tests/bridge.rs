use dontspeak_voice::bridge::{
    command_succeeded, count_failures, open_current_dictation, open_dictation_popup, plugin_enabled,
    popup_open_candidate, presentable_session, probe_herdr, reconcile_metadata, report_metadata,
    HerdrCommand, HerdrProbe, OpenAction, OpenEvent, OpenOutcome, OpenState, PluginListResponse,
    PluginListResult, PluginSummary, POPUP_RETRY_INTERVAL_NS, TOKEN,
};
use dontspeak_voice::command::{ExitStatus, Output};
use dontspeak_voice::dontspeak::ClientError;
use dontspeak_voice::model::{Activity, Dictation, StatusSnapshot, VoiceSession};
use serde_json::Value;

const NOW: u128 = 7_000_000_000;

fn parse_dictation(json: &[u8]) -> Option<StatusSnapshot> {
    let value: Value = serde_json::from_slice(json).ok()?;
    let dictation = value.get("dictation")?;
    Some(StatusSnapshot {
        seq: value.get("seq").and_then(Value::as_u64)?,
        activity: Activity { muted: false },
        voice_sessions: Vec::new(),
        dictation: Dictation {
            session_id: dictation.get("session_id").and_then(Value::as_str).map(str::to_string),
            state: dictation.get("state").and_then(Value::as_str)?.to_string(),
            text: String::new(),
            external_ui_active: dictation
                .get("external_ui_active")
                .and_then(Value::as_bool)
                .unwrap_or(false),
        },
    })
}

fn parse_plugins(json: &[u8]) -> Option<PluginListResponse> {
    let value: Value = serde_json::from_slice(json).ok()?;
    let mut plugins = Vec::new();
    for row in value.get("result")?.get("plugins").and_then(Value::as_array)? {
        plugins.push(PluginSummary {
            plugin_id: row.get("plugin_id").and_then(Value::as_str)?.to_string(),
            enabled: row.get("enabled").and_then(Value::as_bool).unwrap_or(false),
        });
    }
    Some(PluginListResponse { result: PluginListResult { plugins } })
}

fn enabled(json: &[u8]) -> Option<bool> {
    plugin_enabled(parse_plugins(json).as_ref())
}

#[test]
fn metadata_command_uses_one_argv_token() {
    let value = "SPEAK Sarah Voice";
    let token = format!("{TOKEN}={value}");
    assert_eq!(token, "dontspeak_voice=SPEAK Sarah Voice");
    assert_eq!(
        report_metadata("w1:p2", Some(value)),
        [
            "pane",
            "report-metadata",
            "w1:p2",
            "--source",
            "plugin:dontspeak-voice",
            "--ttl-ms",
            "5000",
            "--token",
            "dontspeak_voice=SPEAK Sarah Voice",
        ]
    );
}

#[test]
fn a_label_is_cleared_by_its_token() {
    assert_eq!(
        report_metadata("w1:p2", None),
        [
            "pane",
            "report-metadata",
            "w1:p2",
            "--source",
            "plugin:dontspeak-voice",
            "--ttl-ms",
            "5000",
            "--clear-token",
            "dontspeak_voice",
        ]
    );
}

#[test]
fn the_popup_is_opened_for_its_session_without_focus() {
    assert_eq!(
        open_dictation_popup("session-1"),
        [
            "plugin",
            "pane",
            "open",
            "--plugin",
            "dontspeak.voice",
            "--entrypoint",
            "dictation",
            "--placement",
            "popup",
            "--env",
            "DONTSPEAK_DICTATION_SESSION=session-1",
            "--no-focus",
        ]
    );
}

#[test]
fn commands_write_their_arguments() {
    assert_eq!(HerdrCommand::PaneList.args(), ["pane", "list", "--json"]);
    assert_eq!(
        HerdrCommand::PluginList.args(),
        ["plugin", "list", "--plugin", "dontspeak.voice", "--json"]
    );
    let report =
        HerdrCommand::Report { pane_id: "w1".to_string(), value: Some("Sarah".to_string()) };
    assert_eq!(report.args(), report_metadata("w1", Some("Sarah")));
    assert_eq!(report.copied(), report);
    let open = HerdrCommand::OpenPopup { session_id: "s".to_string() };
    assert_eq!(open.args(), open_dictation_popup("s"));
    assert_eq!(open.copied(), open);
}

#[test]
fn plugin_probe_requires_enabled_matching_plugin() {
    assert_eq!(
        enabled(br#"{"result":{"plugins":[{"plugin_id":"dontspeak.voice","enabled":true}]}}"#),
        Some(true)
    );
    assert_eq!(
        enabled(br#"{"result":{"plugins":[{"plugin_id":"dontspeak.voice","enabled":false}]}}"#),
        Some(false)
    );
    assert_eq!(enabled(br#"{"result":{"plugins":[]}}"#), Some(false));
    assert_eq!(enabled(b"not-json"), None);
}

#[test]
fn another_enabled_plugin_does_not_count() {
    assert_eq!(
        enabled(
            br#"{"result":{"plugins":[{"plugin_id":"other","enabled":true},{"plugin_id":"dontspeak.voice"}]}}"#
        ),
        Some(false)
    );
    assert_eq!(
        enabled(
            br#"{"result":{"plugins":[{"plugin_id":"other"},{"plugin_id":"dontspeak.voice","enabled":true}]}}"#
        ),
        Some(true)
    );
}

#[test]
fn a_probe_needs_the_panes_and_the_plugin() {
    assert_eq!(probe_herdr(false, None), HerdrProbe::ServerUnavailable);
    assert_eq!(probe_herdr(false, Some(true)), HerdrProbe::ServerUnavailable);
    assert_eq!(probe_herdr(true, None), HerdrProbe::ServerUnavailable);
    assert_eq!(probe_herdr(true, Some(false)), HerdrProbe::PluginUnavailable);
    assert_eq!(probe_herdr(true, Some(true)), HerdrProbe::Ready);
}

#[test]
fn a_command_succeeds_in_time_and_with_code_zero() {
    let output = |code: Option<i32>, timed_out: bool| -> Result<Output, String> {
        Ok(Output {
            status: ExitStatus { code },
            stdout: Vec::new(),
            stdout_truncated: true,
            timed_out,
        })
    };
    assert!(command_succeeded(&output(Some(0), false)));
    assert!(!command_succeeded(&output(Some(0), true)));
    assert!(!command_succeeded(&output(Some(1), false)));
    assert!(!command_succeeded(&output(None, false)));
    assert!(!command_succeeded::<String>(&Err("no program".to_string())));
}

#[test]
fn refused_dictation_does_not_open_a_terminal_presenter() {
    let snapshot = parse_dictation(
        br#"{"seq":1,"dictation":{"session_id":"session-1","state":"refused"}}"#,
    )
    .expect("status");
    assert_eq!(presentable_session(&snapshot), None);
}

#[test]
fn popup_open_candidate_requires_foreground_and_retries_after_lease_expiry() {
    let snapshot = parse_dictation(
        br#"{"seq":1,"dictation":{"session_id":"session-1","state":"recording","external_ui_active":false}}"#,
    )
    .expect("status");
    assert_eq!(popup_open_candidate(&snapshot, None, None, NOW, false), None);
    assert_eq!(
        popup_open_candidate(&snapshot, None, None, NOW, true),
        Some("session-1")
    );
    let externally_presented = parse_dictation(
        br#"{"seq":2,"dictation":{"session_id":"session-1","state":"recording","external_ui_active":true}}"#,
    )
    .expect("status");
    assert_eq!(
        popup_open_candidate(&externally_presented, None, None, NOW, true),
        None
    );
    assert_eq!(
        popup_open_candidate(
            &snapshot,
            Some("session-1"),
            Some(NOW),
            NOW + POPUP_RETRY_INTERVAL_NS - 1_000_000,
            true,
        ),
        None
    );
    assert_eq!(
        popup_open_candidate(
            &snapshot,
            Some("session-1"),
            Some(NOW),
            NOW + POPUP_RETRY_INTERVAL_NS,
            true,
        ),
        Some("session-1")
    );
}

#[test]
fn another_session_is_opened_at_once() {
    let snapshot = parse_dictation(
        br#"{"seq":1,"dictation":{"session_id":"session-2","state":"awaiting_confirm"}}"#,
    )
    .expect("status");
    assert_eq!(
        popup_open_candidate(&snapshot, Some("session-1"), Some(NOW), NOW, true),
        Some("session-2")
    );
    assert_eq!(popup_open_candidate(&snapshot, Some("session-2"), None, NOW, true), None);
    assert_eq!(
        popup_open_candidate(&snapshot, Some("session-2"), Some(NOW + 1), NOW, true),
        None
    );
}

fn voice(pane_id: &str, name: &str) -> VoiceSession {
    VoiceSession {
        pane_id: Some(pane_id.to_string()),
        speaking: false,
        queued: 0,
        blocked: false,
        voice: Some(name.to_string()),
    }
}

fn labels(voice_sessions: Vec<VoiceSession>) -> StatusSnapshot {
    StatusSnapshot {
        seq: 1,
        activity: Activity { muted: false },
        voice_sessions,
        dictation: Dictation::default(),
    }
}

fn set(pane_id: &str, value: &str) -> HerdrCommand {
    HerdrCommand::Report { pane_id: pane_id.to_string(), value: Some(value.to_string()) }
}

fn clear(pane_id: &str) -> HerdrCommand {
    HerdrCommand::Report { pane_id: pane_id.to_string(), value: None }
}

#[test]
fn labels_are_set_and_those_gone_are_cleared() {
    let seen = vec!["a".to_string(), "b".to_string(), "d".to_string()];
    let snapshot = labels(vec![voice("c", "Cid"), voice("b", "Bob"), voice("-x", "Bad")]);
    let work = reconcile_metadata(&snapshot, &seen);
    assert_eq!(
        work.commands,
        vec![set("b", "Bob"), set("c", "Cid"), clear("a"), clear("d")]
    );
    assert_eq!(work.seen, ["b", "c"]);
}

#[test]
fn labels_that_stay_are_set_again() {
    let work = reconcile_metadata(&labels(vec![voice("a", "Ann")]), &vec!["a".to_string()]);
    assert_eq!(work.commands, vec![set("a", "Ann")]);
    let none = reconcile_metadata(&labels(vec![]), &vec![]);
    assert!(none.commands.is_empty() && none.seen.is_empty());
}

#[test]
fn commands_that_were_not_taken_are_counted() {
    assert_eq!(count_failures(&vec![]), 0);
    assert_eq!(count_failures(&vec![true, true]), 0);
    assert_eq!(count_failures(&vec![false, true, false]), 2);
    assert_eq!(count_failures(&vec![false; 5]), 5);
}

fn request(events: Vec<OpenEvent>) -> (Vec<OpenAction>, OpenOutcome) {
    let mut state = OpenState::Asking;
    let mut actions = vec![state.action()];
    for event in events {
        state = open_current_dictation(state, event);
        actions.push(state.action());
    }
    match actions.pop() {
        Some(OpenAction::Exit(outcome)) => (actions, outcome),
        other => panic!("{other:?}"),
    }
}

fn recording() -> StatusSnapshot {
    parse_dictation(br#"{"seq":1,"dictation":{"session_id":"session-1","state":"recording"}}"#)
        .expect("status")
}

#[test]
fn a_request_opens_the_current_session() {
    for (success, outcome) in [(true, OpenOutcome::Done), (false, OpenOutcome::PopupRejected)] {
        let (actions, came) = request(vec![
            OpenEvent::Status(Ok(recording())),
            OpenEvent::Foreground(true),
            OpenEvent::Command(success),
        ]);
        assert_eq!(
            actions,
            vec![
                OpenAction::NextStatus,
                OpenAction::CheckForeground,
                OpenAction::Herdr(HerdrCommand::OpenPopup { session_id: "session-1".to_string() }),
            ]
        );
        assert_eq!(came, outcome);
    }
}

#[test]
fn a_request_without_a_session_or_focus_opens_nothing() {
    let (actions, outcome) =
        request(vec![OpenEvent::Status(Ok(recording())), OpenEvent::Foreground(false)]);
    assert_eq!(actions, vec![OpenAction::NextStatus, OpenAction::CheckForeground]);
    assert_eq!(outcome, OpenOutcome::Done);
    let (actions, outcome) = request(vec![OpenEvent::Status(Ok(labels(vec![])))]);
    assert_eq!(actions, vec![OpenAction::NextStatus]);
    assert_eq!(outcome, OpenOutcome::Done);
}

#[test]
fn a_focus_found_before_the_status_does_not_count() {
    let (actions, outcome) = request(vec![
        OpenEvent::Foreground(true),
        OpenEvent::Status(Ok(recording())),
        OpenEvent::Foreground(false),
    ]);
    assert_eq!(
        actions,
        vec![OpenAction::NextStatus, OpenAction::NextStatus, OpenAction::CheckForeground]
    );
    assert_eq!(outcome, OpenOutcome::Done);
}

#[test]
fn a_request_says_what_went_wrong() {
    let (_, outcome) = request(vec![OpenEvent::Status(Err(ClientError::Timeout))]);
    assert_eq!(
        outcome.result(),
        Err("cannot read dictation status: Don’t Speak command timed out".to_string())
    );
    assert_eq!(
        OpenOutcome::PopupRejected.result(),
        Err("Herdr could not open the dictation popup".to_string())
    );
    assert_eq!(OpenOutcome::Done.result(), Ok(()));
}
