use std::collections::BTreeMap;

use dontspeak_voice::bridge::HerdrCommand;
use dontspeak_voice::bridge_loop::{
    bridge_loop, start, BridgeAction, BridgeEvent, BridgeState, BridgeStop, LogLine,
};
use dontspeak_voice::dontspeak::ClientError;
use dontspeak_voice::model::{Activity, Dictation, StatusSnapshot, VoiceSession};

const SECOND: u128 = 1_000_000_000;

fn snapshot(seq: u64, panes: &[(&str, &str)], session: Option<&str>) -> StatusSnapshot {
    StatusSnapshot {
        seq,
        activity: Activity { muted: false },
        voice_sessions: panes
            .iter()
            .map(|(pane_id, voice)| VoiceSession {
                pane_id: Some(pane_id.to_string()),
                speaking: false,
                queued: 0,
                blocked: false,
                voice: Some(voice.to_string()),
            })
            .collect(),
        dictation: match session {
            Some(session) => Dictation {
                session_id: Some(session.to_string()),
                state: "recording".to_string(),
                ..Dictation::default()
            },
            None => Dictation::default(),
        },
    }
}

/// What the bridge runs in: it answers each action, and keeps the labels.
struct World {
    now: u128,
    current: bool,
    panes_listed: bool,
    enabled: Option<bool>,
    focus: bool,
    takes_labels: bool,
    opens: bool,
    labels: BTreeMap<String, String>,
    opened: Vec<String>,
    logged: Vec<String>,
    slept: Vec<u64>,
    asked: Vec<Option<u64>>,
}

fn world() -> World {
    World {
        now: 0,
        current: true,
        panes_listed: true,
        enabled: Some(true),
        focus: true,
        takes_labels: true,
        opens: true,
        labels: BTreeMap::new(),
        opened: Vec::new(),
        logged: Vec::new(),
        slept: Vec::new(),
        asked: Vec::new(),
    }
}

impl World {
    /// Runs the bridge up to its next question for the status, or to its end.
    fn settle(&mut self, mut state: BridgeState) -> BridgeState {
        loop {
            let event = match state.action() {
                BridgeAction::ReadClock => BridgeEvent::Clock(self.now),
                BridgeAction::CheckBinary => BridgeEvent::BinaryCurrent(self.current),
                BridgeAction::Herdr(HerdrCommand::PaneList) => {
                    BridgeEvent::Command(self.panes_listed)
                }
                BridgeAction::Herdr(HerdrCommand::PluginList) => BridgeEvent::Plugins(self.enabled),
                BridgeAction::Herdr(HerdrCommand::Report { pane_id, value }) => {
                    if self.takes_labels {
                        match value {
                            Some(value) => self.labels.insert(pane_id, value),
                            None => self.labels.remove(&pane_id),
                        };
                    }
                    BridgeEvent::Command(self.takes_labels)
                }
                BridgeAction::Herdr(HerdrCommand::OpenPopup { session_id }) => {
                    self.opened.push(session_id);
                    BridgeEvent::Command(self.opens)
                }
                BridgeAction::CheckForeground => BridgeEvent::Foreground(self.focus),
                BridgeAction::Log(line) => {
                    self.logged.push(line.message());
                    BridgeEvent::Done
                }
                BridgeAction::Sleep(ms) => {
                    self.slept.push(ms);
                    BridgeEvent::Done
                }
                BridgeAction::NextStatus(since) => {
                    self.asked.push(since);
                    return state;
                }
                BridgeAction::Exit(_) => return state,
            };
            state = bridge_loop(state, event);
        }
    }

    fn give(
        &mut self,
        state: BridgeState,
        status: Result<StatusSnapshot, ClientError>,
    ) -> BridgeState {
        let state = bridge_loop(state, BridgeEvent::Status(status));
        self.settle(state)
    }

    fn labels(&self) -> Vec<(&str, &str)> {
        self.labels.iter().map(|(pane, label)| (pane.as_str(), label.as_str())).collect()
    }
}

#[test]
fn labels_follow_the_status() {
    let mut world = world();
    let mut state = world.settle(start());
    state = world.give(state, Ok(snapshot(3, &[("a", "Ann"), ("b", "Bob")], None)));
    assert_eq!(world.labels(), [("a", "Ann"), ("b", "Bob")]);
    state = world.give(state, Ok(snapshot(4, &[("b", "Bea"), ("c", "Cid")], None)));
    assert_eq!(world.labels(), [("b", "Bea"), ("c", "Cid")]);
    world.give(state, Ok(snapshot(5, &[], None)));
    assert!(world.labels().is_empty());
    assert_eq!(world.asked, [None, Some(3), Some(4), Some(5)]);
    assert!(world.logged.is_empty());
}

#[test]
fn a_failed_status_clears_backs_off_and_asks_afresh() {
    let mut world = world();
    let mut state = world.settle(start());
    state = world.give(state, Ok(snapshot(3, &[("a", "Ann")], Some("session-1"))));
    state = world.give(state, Err(ClientError::Timeout));
    assert!(world.labels().is_empty());
    assert_eq!(world.slept, [2_000]);
    state = world.give(state, Err(ClientError::Invalid));
    assert_eq!(world.slept, [2_000, 2_000]);
    assert_eq!(
        world.logged,
        ["dontspeak-voice: Don’t Speak command timed out; retrying"]
    );
    world.give(state, Ok(snapshot(1, &[("a", "Ann")], Some("session-1"))));
    assert_eq!(world.labels(), [("a", "Ann")]);
    assert_eq!(world.asked, [None, Some(3), None, None, Some(1)]);
    assert_eq!(
        world.logged.last().map(String::as_str),
        Some("dontspeak-voice: Don’t Speak status reconnected")
    );
    assert_eq!(world.opened, ["session-1", "session-1"]);
}

#[test]
fn herdr_is_probed_at_intervals_and_given_up_after_three_failures() {
    let mut world = world();
    let mut state = world.settle(start());
    state = world.give(state, Ok(snapshot(1, &[("a", "Ann")], None)));
    world.panes_listed = false;
    world.now = 5 * SECOND - 1;
    state = world.give(state, Ok(snapshot(2, &[("a", "Ann")], None)));
    assert_eq!(state.probe_failures, 0);
    world.now = 5 * SECOND;
    state = world.give(state, Ok(snapshot(3, &[("a", "Ann")], None)));
    assert_eq!(state.probe_failures, 1);
    world.now = 10 * SECOND;
    world.panes_listed = true;
    world.enabled = None;
    state = world.give(state, Ok(snapshot(4, &[("a", "Ann")], None)));
    assert_eq!(state.probe_failures, 2);
    world.now = 15 * SECOND;
    state = world.give(state, Ok(snapshot(5, &[("a", "Ann")], None)));
    assert_eq!(state.action(), BridgeAction::Exit(BridgeStop::HerdrUnavailable));
    assert!(world.labels().is_empty());
}

#[test]
fn a_probe_that_succeeds_starts_the_count_anew() {
    let mut world = world();
    world.panes_listed = false;
    let mut state = world.settle(start());
    assert_eq!(state.probe_failures, 1);
    world.now = 5 * SECOND;
    state = world.give(state, Ok(snapshot(1, &[], None)));
    assert_eq!(state.probe_failures, 2);
    world.now = 10 * SECOND;
    world.panes_listed = true;
    state = world.give(state, Ok(snapshot(2, &[], None)));
    assert_eq!(state.probe_failures, 0);
    assert_eq!(state.action(), BridgeAction::NextStatus(Some(2)));
}

#[test]
fn a_disabled_plugin_or_a_new_program_ends_the_bridge_quietly() {
    let mut disabled = world();
    let mut state = disabled.settle(start());
    state = disabled.give(state, Ok(snapshot(1, &[("a", "Ann")], None)));
    disabled.enabled = Some(false);
    disabled.now = 5 * SECOND;
    state = disabled.give(state, Ok(snapshot(2, &[("a", "Ann")], None)));
    assert_eq!(state.action(), BridgeAction::Exit(BridgeStop::PluginUnavailable));
    assert!(disabled.labels().is_empty());

    let mut replaced = world();
    replaced.current = false;
    let state = replaced.settle(start());
    assert_eq!(state.action(), BridgeAction::Exit(BridgeStop::Replaced));
    assert!(replaced.asked.is_empty());
}

#[test]
fn labels_rejected_three_times_end_the_bridge() {
    let mut world = world();
    world.takes_labels = false;
    let mut state = world.settle(start());
    for seq in 1..=2 {
        state = world.give(state, Ok(snapshot(seq, &[("a", "Ann"), ("b", "Bob")], None)));
        assert_eq!(state.action(), BridgeAction::NextStatus(Some(seq)));
    }
    let mut forgiven = world.give(state, Ok(snapshot(3, &[("a", "Ann")], None)));
    assert_eq!(forgiven.action(), BridgeAction::Exit(BridgeStop::MetadataRejected));

    forgiven = start();
    forgiven = world.settle(forgiven);
    for seq in 1..=2 {
        forgiven = world.give(forgiven, Ok(snapshot(seq, &[("a", "Ann")], None)));
    }
    world.takes_labels = true;
    forgiven = world.give(forgiven, Ok(snapshot(3, &[("a", "Ann")], None)));
    world.takes_labels = false;
    forgiven = world.give(forgiven, Ok(snapshot(4, &[("a", "Ann")], None)));
    assert_eq!(forgiven.metadata_failures, 1);
    assert_eq!(forgiven.action(), BridgeAction::NextStatus(Some(4)));
}

#[test]
fn labels_that_were_lost_are_restored_by_the_next_snapshot() {
    let mut world = world();
    let mut state = world.settle(start());
    world.takes_labels = false;
    state = world.give(state, Ok(snapshot(1, &[("a", "Ann"), ("b", "Bob")], None)));
    assert!(world.labels().is_empty());
    assert_eq!(state.metadata_failures, 1);
    world.takes_labels = true;
    state = world.give(state, Ok(snapshot(2, &[("a", "Ann"), ("b", "Bob")], None)));
    assert_eq!(world.labels(), [("a", "Ann"), ("b", "Bob")]);
    assert_eq!(state.metadata_failures, 0);
}

#[test]
fn a_snapshot_with_several_lost_labels_counts_once() {
    let mut world = world();
    world.takes_labels = false;
    let state = world.settle(start());
    let state = world.give(state, Ok(snapshot(1, &[("a", "A"), ("b", "B"), ("c", "C")], None)));
    assert_eq!(state.metadata_failures, 1);
}

#[test]
fn the_popup_is_opened_once_and_again_after_the_lease() {
    let mut world = world();
    let mut state = world.settle(start());
    state = world.give(state, Ok(snapshot(1, &[], Some("session-1"))));
    assert_eq!(world.opened, ["session-1"]);
    world.now = 5 * SECOND - 1;
    state = world.give(state, Ok(snapshot(2, &[], Some("session-1"))));
    assert_eq!(world.opened, ["session-1"]);
    world.now = 5 * SECOND;
    state = world.give(state, Ok(snapshot(3, &[], Some("session-1"))));
    assert_eq!(world.opened, ["session-1", "session-1"]);
    world.give(state, Ok(snapshot(4, &[], Some("session-2"))));
    assert_eq!(world.opened, ["session-1", "session-1", "session-2"]);
}

#[test]
fn a_popup_that_did_not_open_is_tried_again_at_once() {
    let mut world = world();
    world.opens = false;
    let mut state = world.settle(start());
    state = world.give(state, Ok(snapshot(1, &[], Some("session-1"))));
    assert_eq!(state.opened_session, None);
    world.give(state, Ok(snapshot(2, &[], Some("session-1"))));
    assert_eq!(world.opened, ["session-1", "session-1"]);
}

#[test]
fn without_focus_or_session_no_popup_is_opened_and_the_last_is_forgotten() {
    let mut world = world();
    let mut state = world.settle(start());
    state = world.give(state, Ok(snapshot(1, &[], Some("session-1"))));
    assert_eq!(state.opened_session, Some("session-1".to_string()));
    world.focus = false;
    state = world.give(state, Ok(snapshot(2, &[], Some("session-1"))));
    assert_eq!(state.opened_session, None);
    assert_eq!(state.popup_opened_at, None);
    world.focus = true;
    state = world.give(state, Ok(snapshot(3, &[], Some("session-1"))));
    assert_eq!(world.opened, ["session-1", "session-1"]);
    state = world.give(state, Ok(snapshot(4, &[], None)));
    assert_eq!(state.opened_session, None);
    assert_eq!(world.opened.len(), 2);
}

#[test]
fn a_session_shown_elsewhere_is_left_alone() {
    let mut world = world();
    let mut state = world.settle(start());
    state = world.give(state, Ok(snapshot(1, &[], Some("session-1"))));
    world.now = 20 * SECOND;
    let mut elsewhere = snapshot(2, &[], Some("session-1"));
    elsewhere.dictation.external_ui_active = true;
    state = world.give(state, Ok(elsewhere));
    assert_eq!(world.opened, ["session-1"]);
    assert_eq!(state.opened_session, Some("session-1".to_string()));
}

#[test]
fn an_event_out_of_turn_changes_nothing() {
    let state = bridge_loop(start(), BridgeEvent::Command(true));
    assert_eq!(state.action(), BridgeAction::ReadClock);
    let state = bridge_loop(state, BridgeEvent::Done);
    assert_eq!(state.action(), BridgeAction::ReadClock);
}

#[test]
fn the_end_of_the_bridge_is_said_in_words() {
    assert_eq!(BridgeStop::Replaced.result(), Ok(()));
    assert_eq!(BridgeStop::PluginUnavailable.result(), Ok(()));
    assert_eq!(
        BridgeStop::HerdrUnavailable.result(),
        Err("Herdr server is no longer available".to_string())
    );
    assert_eq!(
        BridgeStop::MetadataRejected.result(),
        Err("Herdr rejected repeated metadata updates".to_string())
    );
    assert_eq!(
        LogLine::Unavailable(ClientError::Rejected(Some(4))).message(),
        "dontspeak-voice: Don’t Speak command exited with code 4; retrying"
    );
}
