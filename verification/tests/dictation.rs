use std::collections::VecDeque;

use dontspeak_voice::dictation::{
    draw, first_status, flush_error, render_error, render_loop, run, terminal_safe_text,
    LeaseGuard, RenderAction, RenderEvent, RenderState,
};
use dontspeak_voice::dontspeak::{ClientError, PresenterCommand, PresenterLease};
use dontspeak_voice::model::{Activity, Dictation, StatusSnapshot};

/// A popup whose surroundings answer from lists.
struct Popup {
    statuses: VecDeque<Result<StatusSnapshot, ClientError>>,
    focus: VecDeque<bool>,
    leased: Result<(), ClientError>,
    drawn: VecDeque<Result<(), String>>,
    refused: Option<&'static str>,
    events: Vec<String>,
    asked: Vec<Option<u64>>,
    slept: Vec<u64>,
    output: String,
}

fn popup(statuses: Vec<Result<StatusSnapshot, ClientError>>, focus: Vec<bool>) -> Popup {
    Popup {
        statuses: VecDeque::from(statuses),
        focus: VecDeque::from(focus),
        leased: Ok(()),
        drawn: VecDeque::new(),
        refused: None,
        events: Vec::new(),
        asked: Vec::new(),
        slept: Vec::new(),
        output: String::new(),
    }
}

impl Popup {
    fn took(&self, name: &str) -> Result<(), ClientError> {
        if self.refused == Some(name) {
            Err(ClientError::Timeout)
        } else {
            Ok(())
        }
    }

    fn render(&mut self, expected: Option<&str>) -> Result<(), String> {
        let mut state = run(expected.map(str::to_string));
        loop {
            let event = match state.action() {
                RenderAction::NextStatus(since) => {
                    self.asked.push(since);
                    RenderEvent::Status(self.statuses.pop_front().expect("fake status response"))
                }
                RenderAction::Sleep(ms) => {
                    self.slept.push(ms);
                    RenderEvent::Slept
                }
                RenderAction::CheckForeground => RenderEvent::Foreground(
                    self.focus.pop_front().expect("fake foreground response"),
                ),
                RenderAction::Present(PresenterCommand::Acquire {
                    presenter_id,
                    session_id,
                    ttl_ms,
                }) => {
                    self.events.push(format!("acquire:{presenter_id}:{session_id}:{ttl_ms}"));
                    RenderEvent::Leased(match self.leased {
                        Ok(()) => Ok(PresenterLease { lease_id: "lease-1".to_string(), ttl_ms }),
                        Err(error) => Err(error),
                    })
                }
                RenderAction::Present(PresenterCommand::Ready { lease_id, session_id }) => {
                    self.events.push(format!("ready:{lease_id}:{session_id}"));
                    RenderEvent::Presented(self.took("ready"))
                }
                RenderAction::Present(PresenterCommand::Renew { lease_id, session_id, ttl_ms }) => {
                    self.events.push(format!("renew:{lease_id}:{session_id}:{ttl_ms}"));
                    RenderEvent::Presented(self.took("renew"))
                }
                RenderAction::Present(PresenterCommand::Release { lease_id, session_id }) => {
                    self.events.push(format!("release:{lease_id}:{session_id}"));
                    RenderEvent::Presented(self.took("release"))
                }
                RenderAction::Draw(screen) => {
                    self.output.push_str(&screen);
                    RenderEvent::Drawn(self.drawn.pop_front().unwrap_or(Ok(())))
                }
                RenderAction::Exit(result) => return result,
            };
            state = render_loop(state, event);
        }
    }
}

fn status(seq: u64, session_id: Option<&str>, state: &str, text: &str) -> StatusSnapshot {
    StatusSnapshot {
        seq,
        activity: Activity { muted: false },
        voice_sessions: Vec::new(),
        dictation: Dictation {
            session_id: session_id.map(str::to_string),
            state: state.to_string(),
            text: text.to_string(),
            external_ui_active: false,
        },
    }
}

#[test]
fn renderer_obeys_presenter_lease_lifecycle() {
    let mut popup = popup(
        vec![
            Ok(status(1, Some("session-1"), "recording", "hello")),
            Ok(status(2, Some("session-1"), "recording", "hello")),
            Ok(status(3, Some("session-1"), "awaiting_confirm", "hello world")),
            Ok(status(4, Some("session-1"), "hidden", "")),
        ],
        vec![true, true, true, true],
    );
    popup.render(Some("session-1")).expect("render");
    assert_eq!(
        popup.output,
        "\u{1b}[2J\u{1b}[Hhello\u{1b}[2J\u{1b}[Hhello world"
    );
    assert_eq!(
        popup.events,
        [
            "acquire:herdr.voice:session-1:3500",
            "ready:lease-1:session-1",
            "renew:lease-1:session-1:3500",
            "renew:lease-1:session-1:3500",
            "release:lease-1:session-1",
        ]
    );
    assert_eq!(popup.asked, [None, Some(1), Some(2), Some(3)]);
}

#[test]
fn expected_session_mismatch_fails_closed_without_acquire() {
    let mut popup = popup(
        vec![Ok(status(1, Some("new-session"), "recording", "private text"))],
        vec![],
    );
    popup.render(Some("old-session")).expect("render");
    assert!(popup.output.is_empty());
    assert!(popup.events.is_empty());
}

#[test]
fn status_failure_releases_presenter_instead_of_showing_stale_text() {
    let mut popup = popup(
        vec![
            Ok(status(1, Some("session-1"), "recording", "hello")),
            Err(ClientError::Timeout),
        ],
        vec![true, true],
    );
    popup.render(Some("session-1")).expect("render");
    assert_eq!(
        popup.events,
        [
            "acquire:herdr.voice:session-1:3500",
            "ready:lease-1:session-1",
            "release:lease-1:session-1",
        ]
    );
}

#[test]
fn background_start_does_not_acquire_or_render() {
    let mut popup = popup(
        vec![Ok(status(1, Some("session-1"), "recording", "private text"))],
        vec![false],
    );
    popup.render(Some("session-1")).expect("render");
    assert!(popup.events.is_empty());
    assert!(popup.output.is_empty());
}

#[test]
fn focus_loss_after_ready_releases_without_renewing() {
    let mut popup = popup(
        vec![
            Ok(status(1, Some("session-1"), "recording", "hello")),
            Ok(status(2, Some("session-1"), "recording", "hello world")),
        ],
        vec![true, true, false],
    );
    popup.render(Some("session-1")).expect("render");
    assert_eq!(
        popup.events,
        [
            "acquire:herdr.voice:session-1:3500",
            "ready:lease-1:session-1",
            "release:lease-1:session-1",
        ]
    );
    assert_eq!(popup.output, "\u{1b}[2J\u{1b}[Hhello");
}

#[test]
fn renderer_strips_terminal_control_sequences_from_transcript() {
    assert_eq!(
        draw("hello\u{1b}[31m\nworld\u{8}"),
        "\u{1b}[2J\u{1b}[Hhello [31m\nworld "
    );
}

#[test]
fn safe_text_keeps_line_ends_and_tabs() {
    assert_eq!(terminal_safe_text("a\tb\nc\rd\u{9b}e\u{7f}é"), "a\tb\nc d e é");
    let once = terminal_safe_text("\u{0}x\u{1b}");
    assert_eq!(terminal_safe_text(&once), once);
}

#[test]
fn a_popup_without_a_session_closes() {
    let mut popup = popup(vec![], vec![]);
    assert_eq!(popup.render(None), Ok(()));
    assert!(popup.asked.is_empty());
}

#[test]
fn the_first_status_is_asked_for_three_times() {
    let mut popup = popup(
        vec![
            Err(ClientError::Unavailable),
            Err(ClientError::Invalid),
            Err(ClientError::Oversized),
        ],
        vec![],
    );
    assert_eq!(popup.render(Some("session-1")), Ok(()));
    assert_eq!(popup.asked, [None, None, None]);
    assert_eq!(popup.slept, [250, 250]);
    assert!(popup.events.is_empty());
}

#[test]
fn a_late_first_status_is_taken() {
    let mut popup = popup(
        vec![
            Err(ClientError::Timeout),
            Ok(status(5, Some("session-1"), "recording", "hi")),
            Ok(status(6, Some("session-2"), "recording", "other")),
        ],
        vec![true, true],
    );
    assert_eq!(popup.render(Some("session-1")), Ok(()));
    assert_eq!(popup.asked, [None, None, Some(5)]);
    assert_eq!(popup.output, "\u{1b}[2J\u{1b}[Hhi");
    assert_eq!(popup.events.last().map(String::as_str), Some("release:lease-1:session-1"));
}

#[test]
fn each_change_of_the_text_is_drawn_once() {
    let texts = ["one", "two", "two", "one", "three"];
    let mut statuses = Vec::new();
    for (i, text) in texts.iter().enumerate() {
        statuses.push(Ok(status(i as u64 + 7, Some("session-1"), "recording", text)));
    }
    let mut popup = popup(statuses, vec![true, true, true, true, true, false]);
    assert_eq!(popup.render(Some("session-1")), Ok(()));
    assert_eq!(popup.output, format!("{}{}{}", draw("one"), draw("two"), draw("one")));
    assert_eq!(popup.asked, [None, Some(7), Some(8), Some(9), Some(10)]);
}

#[test]
fn a_hidden_or_malformed_session_is_not_shown() {
    for (session_id, state) in [
        (Some("session-1"), "hidden"),
        (Some("session-1"), "refused"),
        (None, "recording"),
        (Some("a b"), "recording"),
    ] {
        let mut popup = popup(vec![Ok(status(1, session_id, state, "text"))], vec![]);
        assert_eq!(popup.render(Some(session_id.unwrap_or("session-1"))), Ok(()));
        assert!(popup.events.is_empty());
        assert!(popup.output.is_empty());
    }
}

#[test]
fn without_a_lease_nothing_is_drawn() {
    let mut popup = popup(
        vec![Ok(status(1, Some("session-1"), "recording", "text"))],
        vec![true],
    );
    popup.leased = Err(ClientError::Rejected(Some(1)));
    assert_eq!(popup.render(Some("session-1")), Ok(()));
    assert_eq!(popup.events, ["acquire:herdr.voice:session-1:3500"]);
    assert!(popup.output.is_empty());
}

#[test]
fn every_trouble_under_a_lease_releases_it_once() {
    let statuses = || {
        vec![
            Ok(status(1, Some("session-1"), "recording", "one")),
            Ok(status(2, Some("session-1"), "recording", "two")),
        ]
    };
    let releases = |popup: &Popup| {
        popup.events.iter().filter(|event| event.starts_with("release:")).count()
    };

    let mut late = popup(statuses(), vec![true, false]);
    assert_eq!(late.render(Some("session-1")), Ok(()));
    assert_eq!(releases(&late), 1);
    assert!(!late.events.iter().any(|event| event.starts_with("ready:")));

    for refused in ["ready", "renew"] {
        let mut popup = popup(statuses(), vec![true, true, true]);
        popup.refused = Some(refused);
        assert_eq!(popup.render(Some("session-1")), Ok(()));
        assert_eq!(releases(&popup), 1);
    }

    let mut first = popup(statuses(), vec![true, true, true]);
    first.drawn = VecDeque::from([Err(render_error("closed"))]);
    assert_eq!(
        first.render(Some("session-1")),
        Err("could not render dictation: closed".to_string())
    );
    assert_eq!(releases(&first), 1);

    let mut second = popup(statuses(), vec![true, true, true]);
    second.drawn = VecDeque::from([Ok(()), Err(flush_error("closed"))]);
    assert_eq!(
        second.render(Some("session-1")),
        Err("could not flush dictation: closed".to_string())
    );
    assert_eq!(releases(&second), 1);
    assert!(!second.events.iter().any(|event| event.starts_with("renew:")));
}

#[test]
fn a_failed_release_ends_the_popup_all_the_same() {
    let mut popup = popup(
        vec![
            Ok(status(1, Some("session-1"), "recording", "one")),
            Ok(status(2, None, "recording", "one")),
        ],
        vec![true, true],
    );
    popup.refused = Some("release");
    assert_eq!(popup.render(Some("session-1")), Ok(()));
}

#[test]
fn an_answer_to_another_question_is_ignored() {
    let state = render_loop(run(Some("session-1".to_string())), RenderEvent::Foreground(true));
    assert_eq!(state.action(), RenderAction::NextStatus(None));
}

#[test]
fn the_first_status_decides_what_follows() {
    let expected = "session-1".to_string();
    let shown = status(3, Some("session-1"), "awaiting_confirm", "text");
    assert!(matches!(
        first_status(expected.clone(), 0, Ok(shown)),
        RenderState::Checking { .. }
    ));
    assert!(matches!(
        first_status(expected.clone(), 1, Err(ClientError::Timeout)),
        RenderState::Pausing { attempt: 1, .. }
    ));
    assert!(matches!(
        first_status(expected, 2, Err(ClientError::Timeout)),
        RenderState::Finished { result: Ok(()) }
    ));
}

#[test]
fn a_guard_speaks_of_its_lease() {
    let guard = LeaseGuard::new("lease-1".to_string(), "session-1".to_string());
    assert_eq!(guard.lease_id(), "lease-1");
    assert_eq!(
        guard.renew(),
        PresenterCommand::Renew {
            lease_id: "lease-1".to_string(),
            session_id: "session-1".to_string(),
            ttl_ms: 3_500,
        }
    );
}
