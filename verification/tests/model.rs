use std::collections::BTreeMap;

use dontspeak_voice::model::{
    hidden_state, metadata, sanitized_voice, token_for, valid_opaque_id, valid_pane_id, Activity,
    Dictation, StatusSnapshot, VoiceSession,
};
use dontspeak_voice::ordered::{side, Rows, Side};
use serde_json::Value;

fn text(value: &Value, key: &str) -> Option<String> {
    value.get(key).and_then(Value::as_str).map(str::to_string)
}

fn flag(value: &Value, key: &str) -> bool {
    value.get(key).and_then(Value::as_bool).unwrap_or(false)
}

fn parse_status(json: &str) -> Option<StatusSnapshot> {
    let value: Value = serde_json::from_str(json).ok()?;
    let mut voice_sessions = Vec::new();
    if let Some(rows) = value.get("voice_sessions").and_then(Value::as_array) {
        for row in rows {
            voice_sessions.push(VoiceSession {
                pane_id: text(row, "pane_id"),
                speaking: flag(row, "speaking"),
                queued: row.get("queued").and_then(Value::as_u64).unwrap_or(0),
                blocked: flag(row, "blocked"),
                voice: text(row, "voice"),
            });
        }
    }
    let dictation = match value.get("dictation") {
        None => Dictation::default(),
        Some(dictation) => Dictation {
            session_id: text(dictation, "session_id"),
            state: text(dictation, "state").unwrap_or_else(hidden_state),
            text: text(dictation, "text").unwrap_or_default(),
            external_ui_active: flag(dictation, "external_ui_active"),
        },
    };
    Some(StatusSnapshot {
        seq: value.get("seq").and_then(Value::as_u64)?,
        activity: Activity {
            muted: value.get("activity").is_some_and(|activity| flag(activity, "muted")),
        },
        voice_sessions,
        dictation,
    })
}

fn session() -> VoiceSession {
    VoiceSession {
        pane_id: Some("w1:p2".to_string()),
        speaking: false,
        queued: 0,
        blocked: false,
        voice: Some("Sarah".to_string()),
    }
}

fn of_pane(pane_id: Option<&str>, voice: &str) -> VoiceSession {
    VoiceSession {
        pane_id: pane_id.map(str::to_string),
        voice: Some(voice.to_string()),
        ..session()
    }
}

fn snapshot(muted: bool, voice_sessions: Vec<VoiceSession>) -> StatusSnapshot {
    StatusSnapshot {
        seq: 1,
        activity: Activity { muted },
        voice_sessions,
        dictation: Dictation::default(),
    }
}

#[test]
fn token_priority_matches_existing_plugin() {
    let mut row = session();
    assert_eq!(token_for(&row, false), "Sarah");
    row.queued = 2;
    assert_eq!(token_for(&row, false), "Q2 Sarah");
    row.blocked = true;
    assert_eq!(token_for(&row, false), "WAIT 2 Sarah");
    row.speaking = true;
    assert_eq!(token_for(&row, false), "SPEAK Sarah");
    assert_eq!(token_for(&row, true), "MUTE Sarah");
}

#[test]
fn metadata_rejects_invalid_pane_ids_and_sanitizes_labels() {
    let snapshot = parse_status(
        r#"{
            "seq": 4,
            "activity": {"muted": false},
            "voice_sessions": [
                {"pane_id":"--bad","voice":"secret\nvoice"},
                {"pane_id":"w1:p2","voice":"Sarah\tVoice","queued":1}
            ],
            "dictation": {"state":"hidden","text":""}
        }"#,
    )
    .expect("status");
    let rows = metadata(&snapshot);
    assert_eq!(rows.len(), 1);
    assert_eq!(rows.get("w1:p2"), Some("Q1 Sarah Voice"));
}

#[test]
fn dictation_defaults_hidden_for_older_snapshots() {
    let snapshot = parse_status(r#"{"seq":1}"#).expect("status");
    assert!(!snapshot.dictation.presentable());
    assert_eq!(snapshot.dictation.valid_session_id(), None);
}

#[test]
fn refused_dictation_remains_native() {
    let snapshot =
        parse_status(r#"{"seq":1,"dictation":{"session_id":"session-1","state":"refused"}}"#)
            .expect("status");
    assert!(!snapshot.dictation.presentable());
}

#[test]
fn presenter_session_id_uses_the_cli_safe_opaque_grammar() {
    let snapshot = parse_status(
        r#"{"seq":1,"dictation":{"session_id":"feedface-0000000000000007","state":"recording"}}"#,
    )
    .expect("status");
    assert_eq!(
        snapshot.dictation.valid_session_id(),
        Some("feedface-0000000000000007")
    );
}

#[test]
fn default_dictation_is_hidden_and_empty() {
    let dictation = Dictation::default();
    assert_eq!(dictation.session_id, None);
    assert_eq!(dictation.state, "hidden");
    assert_eq!(dictation.text, "");
    assert!(!dictation.external_ui_active);
    assert_eq!(hidden_state(), "hidden");
}

#[test]
fn only_recording_and_confirmation_are_presentable() {
    for (state, expected) in [
        ("recording", true),
        ("awaiting_confirm", true),
        ("hidden", false),
        ("refused", false),
        ("", false),
        ("Recording", false),
        ("recording ", false),
    ] {
        let dictation = Dictation { state: state.to_string(), ..Dictation::default() };
        assert_eq!(dictation.presentable(), expected, "{state}");
    }
}

#[test]
fn malformed_session_ids_are_hidden() {
    let dictation =
        Dictation { session_id: Some("--lease x".to_string()), ..Dictation::default() };
    assert_eq!(dictation.valid_session_id(), None);
}

#[test]
fn opaque_ids_have_a_grammar_and_a_limit() {
    for (value, expected) in [
        ("", false),
        ("a", true),
        ("-", true),
        ("A-z_0.9", true),
        ("a:b", false),
        ("a b", false),
        ("é", false),
        ("a\n", false),
    ] {
        assert_eq!(valid_opaque_id(value), expected, "{value}");
    }
    assert!(valid_opaque_id(&"x".repeat(120)));
    assert!(!valid_opaque_id(&"x".repeat(121)));
}

#[test]
fn pane_ids_begin_with_a_letter_or_digit() {
    for (value, expected) in [
        ("", false),
        ("w1:p2", true),
        ("0", true),
        ("-w", false),
        (":w", false),
        ("_w", false),
        (".w", false),
        ("w-_:.", true),
        ("w p", false),
        ("wé", false),
    ] {
        assert_eq!(valid_pane_id(value), expected, "{value}");
    }
    assert!(valid_pane_id(&"x".repeat(120)));
    assert!(!valid_pane_id(&"x".repeat(121)));
    assert!(valid_pane_id(&format!("x{}", ":".repeat(119))));
    assert!(!valid_pane_id(&format!("x{}", "é".repeat(60))));
}

#[test]
fn voices_are_squeezed_trimmed_and_cut() {
    assert_eq!(sanitized_voice(None), "voice");
    assert_eq!(sanitized_voice(Some("")), "voice");
    assert_eq!(sanitized_voice(Some(" \t\u{1b} \u{3000}")), "voice");
    assert_eq!(sanitized_voice(Some("  a \u{a0}\u{7} b  ")), "a b");
    assert_eq!(sanitized_voice(Some("Ünï\u{2028}voice")), "Ünï voice");
    assert_eq!(sanitized_voice(Some(&"é".repeat(60))), "é".repeat(48));
    let spaced = format!("{}{}", " ".repeat(47), "abc");
    assert_eq!(sanitized_voice(Some(&spaced)), "a");
    let late = format!("{}{}", " ".repeat(48), "abc");
    assert_eq!(sanitized_voice(Some(&late)), "voice");
}

#[test]
fn sanitizing_twice_changes_nothing() {
    for voice in ["Sarah", " a\t b ", "", "\u{1b}[31mred", "x y  z\n"] {
        let once = sanitized_voice(Some(voice));
        assert_eq!(sanitized_voice(Some(&once)), once);
    }
}

#[test]
fn counts_are_written_in_full() {
    let mut row = session();
    row.queued = u64::MAX;
    assert_eq!(token_for(&row, false), "Q18446744073709551615 Sarah");
    row.queued = 0;
    row.blocked = true;
    assert_eq!(token_for(&row, false), "WAIT 0 Sarah");
}

#[test]
fn metadata_is_sorted_and_keeps_the_last_session_of_a_pane() {
    let rows = metadata(&snapshot(
        true,
        vec![
            of_pane(Some("w2"), "Ann"),
            of_pane(None, "Nobody"),
            of_pane(Some("w10"), "Bob"),
            of_pane(Some("w2"), "Cid"),
        ],
    ));
    assert_eq!(
        rows.rows,
        vec![
            ("w10".to_string(), "MUTE Bob".to_string()),
            ("w2".to_string(), "MUTE Cid".to_string()),
        ]
    );
    assert_eq!(rows.get("w3"), None);
    assert_eq!(metadata(&snapshot(false, Vec::new())).len(), 0);
}

#[test]
fn rows_keep_the_order_of_a_sorted_map() {
    let mut rows = Rows::new();
    let mut map = BTreeMap::new();
    let keys = ["b", "", "a", "ab", "B", "é", "a:", "a-", "z", "ab", "\u{10000}", "\u{ffff}", "b"];
    for (i, key) in keys.iter().enumerate() {
        rows.insert(key.to_string(), i.to_string());
        map.insert(key.to_string(), i.to_string());
        assert_eq!(rows.len(), map.len());
    }
    assert_eq!(rows.rows, map.clone().into_iter().collect::<Vec<_>>());
    for key in keys {
        assert_eq!(rows.get(key), map.get(key).map(String::as_str));
    }
    assert_eq!(rows.get("missing"), None);
}

#[test]
fn sides_agree_with_the_order_of_strings() {
    let words = ["", "a", "aa", "b", "é", "\u{7f}", "\u{80}", "\u{ffff}", "\u{10000}"];
    for a in words {
        for b in words {
            match side(a, b) {
                Side::Before => assert!(a < b),
                Side::Same => assert!(a == b),
                Side::After => assert!(a > b),
            }
        }
    }
}
