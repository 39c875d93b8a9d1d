//! The status of Don't Speak: what a snapshot holds, which of it may be shown,
//! and the label that each pane gets for its voice session.

use vstd::prelude::*;

use crate::ordered::{ascending, insert_row, keys, lemma_insert_row, lookup, Row, Rows};
use crate::text::{
    alphanumeric, characters, control, decimal, decimal_string, is_alphanumeric, is_control,
    is_white_space, joined, same, white_space,
};

verus! {

/// One snapshot of the status.
#[derive(Debug)]
pub struct StatusSnapshot {
    pub seq: u64,
    pub activity: Activity,
    pub voice_sessions: Vec<VoiceSession>,
    pub dictation: Dictation,
}

/// What holds of all voice sessions at once.
#[derive(Debug, Clone, Copy, PartialEq, Eq, Structural)]
pub struct Activity {
    pub muted: bool,
}

/// The voice session of one pane.
#[derive(Debug)]
pub struct VoiceSession {
    pub pane_id: Option<String>,
    pub speaking: bool,
    pub queued: u64,
    pub blocked: bool,
    pub voice: Option<String>,
}

/// The dictation that is in progress.
#[derive(Debug)]
pub struct Dictation {
    pub session_id: Option<String>,
    pub state: String,
    pub text: String,
    pub external_ui_active: bool,
}

/// The contents of a [`StatusSnapshot`].
pub struct SnapshotView {
    pub seq: u64,
    pub activity: Activity,
    pub voice_sessions: Seq<SessionView>,
    pub dictation: DictationView,
}

/// The contents of a [`VoiceSession`].
pub struct SessionView {
    pub pane_id: Option<Seq<char>>,
    pub speaking: bool,
    pub queued: u64,
    pub blocked: bool,
    pub voice: Option<Seq<char>>,
}

/// The contents of a [`Dictation`].
pub struct DictationView {
    pub session_id: Option<Seq<char>>,
    pub state: Seq<char>,
    pub text: Seq<char>,
    pub external_ui_active: bool,
}

impl View for StatusSnapshot {
    type V = SnapshotView;

    open spec fn view(&self) -> SnapshotView {
        SnapshotView {
            seq: self.seq,
            activity: self.activity,
            voice_sessions: self.voice_sessions@.map_values(|s: VoiceSession| s@),
            dictation: self.dictation@,
        }
    }
}

impl View for VoiceSession {
    type V = SessionView;

    open spec fn view(&self) -> SessionView {
        SessionView {
            pane_id: self.pane_id.deep_view(),
            speaking: self.speaking,
            queued: self.queued,
            blocked: self.blocked,
            voice: self.voice.deep_view(),
        }
    }
}

impl View for Dictation {
    type V = DictationView;

    open spec fn view(&self) -> DictationView {
        DictationView {
            session_id: self.session_id.deep_view(),
            state: self.state@,
            text: self.text@,
            external_ui_active: self.external_ui_active,
        }
    }
}

impl Default for Activity {
    fn default() -> (r: Activity)
        ensures
            !r.muted,
    {
        Activity { muted: false }
    }
}

impl Default for Dictation {
    fn default() -> (r: Dictation)
        ensures
            r@ == (DictationView {
                session_id: None,
                state: "hidden"@,
                text: seq![],
                external_ui_active: false,
            }),
    {
        let r: Dictation = Dictation {
            session_id: None,
            state: hidden_state(),
            text: String::new(),
            external_ui_active: false,
        };
        assert(r.text@ =~= seq![]);
        r
    }
}

/// The state of a dictation that nothing is said of.
pub fn hidden_state() -> (r: String)
    ensures
        r@ == "hidden"@,
{
    "hidden".to_string()
}

/// The longest identifier that is accepted.
pub const ID_LIMIT: usize = 120;

/// The characters of an opaque identifier.
pub open spec fn opaque_char(c: char) -> bool {
    alphanumeric(c) || c == '-' || c == '_' || c == '.'
}

/// An identifier that is passed on without being read: up to 120 ASCII letters,
/// digits, hyphens, underscores and dots.
pub open spec fn opaque_id(s: Seq<char>) -> bool {
    &&& 0 < s.len() <= ID_LIMIT
    &&& forall|i: int| 0 <= i < s.len() ==> opaque_char(#[trigger] s[i])
}

/// The identifier of a pane: like an opaque one, with colons too, and with a
/// letter or digit at its start.
pub open spec fn pane_id(s: Seq<char>) -> bool {
    &&& 0 < s.len() <= ID_LIMIT
    &&& alphanumeric(s[0])
    &&& forall|i: int| 0 <= i < s.len() ==> opaque_char(#[trigger] s[i]) || s[i] == ':'
}

/// Whether `value` is an opaque identifier. In one every character is a single
/// byte, so the limit is the same for characters and for bytes.
pub fn valid_opaque_id(value: &str) -> (r: bool)
    ensures
        r == opaque_id(value@),
{
    let chars: Vec<char> = characters(value);
    if chars.len() == 0 || chars.len() > ID_LIMIT {
        return false;
    }
    for i in 0..chars.len()
        invariant
            chars@ == value@,
            forall|j: int| 0 <= j < i ==> opaque_char(#[trigger] value@[j]),
    {
        let c: char = chars[i];
        if !(is_alphanumeric(c) || c == '-' || c == '_' || c == '.') {
            assert(!opaque_char(value@[i as int]));
            return false;
        }
    }
    true
}

/// Whether `value` is the identifier of a pane.
pub fn valid_pane_id(value: &str) -> (r: bool)
    ensures
        r == pane_id(value@),
{
    let chars: Vec<char> = characters(value);
    if chars.len() == 0 || chars.len() > ID_LIMIT || !is_alphanumeric(chars[0]) {
        return false;
    }
    for i in 0..chars.len()
        invariant
            chars@ == value@,
            forall|j: int| 0 <= j < i ==> opaque_char(#[trigger] value@[j]) || value@[j] == ':',
    {
        let c: char = chars[i];
        if !(is_alphanumeric(c) || c == '-' || c == '_' || c == ':' || c == '.') {
            assert(!opaque_char(value@[i as int]) && value@[i as int] != ':');
            return false;
        }
    }
    true
}

impl DictationView {
    /// A terminal may show the dictation while it is recorded and while it
    /// waits to be confirmed.
    pub open spec fn presentable(self) -> bool {
        self.state == "recording"@ || self.state == "awaiting_confirm"@
    }

    /// The session identifier, if it is well formed.
    pub open spec fn valid_session_id(self) -> Option<Seq<char>> {
        match self.session_id {
            Some(id) if opaque_id(id) => Some(id),
            _ => None,
        }
    }

    /// The session that a terminal may show.
    pub open spec fn presentable_session(self) -> Option<Seq<char>> {
        if self.presentable() {
            self.valid_session_id()
        } else {
            None
        }
    }
}

impl Dictation {
    /// Whether a terminal may show the dictation.
    pub fn presentable(&self) -> (r: bool)
        ensures
            r == self@.presentable(),
    {
        same(self.state.as_str(), "recording") || same(self.state.as_str(), "awaiting_confirm")
    }

    /// The session identifier, if it is well formed.
    pub fn valid_session_id(&self) -> (r: Option<&str>)
        ensures
            r.deep_view() == self@.valid_session_id(),
    {
        match &self.session_id {
            Some(id) => if valid_opaque_id(id.as_str()) {
                Some(id.as_str())
            } else {
                None
            },
            None => None,
        }
    }
}

/// A character that separates the words of a label.
pub open spec fn blank(c: char) -> bool {
    control(c) || white_space(c)
}

/// The text without the blanks at its ends, and with one space for each run of
/// blanks between its words.
pub open spec fn squeezed(s: Seq<char>) -> Seq<char>
    decreases s.len(),
{
    if s.len() == 0 {
        s
    } else {
        let head = squeezed(s.drop_last());
        if blank(s.last()) {
            head
        } else if s.len() > 1 && blank(s[s.len() - 2]) && head.len() > 0 {
            head.push(' ').push(s.last())
        } else {
            head.push(s.last())
        }
    }
}

/// How many characters of a voice's name reach its label.
pub const VOICE_LIMIT: usize = 48;

/// The part of a voice's name that reaches its label.
pub open spec fn voice_part(s: Seq<char>) -> Seq<char> {
    if s.len() <= VOICE_LIMIT {
        s
    } else {
        s.take(VOICE_LIMIT as int)
    }
}

/// The label of a voice: its name on one line, or `voice` where nothing is
/// left of it.
pub open spec fn voice_label(value: Option<Seq<char>>) -> Seq<char> {
    let label = squeezed(
        voice_part(
            match value {
                Some(name) => name,
                None => "voice"@,
            },
        ),
    );
    if label.len() == 0 {
        "voice"@
    } else {
        label
    }
}

/// The label of a voice, with blanks tidied and at a bounded length.
pub fn sanitized_voice(value: Option<&str>) -> (r: String)
    ensures
        r@ == voice_label(value.deep_view()),
{
    let name: &str = match value {
        Some(name) => name,
        None => "voice",
    };
    let chars: Vec<char> = characters(name);
    let n: usize = if chars.len() <= VOICE_LIMIT {
        chars.len()
    } else {
        VOICE_LIMIT
    };
    let ghost part = voice_part(name@);
    let mut output: String = String::new();
    let mut empty: bool = true;
    let mut after_blank: bool = false;
    assert(part.take(0) =~= seq![]);
    assert(output@ =~= squeezed(part.take(0)));
    for i in 0..n
        invariant
            chars@ == name@,
            n <= chars.len(),
            part == voice_part(name@),
            n == part.len(),
            output@ == squeezed(part.take(i as int)),
            empty == (output@.len() == 0),
            after_blank == (i > 0 && blank(part[i - 1])),
    {
        let c: char = chars[i];
        let ghost head = part.take(i + 1);
        proof {
            assert(c == part[i as int]);
            assert(head.last() == c);
            assert(head.drop_last() =~= part.take(i as int));
        }
        if is_control(c) || is_white_space(c) {
            after_blank = true;
        } else {
            if after_blank && !empty {
                output.push(' ');
            }
            output.push(c);
            empty = false;
            after_blank = false;
        }
    }
    assert(part.take(n as int) =~= part);
    if empty {
        "voice".to_string()
    } else {
        output
    }
}

/// The label that a pane gets for its voice session. Silence goes before
/// speech, speech before waiting, and waiting before a queue.
pub open spec fn token(session: SessionView, muted: bool) -> Seq<char> {
    let voice = voice_label(session.voice);
    if muted {
        "MUTE "@ + voice
    } else if session.speaking {
        "SPEAK "@ + voice
    } else if session.blocked {
        "WAIT "@ + decimal(session.queued as nat) + " "@ + voice
    } else if session.queued > 0 {
        "Q"@ + decimal(session.queued as nat) + " "@ + voice
    } else {
        voice
    }
}

fn optional_str(value: &Option<String>) -> (r: Option<&str>)
    ensures
        r.deep_view() == value.deep_view(),
{
    match value {
        Some(s) => Some(s.as_str()),
        None => None,
    }
}

/// The label that a pane gets for its voice session.
pub fn token_for(session: &VoiceSession, muted: bool) -> (r: String)
    ensures
        r@ == token(session@, muted),
{
    let voice: String = sanitized_voice(optional_str(&session.voice));
    if muted {
        joined("MUTE ", voice.as_str())
    } else if session.speaking {
        joined("SPEAK ", voice.as_str())
    } else if session.blocked {
        joined("WAIT ", decimal_string(session.queued).as_str()).concat(" ").concat(voice.as_str())
    } else if session.queued > 0 {
        joined("Q", decimal_string(session.queued).as_str()).concat(" ").concat(voice.as_str())
    } else {
        voice
    }
}

/// The last of the sessions that names the pane.
pub open spec fn session_of(sessions: Seq<SessionView>, pane: Seq<char>) -> Option<SessionView>
    decreases sessions.len(),
{
    if sessions.len() == 0 {
        None
    } else if sessions.last().pane_id == Some(pane) {
        Some(sessions.last())
    } else {
        session_of(sessions.drop_last(), pane)
    }
}

/// The label of a pane: that of the last session that names it. A pane whose
/// identifier is not well formed has none.
pub open spec fn pane_token(
    sessions: Seq<SessionView>,
    muted: bool,
    pane: Seq<char>,
) -> Option<Seq<char>> {
    match session_of(sessions, pane) {
        Some(session) if pane_id(pane) => Some(token(session, muted)),
        _ => None,
    }
}

/// The labels of all panes, in the order of the panes' identifiers.
pub open spec fn session_rows(sessions: Seq<SessionView>, muted: bool) -> Seq<Row>
    decreases sessions.len(),
{
    if sessions.len() == 0 {
        seq![]
    } else {
        let rows = session_rows(sessions.drop_last(), muted);
        match sessions.last().pane_id {
            Some(pane) if pane_id(pane) => insert_row(rows, pane, token(sessions.last(), muted)),
            _ => rows,
        }
    }
}

impl SnapshotView {
    /// The labels of all panes, in the order of the panes' identifiers.
    pub open spec fn metadata(self) -> Seq<Row> {
        session_rows(self.voice_sessions, self.activity.muted)
    }

    /// The label of a pane.
    pub open spec fn pane_token(self, pane: Seq<char>) -> Option<Seq<char>> {
        pane_token(self.voice_sessions, self.activity.muted, pane)
    }
}

/// The rows hold exactly the panes' labels, each pane once and in order.
pub proof fn lemma_session_rows(sessions: Seq<SessionView>, muted: bool)
    ensures
        ascending(keys(session_rows(sessions, muted))),
        forall|pane: Seq<char>| #[trigger]
            lookup(session_rows(sessions, muted), pane) == pane_token(sessions, muted, pane),
    decreases sessions.len(),
{
    if sessions.len() > 0 {
        let rest = sessions.drop_last();
        lemma_session_rows(rest, muted);
        match sessions.last().pane_id {
            Some(pane) => {
                if pane_id(pane) {
                    lemma_insert_row(session_rows(rest, muted), pane, token(sessions.last(), muted));
                }
            },
            None => {},
        }
        assert forall|pane: Seq<char>| #[trigger]
            lookup(session_rows(sessions, muted), pane) == pane_token(sessions, muted, pane) by {
            assert(lookup(session_rows(rest, muted), pane) == pane_token(rest, muted, pane));
        }
    }
}

/// The labels of all panes.
pub fn metadata(snapshot: &StatusSnapshot) -> (r: Rows)
    ensures
        r@ == snapshot@.metadata(),
        r.wf(),
        forall|pane: Seq<char>| #[trigger] lookup(r@, pane) == snapshot@.pane_token(pane),
{
    let ghost sessions = snapshot@.voice_sessions;
    let muted: bool = snapshot.activity.muted;
    let mut rows: Rows = Rows::new();
    assert(sessions.take(0) =~= seq![]);
    for i in 0..snapshot.voice_sessions.len()
        invariant
            sessions == snapshot@.voice_sessions,
            muted == snapshot.activity.muted,
            rows@ == session_rows(sessions.take(i as int), muted),
            rows.wf(),
    {
        let session: &VoiceSession = &snapshot.voice_sessions[i];
        let ghost head = sessions.take(i + 1);
        proof {
            assert(head.last() == session@);
            assert(head.drop_last() =~= sessions.take(i as int));
        }
        match &session.pane_id {
            Some(pane) => {
                if valid_pane_id(pane.as_str()) {
                    rows.insert(pane.clone(), token_for(session, muted));
                }
            },
            None => {},
        }
    }
    proof {
        assert(sessions.take(sessions.len() as int) =~= sessions);
        lemma_session_rows(sessions, muted);
    }
    rows
}

} // verus!
