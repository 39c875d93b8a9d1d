//! The popup that mirrors a dictation: when it may take over the presentation,
//! what it draws, and how it gives the presentation back.

use vstd::prelude::*;

use crate::dontspeak::{
    ClientError, LeaseView, PresenterCommand, PresenterCommandView, PresenterLease,
};
use crate::model::{SnapshotView, StatusSnapshot};
use crate::text::{characters, control, is_control, joined, same};

verus! {

/// The name under which the popup presents.
pub const PRESENTER_ID: &'static str = "herdr.voice";

/// How long a lease lasts, in milliseconds.
pub const PRESENTER_TTL_MS: u64 = 3_500;

/// The pause before the first status is asked for again, in milliseconds.
pub const RETRY_DELAY_MS: u64 = 250;

/// How often the first status is asked for.
pub const MAX_CONSECUTIVE_FAILURES: usize = 3;

/// A character that a terminal shows as it is.
pub open spec fn safe_char(c: char) -> char {
    if control(c) && c != '\n' && c != '\t' {
        ' '
    } else {
        c
    }
}

/// The text with a space in the place of each control character, but for line
/// ends and tabs.
pub open spec fn safe_text(text: Seq<char>) -> Seq<char> {
    text.map_values(|c: char| safe_char(c))
}

/// What clears the screen and puts the cursor at its start.
pub open spec fn clear_screen() -> Seq<char> {
    "\x1b[2J\x1b[H"@
}

/// The screen that shows a text.
pub open spec fn screen(text: Seq<char>) -> Seq<char> {
    clear_screen() + safe_text(text)
}

/// The text with a space in the place of each control character, but for line
/// ends and tabs.
pub fn terminal_safe_text(text: &str) -> (r: String)
    ensures
        r@ == safe_text(text@),
{
    let chars: Vec<char> = characters(text);
    let mut r: String = String::new();
    assert(r@ =~= safe_text(text@).take(0));
    for i in 0..chars.len()
        invariant
            chars@ == text@,
            r@ == safe_text(text@).take(i as int),
    {
        let c: char = chars[i];
        if is_control(c) && c != '\n' && c != '\t' {
            r.push(' ');
        } else {
            r.push(c);
        }
        assert(r@ =~= safe_text(text@).take(i + 1));
    }
    assert(safe_text(text@).take(chars@.len() as int) =~= safe_text(text@));
    r
}

/// What is written to a terminal to show a text.
pub fn draw(text: &str) -> (r: String)
    ensures
        r@ == screen(text@),
{
    joined("\x1b[2J\x1b[H", terminal_safe_text(text).as_str())
}

/// What is said where a screen could not be written.
pub fn render_error(error: &str) -> (r: String)
    ensures
        r@ == "could not render dictation: "@ + error@,
{
    joined("could not render dictation: ", error)
}

/// What is said where a screen was written and could not be flushed.
pub fn flush_error(error: &str) -> (r: String)
    ensures
        r@ == "could not flush dictation: "@ + error@,
{
    joined("could not flush dictation: ", error)
}

/// A lease that is held for a session, and is to be given back.
#[derive(Debug)]
pub struct LeaseGuard {
    pub lease_id: String,
    pub session_id: String,
}

/// The contents of a [`LeaseGuard`].
pub struct GuardView {
    pub lease_id: Seq<char>,
    pub session_id: Seq<char>,
}

impl View for LeaseGuard {
    type V = GuardView;

    open spec fn view(&self) -> GuardView {
        GuardView { lease_id: self.lease_id@, session_id: self.session_id@ }
    }
}

impl GuardView {
    /// The command that announces that the dictation is on screen.
    pub open spec fn ready(self) -> PresenterCommandView {
        PresenterCommandView::Ready { lease_id: self.lease_id, session_id: self.session_id }
    }

    /// The command that keeps the lease.
    pub open spec fn renew(self) -> PresenterCommandView {
        PresenterCommandView::Renew {
            lease_id: self.lease_id,
            session_id: self.session_id,
            ttl_ms: PRESENTER_TTL_MS,
        }
    }

    /// The command that gives the lease back.
    pub open spec fn release(self) -> PresenterCommandView {
        PresenterCommandView::Release { lease_id: self.lease_id, session_id: self.session_id }
    }
}

impl LeaseGuard {
    /// Holds a lease for a session.
    pub fn new(lease_id: String, session_id: String) -> (r: LeaseGuard)
        ensures
            r@ == (GuardView { lease_id: lease_id@, session_id: session_id@ }),
    {
        LeaseGuard { lease_id, session_id }
    }

    /// The identifier of the lease.
    pub fn lease_id(&self) -> (r: &str)
        ensures
            r@ == self@.lease_id,
    {
        self.lease_id.as_str()
    }

    /// The command that announces that the dictation is on screen.
    pub fn ready(&self) -> (r: PresenterCommand)
        ensures
            r@ == self@.ready(),
    {
        PresenterCommand::Ready {
            lease_id: self.lease_id().to_string(),
            session_id: self.session_id.clone(),
        }
    }

    /// The command that keeps the lease.
    pub fn renew(&self) -> (r: PresenterCommand)
        ensures
            r@ == self@.renew(),
    {
        PresenterCommand::Renew {
            lease_id: self.lease_id().to_string(),
            session_id: self.session_id.clone(),
            ttl_ms: PRESENTER_TTL_MS,
        }
    }

    /// The command that gives the lease back.
    pub fn release(&self) -> (r: PresenterCommand)
        ensures
            r@ == self@.release(),
    {
        PresenterCommand::Release {
            lease_id: self.lease_id().to_string(),
            session_id: self.session_id.clone(),
        }
    }
}

/// The text of a snapshot, and the snapshot's number.
#[derive(Debug)]
pub struct Transcript {
    pub seq: u64,
    pub text: String,
}

/// The contents of a [`Transcript`].
pub struct TranscriptView {
    pub seq: u64,
    pub text: Seq<char>,
}

impl View for Transcript {
    type V = TranscriptView;

    open spec fn view(&self) -> TranscriptView {
        TranscriptView { seq: self.seq, text: self.text@ }
    }
}

/// How far the popup has got.
#[derive(Debug)]
pub enum RenderState {
    /// The first status is asked for.
    Starting { expected: String, attempt: usize },
    /// It could not be had, and is asked for again after a pause.
    Pausing { expected: String, attempt: usize },
    /// The session is the expected one. Herdr is to have the focus.
    Checking { session_id: String, transcript: Transcript },
    /// The presentation is asked for.
    Acquiring { session_id: String, transcript: Transcript },
    /// The presentation is leased, and the first screen is drawn.
    Drawing { lease: LeaseGuard, transcript: Transcript },
    /// Herdr is still to have the focus.
    CheckingReady { lease: LeaseGuard, transcript: Transcript },
    /// The screen is announced.
    Readying { lease: LeaseGuard, transcript: Transcript },
    /// The screen is up to date, and the next status is asked for.
    Following { lease: LeaseGuard, transcript: Transcript },
    /// There is a next status. Herdr is still to have the focus.
    CheckingRenewal { lease: LeaseGuard, transcript: Transcript, stale: bool },
    /// The text has changed, and the screen is drawn again.
    Redrawing { lease: LeaseGuard, transcript: Transcript },
    /// The lease is renewed.
    Renewing { lease: LeaseGuard, transcript: Transcript },
    /// The lease is given back.
    Releasing { lease: LeaseGuard, result: Result<(), String> },
    /// The popup closes.
    Finished { result: Result<(), String> },
}

/// The contents of a [`RenderState`].
pub enum RenderModel {
    Starting { expected: Seq<char>, attempt: usize },
    Pausing { expected: Seq<char>, attempt: usize },
    Checking { session_id: Seq<char>, transcript: TranscriptView },
    Acquiring { session_id: Seq<char>, transcript: TranscriptView },
    Drawing { lease: GuardView, transcript: TranscriptView },
    CheckingReady { lease: GuardView, transcript: TranscriptView },
    Readying { lease: GuardView, transcript: TranscriptView },
    Following { lease: GuardView, transcript: TranscriptView },
    CheckingRenewal { lease: GuardView, transcript: TranscriptView, stale: bool },
    Redrawing { lease: GuardView, transcript: TranscriptView },
    Renewing { lease: GuardView, transcript: TranscriptView },
    Releasing { lease: GuardView, result: Result<(), Seq<char>> },
    Finished { result: Result<(), Seq<char>> },
}

/// The contents of a result whose error is said in words.
pub open spec fn said(result: Result<(), String>) -> Result<(), Seq<char>> {
    match result {
        Ok(_) => Ok(()),
        Err(error) => Err(error@),
    }
}

impl View for RenderState {
    type V = RenderModel;

    open spec fn view(&self) -> RenderModel {
        match self {
            RenderState::Starting { expected, attempt } => RenderModel::Starting {
                expected: expected@,
                attempt: *attempt,
            },
            RenderState::Pausing { expected, attempt } => RenderModel::Pausing {
                expected: expected@,
                attempt: *attempt,
            },
            RenderState::Checking { session_id, transcript } => RenderModel::Checking {
                session_id: session_id@,
                transcript: transcript@,
            },
            RenderState::Acquiring { session_id, transcript } => RenderModel::Acquiring {
                session_id: session_id@,
                transcript: transcript@,
            },
            RenderState::Drawing { lease, transcript } => RenderModel::Drawing {
                lease: lease@,
                transcript: transcript@,
            },
            RenderState::CheckingReady { lease, transcript } => RenderModel::CheckingReady {
                lease: lease@,
                transcript: transcript@,
            },
            RenderState::Readying { lease, transcript } => RenderModel::Readying {
                lease: lease@,
                transcript: transcript@,
            },
            RenderState::Following { lease, transcript } => RenderModel::Following {
                lease: lease@,
                transcript: transcript@,
            },
            RenderState::CheckingRenewal {
                lease,
                transcript,
                stale,
            } => RenderModel::CheckingRenewal {
                lease: lease@,
                transcript: transcript@,
                stale: *stale,
            },
            RenderState::Redrawing { lease, transcript } => RenderModel::Redrawing {
                lease: lease@,
                transcript: transcript@,
            },
            RenderState::Renewing { lease, transcript } => RenderModel::Renewing {
                lease: lease@,
                transcript: transcript@,
            },
            RenderState::Releasing { lease, result } => RenderModel::Releasing {
                lease: lease@,
                result: said(*result),
            },
            RenderState::Finished { result } => RenderModel::Finished { result: said(*result) },
        }
    }
}

/// What the popup is to do next.
#[derive(Debug, PartialEq, Eq)]
pub enum RenderAction {
    /// Ask for the status: the next one after a number, or the present one.
    NextStatus(Option<u64>),
    /// Wait, for so many milliseconds.
    Sleep(u64),
    /// Ask whether Herdr has the focus.
    CheckForeground,
    /// Give Don't Speak a command.
    Present(PresenterCommand),
    /// Write to the terminal.
    Draw(String),
    /// Close.
    Exit(Result<(), String>),
}

/// The contents of a [`RenderAction`].
pub enum RenderActionView {
    NextStatus(Option<u64>),
    Sleep(u64),
    CheckForeground,
    Present(PresenterCommandView),
    Draw(Seq<char>),
    Exit(Result<(), Seq<char>>),
}

impl View for RenderAction {
    type V = RenderActionView;

    open spec fn view(&self) -> RenderActionView {
        match self {
            RenderAction::NextStatus(since) => RenderActionView::NextStatus(*since),
            RenderAction::Sleep(ms) => RenderActionView::Sleep(*ms),
            RenderAction::CheckForeground => RenderActionView::CheckForeground,
            RenderAction::Present(command) => RenderActionView::Present(command@),
            RenderAction::Draw(screen) => RenderActionView::Draw(screen@),
            RenderAction::Exit(result) => RenderActionView::Exit(said(*result)),
        }
    }
}

/// What came of the popup's last action.
#[derive(Debug)]
pub enum RenderEvent {
    /// The status, or why there is none.
    Status(Result<StatusSnapshot, ClientError>),
    /// The pause is over.
    Slept,
    /// Whether Herdr is known to have the focus.
    Foreground(bool),
    /// The lease that was asked for, or why there is none.
    Leased(Result<PresenterLease, ClientError>),
    /// Whether Don't Speak took a command on the lease.
    Presented(Result<(), ClientError>),
    /// Whether the screen was written.
    Drawn(Result<(), String>),
}

/// The contents of a [`RenderEvent`].
pub enum RenderEventView {
    Status(Result<SnapshotView, ClientError>),
    Slept,
    Foreground(bool),
    Leased(Result<LeaseView, ClientError>),
    Presented(Result<(), ClientError>),
    Drawn(Result<(), Seq<char>>),
}

impl View for RenderEvent {
    type V = RenderEventView;

    open spec fn view(&self) -> RenderEventView {
        match self {
            RenderEvent::Status(Ok(snapshot)) => RenderEventView::Status(Ok(snapshot@)),
            RenderEvent::Status(Err(error)) => RenderEventView::Status(Err(*error)),
            RenderEvent::Slept => RenderEventView::Slept,
            RenderEvent::Foreground(focus) => RenderEventView::Foreground(*focus),
            RenderEvent::Leased(Ok(lease)) => RenderEventView::Leased(Ok(lease@)),
            RenderEvent::Leased(Err(error)) => RenderEventView::Leased(Err(*error)),
            RenderEvent::Presented(result) => RenderEventView::Presented(*result),
            RenderEvent::Drawn(result) => RenderEventView::Drawn(said(*result)),
        }
    }
}

/// The transcript in a snapshot.
pub open spec fn transcript_of(snapshot: SnapshotView) -> TranscriptView {
    TranscriptView { seq: snapshot.seq, text: snapshot.dictation.text }
}

impl RenderModel {
    /// The popup of a session that was named to it. Without a name it closes.
    pub open spec fn start(expected: Option<Seq<char>>) -> RenderModel {
        match expected {
            Some(expected) => RenderModel::Starting { expected, attempt: 0 },
            None => RenderModel::closed(),
        }
    }

    /// Closed without an error.
    pub open spec fn closed() -> RenderModel {
        RenderModel::Finished { result: Ok(()) }
    }

    /// What is to be done next.
    pub open spec fn asks(self) -> RenderActionView {
        match self {
            RenderModel::Starting { .. } => RenderActionView::NextStatus(None),
            RenderModel::Pausing { .. } => RenderActionView::Sleep(RETRY_DELAY_MS),
            RenderModel::Checking { .. } => RenderActionView::CheckForeground,
            RenderModel::Acquiring { session_id, .. } => RenderActionView::Present(
                PresenterCommandView::Acquire {
                    presenter_id: PRESENTER_ID@,
                    session_id,
                    ttl_ms: PRESENTER_TTL_MS,
                },
            ),
            RenderModel::Drawing { transcript, .. } => RenderActionView::Draw(
                screen(transcript.text),
            ),
            RenderModel::CheckingReady { .. } => RenderActionView::CheckForeground,
            RenderModel::Readying { lease, .. } => RenderActionView::Present(lease.ready()),
            RenderModel::Following { transcript, .. } => RenderActionView::NextStatus(
                Some(transcript.seq),
            ),
            RenderModel::CheckingRenewal { .. } => RenderActionView::CheckForeground,
            RenderModel::Redrawing { transcript, .. } => RenderActionView::Draw(
                screen(transcript.text),
            ),
            RenderModel::Renewing { lease, .. } => RenderActionView::Present(lease.renew()),
            RenderModel::Releasing { lease, .. } => RenderActionView::Present(lease.release()),
            RenderModel::Finished { result } => RenderActionView::Exit(result),
        }
    }

    /// The state after an event. An event that was not asked for changes nothing.
    pub open spec fn after(self, event: RenderEventView) -> RenderModel {
        match (self, event) {
            (
                RenderModel::Starting { expected, .. },
                RenderEventView::Status(Ok(snapshot)),
            ) => if snapshot.dictation.presentable_session() == Some(expected) {
                RenderModel::Checking { session_id: expected, transcript: transcript_of(snapshot) }
            } else {
                RenderModel::closed()
            },
            (
                RenderModel::Starting { expected, attempt },
                RenderEventView::Status(Err(_)),
            ) => if attempt + 1 < MAX_CONSECUTIVE_FAILURES {
                RenderModel::Pausing { expected, attempt }
            } else {
                RenderModel::closed()
            },
            (RenderModel::Pausing { expected, attempt }, RenderEventView::Slept) => if attempt + 1
                < MAX_CONSECUTIVE_FAILURES {
                RenderModel::Starting { expected, attempt: (attempt + 1) as usize }
            } else {
                RenderModel::closed()
            },
            (
                RenderModel::Checking { session_id, transcript },
                RenderEventView::Foreground(focus),
            ) => if focus {
                RenderModel::Acquiring { session_id, transcript }
            } else {
                RenderModel::closed()
            },
            (
                RenderModel::Acquiring { session_id, transcript },
                RenderEventView::Leased(leased),
            ) => match leased {
                Ok(lease) => RenderModel::Drawing {
                    lease: GuardView { lease_id: lease.lease_id, session_id },
                    transcript,
                },
                Err(_) => RenderModel::closed(),
            },
            (RenderModel::Drawing { lease, transcript }, RenderEventView::Drawn(result)) => if result is Ok {
                RenderModel::CheckingReady { lease, transcript }
            } else {
                RenderModel::Releasing { lease, result }
            },
            (
                RenderModel::CheckingReady { lease, transcript },
                RenderEventView::Foreground(focus),
            ) => if focus {
                RenderModel::Readying { lease, transcript }
            } else {
                RenderModel::Releasing { lease, result: Ok(()) }
            },
            (
                RenderModel::Readying { lease, transcript },
                RenderEventView::Presented(result),
            ) => if result is Ok {
                RenderModel::Following { lease, transcript }
            } else {
                RenderModel::Releasing { lease, result: Ok(()) }
            },
            (
                RenderModel::Following { lease, transcript },
                RenderEventView::Status(status),
            ) => match status {
                Ok(snapshot) if snapshot.dictation.presentable_session() == Some(
                    lease.session_id,
                ) => RenderModel::CheckingRenewal {
                    lease,
                    transcript: transcript_of(snapshot),
                    stale: snapshot.dictation.text != transcript.text,
                },
                _ => RenderModel::Releasing { lease, result: Ok(()) },
            },
            (
                RenderModel::CheckingRenewal { lease, transcript, stale },
                RenderEventView::Foreground(focus),
            ) => if !focus {
                RenderModel::Releasing { lease, result: Ok(()) }
            } else if stale {
                RenderModel::Redrawing { lease, transcript }
            } else {
                RenderModel::Renewing { lease, transcript }
            },
            (RenderModel::Redrawing { lease, transcript }, RenderEventView::Drawn(result)) => if result is Ok {
                RenderModel::Renewing { lease, transcript }
            } else {
                RenderModel::Releasing { lease, result }
            },
            (
                RenderModel::Renewing { lease, transcript },
                RenderEventView::Presented(result),
            ) => if result is Ok {
                RenderModel::Following { lease, transcript }
            } else {
                RenderModel::Releasing { lease, result: Ok(()) }
            },
            (
                RenderModel::Releasing { result, .. },
                RenderEventView::Presented(_),
            ) => RenderModel::Finished { result },
            _ => self,
        }
    }
}

/// Starts the popup, for the session that was named to it.
pub fn run(expected_session: Option<String>) -> (r: RenderState)
    ensures
        r@ == RenderModel::start(expected_session.deep_view()),
{
    match expected_session {
        Some(expected) => RenderState::Starting { expected, attempt: 0 },
        None => closed(),
    }
}

fn closed() -> (r: RenderState)
    ensures
        r@ == RenderModel::closed(),
{
    RenderState::Finished { result: Ok(()) }
}

fn released(lease: LeaseGuard) -> (r: RenderState)
    ensures
        r@ == (RenderModel::Releasing { lease: lease@, result: Ok(()) }),
{
    RenderState::Releasing { lease, result: Ok(()) }
}

impl RenderState {
    /// What is to be done next.
    pub fn action(&self) -> (r: RenderAction)
        ensures
            r@ == self@.asks(),
    {
        match self {
            RenderState::Starting { .. } => RenderAction::NextStatus(None),
            RenderState::Pausing { .. } => RenderAction::Sleep(RETRY_DELAY_MS),
            RenderState::Checking { .. } => RenderAction::CheckForeground,
            RenderState::Acquiring { session_id, .. } => RenderAction::Present(
                PresenterCommand::Acquire {
                    presenter_id: PRESENTER_ID.to_string(),
                    session_id: session_id.clone(),
                    ttl_ms: PRESENTER_TTL_MS,
                },
            ),
            RenderState::Drawing { transcript, .. } => RenderAction::Draw(
                draw(transcript.text.as_str()),
            ),
            RenderState::CheckingReady { .. } => RenderAction::CheckForeground,
            RenderState::Readying { lease, .. } => RenderAction::Present(lease.ready()),
            RenderState::Following { transcript, .. } => RenderAction::NextStatus(
                Some(transcript.seq),
            ),
            RenderState::CheckingRenewal { .. } => RenderAction::CheckForeground,
            RenderState::Redrawing { transcript, .. } => RenderAction::Draw(
                draw(transcript.text.as_str()),
            ),
            RenderState::Renewing { lease, .. } => RenderAction::Present(lease.renew()),
            RenderState::Releasing { lease, .. } => RenderAction::Present(lease.release()),
            RenderState::Finished { result } => RenderAction::Exit(
                match result {
                    Ok(_) => Ok(()),
                    Err(error) => Err(error.clone()),
                },
            ),
        }
    }
}

/// Whether a terminal may show the snapshot's dictation, and it is that session.
fn shows(snapshot: &StatusSnapshot, session_id: &str) -> (r: bool)
    ensures
        r == (snapshot@.dictation.presentable_session() == Some(session_id@)),
{
    if !snapshot.dictation.presentable() {
        return false;
    }
    match snapshot.dictation.valid_session_id() {
        Some(id) => same(id, session_id),
        None => false,
    }
}

/// What follows the first status, or its failure. After a failure it is asked for
/// again, up to a limit.
pub fn first_status(
    expected: String,
    attempt: usize,
    status: Result<StatusSnapshot, ClientError>,
) -> (r: RenderState)
    ensures
        status matches Ok(snapshot) ==> r@ == (RenderModel::Starting {
            expected: expected@,
            attempt,
        }).after(RenderEventView::Status(Ok(snapshot@))),
        status matches Err(error) ==> r@ == (RenderModel::Starting {
            expected: expected@,
            attempt,
        }).after(RenderEventView::Status(Err(error))),
{
    match status {
        Ok(snapshot) => {
            if shows(&snapshot, expected.as_str()) {
                RenderState::Checking {
                    session_id: expected,
                    transcript: Transcript { seq: snapshot.seq, text: snapshot.dictation.text },
                }
            } else {
                closed()
            }
        },
        Err(_) => {
            if attempt < MAX_CONSECUTIVE_FAILURES - 1 {
                RenderState::Pausing { expected, attempt }
            } else {
                closed()
            }
        },
    }
}

/// Takes in what came of the popup's last action.
pub fn render_loop(state: RenderState, event: RenderEvent) -> (r: RenderState)
    ensures
        r@ == state@.after(event@),
{
    match (state, event) {
        (RenderState::Starting { expected, attempt }, RenderEvent::Status(status)) => first_status(
            expected,
            attempt,
            status,
        ),
        (RenderState::Pausing { expected, attempt }, RenderEvent::Slept) => {
            if attempt < MAX_CONSECUTIVE_FAILURES - 1 {
                RenderState::Starting { expected, attempt: attempt + 1 }
            } else {
                closed()
            }
        },
        (RenderState::Checking { session_id, transcript }, RenderEvent::Foreground(focus)) => {
            if focus {
                RenderState::Acquiring { session_id, transcript }
            } else {
                closed()
            }
        },
        (RenderState::Acquiring { session_id, transcript }, RenderEvent::Leased(leased)) => {
            match leased {
                Ok(lease) => RenderState::Drawing {
                    lease: LeaseGuard::new(lease.lease_id, session_id),
                    transcript,
                },
                Err(_) => closed(),
            }
        },
        (RenderState::Drawing { lease, transcript }, RenderEvent::Drawn(result)) => {
            match result {
                Ok(_) => RenderState::CheckingReady { lease, transcript },
                Err(error) => RenderState::Releasing { lease, result: Err(error) },
            }
        },
        (RenderState::CheckingReady { lease, transcript }, RenderEvent::Foreground(focus)) => {
            if focus {
                RenderState::Readying { lease, transcript }
            } else {
                released(lease)
            }
        },
        (RenderState::Readying { lease, transcript }, RenderEvent::Presented(result)) => {
            match result {
                Ok(_) => RenderState::Following { lease, transcript },
                Err(_) => released(lease),
            }
        },
        (RenderState::Following { lease, transcript }, RenderEvent::Status(status)) => {
            match status {
                Ok(snapshot) => {
                    if shows(&snapshot, lease.session_id.as_str()) {
                        let stale: bool = !same(
                            snapshot.dictation.text.as_str(),
                            transcript.text.as_str(),
                        );
                        RenderState::CheckingRenewal {
                            lease,
                            transcript: Transcript {
                                seq: snapshot.seq,
                                text: snapshot.dictation.text,
                            },
                            stale,
                        }
                    } else {
                        released(lease)
                    }
                },
                Err(_) => released(lease),
            }
        },
        (
            RenderState::CheckingRenewal { lease, transcript, stale },
            RenderEvent::Foreground(focus),
        ) => {
            if !focus {
                released(lease)
            } else if stale {
                RenderState::Redrawing { lease, transcript }
            } else {
                RenderState::Renewing { lease, transcript }
            }
        },
        (RenderState::Redrawing { lease, transcript }, RenderEvent::Drawn(result)) => {
            match result {
                Ok(_) => RenderState::Renewing { lease, transcript },
                Err(error) => RenderState::Releasing { lease, result: Err(error) },
            }
        },
        (RenderState::Renewing { lease, transcript }, RenderEvent::Presented(result)) => {
            match result {
                Ok(_) => RenderState::Following { lease, transcript },
                Err(_) => released(lease),
            }
        },
        (RenderState::Releasing { result, .. }, RenderEvent::Presented(_)) => {
            RenderState::Finished { result }
        },
        (state, _) => state,
    }
}

} // verus!
