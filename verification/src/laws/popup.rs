//! Laws of the popup: of every way in which its run can go.

use vstd::prelude::*;

use crate::dictation::{
    clear_screen, safe_text, screen, transcript_of, GuardView, RenderActionView, RenderEventView,
    RenderModel, TranscriptView, MAX_CONSECUTIVE_FAILURES, PRESENTER_ID, PRESENTER_TTL_MS,
    RETRY_DELAY_MS,
};
use crate::dontspeak::{usable_lease, ClientError, LeaseView, PresenterCommandView};
use crate::model::{opaque_char, opaque_id, SnapshotView};
use crate::text::control;

verus! {

/// The event is an answer to what the state asks.
pub open spec fn answers(state: RenderModel, event: RenderEventView) -> bool {
    match (state.asks(), event) {
        (RenderActionView::NextStatus(_), RenderEventView::Status(_)) => true,
        (RenderActionView::Sleep(_), RenderEventView::Slept) => true,
        (RenderActionView::CheckForeground, RenderEventView::Foreground(_)) => true,
        (
            RenderActionView::Present(PresenterCommandView::Acquire { .. }),
            RenderEventView::Leased(_),
        ) => true,
        (
            RenderActionView::Present(PresenterCommandView::Acquire { .. }),
            RenderEventView::Presented(_),
        ) => false,
        (RenderActionView::Present(_), RenderEventView::Presented(_)) => true,
        (RenderActionView::Draw(_), RenderEventView::Drawn(_)) => true,
        _ => false,
    }
}

/// A run of the popup, with what an onlooker would note of it.
pub struct PopupRun {
    pub state: RenderModel,
    /// Herdr had the focus when that was last asked, and nothing was done since but
    /// to draw.
    pub confirmed: bool,
    /// The lease that was granted and not yet given back.
    pub held: Option<GuardView>,
    /// How many leases were granted.
    pub granted: nat,
    /// How many leases were given back.
    pub released: nat,
    /// What was last drawn.
    pub shown: Option<Seq<char>>,
    /// All that was drawn, one screen after the other.
    pub drawn: Seq<Seq<char>>,
    /// A screen could not be written.
    pub spoiled: bool,
    /// What was said where a screen could not be written.
    pub error: Option<Seq<char>>,
    /// Don't Speak took the announcement that the dictation is on screen.
    pub announced: bool,
    /// The last snapshot.
    pub latest: Option<SnapshotView>,
    /// The text of the last snapshot is not yet among those to show.
    pub fresh: bool,
    /// The texts to show: that of the snapshot for which the lease was granted, and that
    /// of each later snapshot for which Herdr was found to have the focus.
    pub texts: Seq<Seq<char>>,
    /// How often a status could not be had before the first one.
    pub failures: nat,
}

impl PopupRun {
    /// Before anything happened.
    pub open spec fn begin(expected: Option<Seq<char>>) -> PopupRun {
        PopupRun {
            state: RenderModel::start(expected),
            confirmed: false,
            held: None,
            granted: 0,
            released: 0,
            shown: None,
            drawn: seq![],
            spoiled: false,
            error: None,
            announced: false,
            latest: None,
            fresh: false,
            texts: seq![],
            failures: 0,
        }
    }

    /// After one more event.
    pub open spec fn with(self, event: RenderEventView) -> PopupRun {
        let state = self.state.after(event);
        if !answers(self.state, event) {
            PopupRun { state, ..self }
        } else {
            match (self.state.asks(), event) {
                (_, RenderEventView::Foreground(focus)) => {
                    let next = PopupRun { state, confirmed: focus, ..self };
                    match self.latest {
                        Some(snapshot) if focus && self.fresh && self.held is Some => PopupRun {
                            fresh: false,
                            texts: self.texts.push(snapshot.dictation.text),
                            ..next
                        },
                        _ => next,
                    }
                },
                (_, RenderEventView::Status(Ok(snapshot))) => PopupRun {
                    state,
                    confirmed: false,
                    latest: Some(snapshot),
                    fresh: true,
                    ..self
                },
                (RenderActionView::NextStatus(since), RenderEventView::Status(Err(_))) => PopupRun {
                    state,
                    confirmed: false,
                    failures: if since is None {
                        self.failures + 1
                    } else {
                        self.failures
                    },
                    ..self
                },
                (
                    RenderActionView::Present(PresenterCommandView::Acquire { session_id, .. }),
                    RenderEventView::Leased(Ok(lease)),
                ) => PopupRun {
                    state,
                    confirmed: false,
                    held: Some(GuardView { lease_id: lease.lease_id, session_id }),
                    granted: self.granted + 1,
                    fresh: false,
                    texts: match self.latest {
                        Some(snapshot) => self.texts.push(snapshot.dictation.text),
                        None => self.texts,
                    },
                    ..self
                },
                (
                    RenderActionView::Present(PresenterCommandView::Release { .. }),
                    RenderEventView::Presented(_),
                ) => PopupRun {
                    state,
                    confirmed: false,
                    held: None,
                    released: self.released + 1,
                    ..self
                },
                (RenderActionView::Draw(text), RenderEventView::Drawn(Ok(_))) => PopupRun {
                    state,
                    shown: Some(text),
                    drawn: self.drawn.push(text),
                    ..self
                },
                (RenderActionView::Draw(_), RenderEventView::Drawn(Err(error))) => PopupRun {
                    state,
                    confirmed: false,
                    spoiled: true,
                    error: Some(error),
                    ..self
                },
                (
                    RenderActionView::Present(PresenterCommandView::Ready { .. }),
                    RenderEventView::Presented(Ok(_)),
                ) => PopupRun { state, confirmed: false, announced: true, ..self },
                _ => PopupRun { state, confirmed: false, ..self },
            }
        }
    }
}

/// The run after all the events.
pub open spec fn popup_run(expected: Option<Seq<char>>, events: Seq<RenderEventView>) -> PopupRun
    decreases events.len(),
{
    if events.len() == 0 {
        PopupRun::begin(expected)
    } else {
        popup_run(expected, events.drop_last()).with(events.last())
    }
}

/// One screen for the first text, and one for each later text that differs from the one
/// before it.
pub open spec fn screens(texts: Seq<Seq<char>>) -> Seq<Seq<char>>
    decreases texts.len(),
{
    if texts.len() == 0 {
        seq![]
    } else if texts.len() > 1 && texts.last() == texts[texts.len() - 2] {
        screens(texts.drop_last())
    } else {
        screens(texts.drop_last()).push(screen(texts.last()))
    }
}

/// Every text to show has been drawn, and this one is the last.
spec fn followed(run: PopupRun, text: Seq<char>) -> bool {
    &&& run.texts.len() > 0
    &&& run.texts.last() == text
    &&& run.drawn == screens(run.texts)
    &&& !run.fresh
    &&& !run.spoiled
}

/// Every text to show but this one has been drawn, and it differs from the one before.
spec fn behind(run: PopupRun, text: Seq<char>) -> bool {
    &&& run.texts.len() > 0
    &&& run.texts.last() == text
    &&& run.texts.len() > 1 ==> run.texts[run.texts.len() - 2] != text
    &&& run.drawn == screens(run.texts.drop_last())
    &&& !run.fresh
    &&& !run.spoiled
}

/// No more is drawn. Only a screen that could not be written may be missing.
spec fn settled(run: PopupRun) -> bool {
    if run.spoiled {
        screens(run.texts).len() > 0 && run.drawn == screens(run.texts).drop_last()
    } else {
        run.drawn == screens(run.texts)
    }
}

/// The transcript is that of the last snapshot, and that is of the session.
spec fn current(run: PopupRun, transcript: TranscriptView, session_id: Seq<char>) -> bool {
    &&& run.latest matches Some(snapshot)
    &&& transcript == transcript_of(snapshot)
    &&& snapshot.dictation.presentable_session() == Some(session_id)
}

/// One lease is held, for the expected session.
spec fn holding(run: PopupRun, expected: Option<Seq<char>>, lease: GuardView) -> bool {
    &&& run.held == Some(lease)
    &&& run.latest is Some
    &&& run.granted == 1
    &&& run.released == 0
    &&& expected == Some(lease.session_id)
    &&& opaque_id(lease.session_id)
}

/// No lease was granted, and nothing was drawn.
spec fn untouched(run: PopupRun) -> bool {
    &&& run.held is None
    &&& run.granted == 0
    &&& run.released == 0
    &&& run.shown is None
    &&& run.drawn == Seq::<Seq<char>>::empty()
    &&& run.texts == Seq::<Seq<char>>::empty()
    &&& !run.spoiled
    &&& !run.announced
}

/// What the run comes to: an error only where a screen could not be written.
pub open spec fn outcome(run: PopupRun) -> Result<(), Seq<char>> {
    match run.error {
        Some(error) => Err(error),
        None => Ok(()),
    }
}

spec fn sound(run: PopupRun, expected: Option<Seq<char>>) -> bool {
    &&& run.failures <= MAX_CONSECUTIVE_FAILURES
    &&& run.error is Some <==> run.spoiled
    &&& match run.state {
        RenderModel::Starting { expected: session_id, attempt } => {
            &&& untouched(run)
            &&& expected == Some(session_id)
            &&& run.latest is None
            &&& attempt == run.failures
            &&& attempt < MAX_CONSECUTIVE_FAILURES
        },
        RenderModel::Pausing { expected: session_id, attempt } => {
            &&& untouched(run)
            &&& expected == Some(session_id)
            &&& run.latest is None
            &&& attempt + 1 == run.failures
            &&& attempt + 1 < MAX_CONSECUTIVE_FAILURES
        },
        RenderModel::Checking { session_id, transcript } => {
            &&& untouched(run)
            &&& expected == Some(session_id)
            &&& current(run, transcript, session_id)
        },
        RenderModel::Acquiring { session_id, transcript } => {
            &&& untouched(run)
            &&& run.confirmed
            &&& expected == Some(session_id)
            &&& current(run, transcript, session_id)
        },
        RenderModel::Drawing { lease, transcript } => {
            &&& holding(run, expected, lease)
            &&& current(run, transcript, lease.session_id)
            &&& behind(run, transcript.text)
            &&& !run.announced
        },
        RenderModel::CheckingReady { lease, transcript } => {
            &&& holding(run, expected, lease)
            &&& current(run, transcript, lease.session_id)
            &&& run.shown == Some(screen(transcript.text))
            &&& followed(run, transcript.text)
            &&& !run.announced
        },
        RenderModel::Readying { lease, transcript } => {
            &&& holding(run, expected, lease)
            &&& current(run, transcript, lease.session_id)
            &&& run.confirmed
            &&& run.shown == Some(screen(transcript.text))
            &&& followed(run, transcript.text)
            &&& !run.announced
        },
        RenderModel::Following { lease, transcript } => {
            &&& holding(run, expected, lease)
            &&& current(run, transcript, lease.session_id)
            &&& run.shown == Some(screen(transcript.text))
            &&& followed(run, transcript.text)
            &&& run.announced
        },
        RenderModel::CheckingRenewal { lease, transcript, stale } => {
            &&& holding(run, expected, lease)
            &&& current(run, transcript, lease.session_id)
            &&& !stale ==> run.shown == Some(screen(transcript.text))
            &&& run.texts.len() > 0
            &&& stale == (run.texts.last() != transcript.text)
            &&& run.drawn == screens(run.texts)
            &&& run.fresh
            &&& !run.spoiled
            &&& run.announced
        },
        RenderModel::Redrawing { lease, transcript } => {
            &&& holding(run, expected, lease)
            &&& current(run, transcript, lease.session_id)
            &&& run.confirmed
            &&& behind(run, transcript.text)
            &&& run.announced
        },
        RenderModel::Renewing { lease, transcript } => {
            &&& holding(run, expected, lease)
            &&& current(run, transcript, lease.session_id)
            &&& run.confirmed
            &&& run.shown == Some(screen(transcript.text))
            &&& followed(run, transcript.text)
            &&& run.announced
        },
        RenderModel::Releasing { lease, result } => {
            &&& holding(run, expected, lease)
            &&& settled(run)
            &&& result == outcome(run)
        },
        RenderModel::Finished { result } => {
            &&& result == outcome(run)
            &&& run.held is None
            &&& run.granted == run.released
            &&& run.granted <= 1
            &&& run.granted == 0 ==> run.shown is None
            &&& settled(run)
        },
    }
}

proof fn lemma_sound(expected: Option<Seq<char>>, events: Seq<RenderEventView>)
    ensures
        sound(popup_run(expected, events), expected),
    decreases events.len(),
{
    if events.len() > 0 {
        let before = popup_run(expected, events.drop_last());
        let run = popup_run(expected, events);
        lemma_sound(expected, events.drop_last());
        if run.texts.len() > before.texts.len() {
            assert(run.texts.drop_last() =~= before.texts);
        }
        if before.state is Drawing || before.state is Redrawing {
            lemma_screens(before.texts);
        }
    }
}

proof fn lemma_screens(texts: Seq<Seq<char>>)
    requires
        texts.len() > 0,
        texts.len() > 1 ==> texts[texts.len() - 2] != texts.last(),
    ensures
        screens(texts) == screens(texts.drop_last()).push(screen(texts.last())),
        screens(texts).drop_last() == screens(texts.drop_last()),
{
    assert(screens(texts).drop_last() =~= screens(texts.drop_last()));
}

/// The presentation is leased at most once in a run, and a run that held a lease gives
/// it back, once, before it ends: on success, on failure, and when the focus is lost.
pub proof fn law_lease_is_given_back(expected: Option<Seq<char>>, events: Seq<RenderEventView>)
    ensures
        ({
            let run = popup_run(expected, events);
            &&& run.granted <= 1
            &&& run.released <= run.granted
            &&& run.held is Some <==> run.released < run.granted
            &&& run.state is Finished ==> run.released == run.granted
        }),
{
    lemma_sound(expected, events);
}

/// A lease that is held is never simply dropped: as long as the state is not the one
/// that gives it back, the next state holds it too.
pub proof fn law_lease_is_not_dropped(
    expected: Option<Seq<char>>,
    events: Seq<RenderEventView>,
    event: RenderEventView,
)
    ensures
        ({
            let run = popup_run(expected, events);
            let next = popup_run(expected, events.push(event));
            run.held is Some && next.held != run.held ==> run.state is Releasing && run.state.asks()
                == RenderActionView::Present(run.held->0.release())
        }),
{
    lemma_sound(expected, events);
    assert(events.push(event).drop_last() =~= events);
}

/// Every command to Don't Speak is about the session that the popup was opened for,
/// whose identifier is well formed. It asks for the lease, or it is about the lease
/// that is held.
pub proof fn law_commands_are_about_the_session(
    expected: Option<Seq<char>>,
    events: Seq<RenderEventView>,
)
    ensures
        ({
            let run = popup_run(expected, events);
            run.state.asks() matches RenderActionView::Present(command) ==> {
                &&& expected matches Some(session_id)
                &&& opaque_id(session_id)
                &&& {
                    ||| command == (PresenterCommandView::Acquire {
                        presenter_id: PRESENTER_ID@,
                        session_id,
                        ttl_ms: PRESENTER_TTL_MS,
                    }) && run.granted == 0
                    ||| run.held matches Some(lease) && lease.session_id == session_id && (command
                        == lease.ready() || command == lease.renew() || command == lease.release())
                }
            }
        }),
{
    lemma_sound(expected, events);
}

/// Where only usable leases are granted, every command to Don't Speak is well formed,
/// so that its arguments can be given.
pub proof fn law_commands_are_valid(expected: Option<Seq<char>>, events: Seq<RenderEventView>)
    requires
        forall|i: int|
            0 <= i < events.len() ==> ((#[trigger] events[i]) matches RenderEventView::Leased(
                Ok(lease),
            ) ==> usable_lease(lease)),
    ensures
        popup_run(expected, events).state.asks() matches RenderActionView::Present(command)
            ==> command.valid(),
{
    lemma_sound(expected, events);
    lemma_held_is_usable(expected, events);
    reveal_strlit("herdr.voice");
    assert(opaque_id(PRESENTER_ID@)) by {
        assert forall|i: int| 0 <= i < PRESENTER_ID@.len() implies opaque_char(
            #[trigger] PRESENTER_ID@[i],
        ) by {}
    }
}

proof fn lemma_held_is_usable(expected: Option<Seq<char>>, events: Seq<RenderEventView>)
    requires
        forall|i: int|
            0 <= i < events.len() ==> ((#[trigger] events[i]) matches RenderEventView::Leased(
                Ok(lease),
            ) ==> usable_lease(lease)),
    ensures
        popup_run(expected, events).held matches Some(lease) ==> opaque_id(lease.lease_id),
    decreases events.len(),
{
    if events.len() > 0 {
        let rest = events.drop_last();
        assert forall|i: int| 0 <= i < rest.len() implies ((
        #[trigger] rest[i]) matches RenderEventView::Leased(Ok(lease)) ==> usable_lease(lease)) by {
            assert(rest[i] == events[i]);
        }
        lemma_held_is_usable(expected, rest);
        assert(events[events.len() - 1] == events.last());
    }
}

/// The presentation is asked for, announced and kept only where Herdr has just been
/// found to have the focus, with nothing in between but the drawing of the screen.
pub proof fn law_focus_is_confirmed(expected: Option<Seq<char>>, events: Seq<RenderEventView>)
    ensures
        ({
            let run = popup_run(expected, events);
            match run.state.asks() {
                RenderActionView::Present(PresenterCommandView::Release { .. }) => true,
                RenderActionView::Present(_) => run.confirmed,
                _ => true,
            }
        }),
{
    lemma_sound(expected, events);
}

/// Nothing is drawn without a lease. What is drawn is the text of the last snapshot,
/// and that is of the session that the popup was opened for, in a state in which it may
/// be shown.
pub proof fn law_drawing_is_leased_and_current(
    expected: Option<Seq<char>>,
    events: Seq<RenderEventView>,
)
    ensures
        ({
            let run = popup_run(expected, events);
            run.state.asks() matches RenderActionView::Draw(text) ==> {
                &&& run.held is Some
                &&& run.latest matches Some(snapshot)
                &&& text == screen(snapshot.dictation.text)
                &&& snapshot.dictation.presentable_session() is Some
                &&& snapshot.dictation.presentable_session() == expected
            }
        }),
        popup_run(expected, events).granted == 0 ==> popup_run(expected, events).shown is None,
{
    lemma_sound(expected, events);
}

/// When the dictation is announced, when the lease is renewed, and when the next status
/// is awaited under a lease, the screen shows the text of the last snapshot.
pub proof fn law_screen_is_current(expected: Option<Seq<char>>, events: Seq<RenderEventView>)
    ensures
        ({
            let run = popup_run(expected, events);
            let awaited = match run.state.asks() {
                RenderActionView::Present(PresenterCommandView::Ready { .. }) => true,
                RenderActionView::Present(PresenterCommandView::Renew { .. }) => true,
                RenderActionView::NextStatus(Some(_)) => true,
                _ => false,
            };
            awaited ==> {
                &&& run.latest matches Some(snapshot)
                &&& run.shown == Some(screen(snapshot.dictation.text))
            }
        }),
{
    lemma_sound(expected, events);
}

/// What reaches the terminal, from first to last, is one screen for the text of the
/// snapshot for which the lease was granted, and one for each later text that Herdr had
/// the focus for and that differs from the one before. While a screen is being written
/// only that one is missing, and so it stays if it cannot be written.
pub proof fn law_output_follows_the_texts(expected: Option<Seq<char>>, events: Seq<RenderEventView>)
    ensures
        ({
            let run = popup_run(expected, events);
            match run.state.asks() {
                RenderActionView::Draw(text) => run.drawn.push(text) == screens(run.texts),
                _ => if run.spoiled {
                    screens(run.texts).len() > 0 && run.drawn == screens(run.texts).drop_last()
                } else {
                    run.drawn == screens(run.texts)
                },
            }
        }),
{
    lemma_sound(expected, events);
    let run = popup_run(expected, events);
    if run.state is Drawing || run.state is Redrawing {
        lemma_screens(run.texts);
    }
}

/// Before the first snapshot the popup asks for the present status, and then for the one
/// that follows the last snapshot.
pub proof fn law_status_is_asked_for_in_turn(
    expected: Option<Seq<char>>,
    events: Seq<RenderEventView>,
)
    ensures
        ({
            let run = popup_run(expected, events);
            run.state.asks() matches RenderActionView::NextStatus(since) ==> since
                == match run.latest {
                Some(snapshot) => Some(snapshot.seq),
                None => None,
            }
        }),
{
    lemma_sound(expected, events);
}

/// Whatever goes wrong under a lease, the next thing that the popup does is to give it
/// back: the focus is lost, the status fails, the session ends or changes, a command is
/// rejected, or the screen cannot be written. Only the last is an error of the run.
pub proof fn law_trouble_releases(
    expected: Option<Seq<char>>,
    events: Seq<RenderEventView>,
    event: RenderEventView,
)
    requires
        ({
            let run = popup_run(expected, events);
            &&& run.held is Some
            &&& !(run.state is Releasing)
            &&& answers(run.state, event)
            &&& match event {
                RenderEventView::Foreground(focus) => !focus,
                RenderEventView::Status(Ok(snapshot)) => snapshot.dictation.presentable_session()
                    != expected,
                RenderEventView::Status(Err(_)) => true,
                RenderEventView::Presented(result) => result is Err,
                RenderEventView::Drawn(result) => result is Err,
                _ => false,
            }
        }),
    ensures
        popup_run(expected, events.push(event)).state == (RenderModel::Releasing {
            lease: popup_run(expected, events).held->0,
            result: match event {
                RenderEventView::Drawn(result) => result,
                _ => Ok(()),
            },
        }),
{
    lemma_sound(expected, events);
    assert(events.push(event).drop_last() =~= events);
}

/// Once the lease is given back the run ends, with the result that it had by then,
/// whether or not Don't Speak took the command.
pub proof fn law_release_ends_the_run(
    lease: GuardView,
    result: Result<(), Seq<char>>,
    answer: Result<(), ClientError>,
)
    ensures
        (RenderModel::Releasing { lease, result }).asks() == RenderActionView::Present(
            lease.release(),
        ),
        (RenderModel::Releasing { lease, result }).after(RenderEventView::Presented(answer))
            == (RenderModel::Finished { result }),
{
}

/// A popup that must not present closes at once, without a lease and without a word:
/// the session is not the expected one or may not be shown, or Herdr is in the
/// background.
pub proof fn law_fails_closed(
    expected: Option<Seq<char>>,
    events: Seq<RenderEventView>,
    event: RenderEventView,
)
    requires
        ({
            let state = popup_run(expected, events).state;
            match event {
                RenderEventView::Status(Ok(snapshot)) => state is Starting
                    && snapshot.dictation.presentable_session() != expected,
                RenderEventView::Foreground(focus) => state is Checking && !focus,
                RenderEventView::Leased(leased) => state is Acquiring && leased is Err,
                _ => false,
            }
        }),
    ensures
        ({
            let run = popup_run(expected, events.push(event));
            &&& run.state == RenderModel::closed()
            &&& run.granted == 0
            &&& run.shown is None
        }),
{
    lemma_sound(expected, events);
    assert(events.push(event).drop_last() =~= events);
}

/// The first status is asked for a bounded number of times. When all of them fail the
/// popup closes.
pub proof fn law_first_status_is_bounded(
    expected: Option<Seq<char>>,
    events: Seq<RenderEventView>,
)
    ensures
        popup_run(expected, events).failures <= MAX_CONSECUTIVE_FAILURES,
        popup_run(expected, events).failures == MAX_CONSECUTIVE_FAILURES
            && popup_run(expected, events).latest is None ==> popup_run(expected, events).state
            == RenderModel::closed(),
    decreases events.len(),
{
    lemma_sound(expected, events);
    if events.len() > 0 {
        lemma_sound(expected, events.drop_last());
        law_first_status_is_bounded(expected, events.drop_last());
    }
}

/// What reaches the terminal of a transcript holds no control character but line ends
/// and tabs, and has as many characters as the transcript.
pub proof fn law_transcript_is_safe(text: Seq<char>)
    ensures
        safe_text(text).len() == text.len(),
        forall|i: int|
            0 <= i < text.len() && control(#[trigger] safe_text(text)[i]) ==> safe_text(text)[i]
                == '\n' || safe_text(text)[i] == '\t',
        screen(text) == clear_screen() + safe_text(text),
{
}

/// Only control characters are changed, and a safe text is shown as it is.
pub proof fn law_safe_text_is_stable(text: Seq<char>)
    ensures
        forall|i: int|
            0 <= i < text.len() && !control(text[i]) ==> #[trigger] safe_text(text)[i] == text[i],
        safe_text(safe_text(text)) == safe_text(text),
{
    assert(safe_text(safe_text(text)) =~= safe_text(text));
}

/// A popup that was opened for a session asks for the present status first. One that was
/// opened for none ends at once.
pub proof fn law_popup_asks_first(expected: Option<Seq<char>>)
    ensures
        popup_run(expected, seq![]).state.asks() == if expected is Some {
            RenderActionView::NextStatus(None)
        } else {
            RenderActionView::Exit(Ok(()))
        },
{
}

/// An answer that was not asked for changes nothing.
pub proof fn law_unasked_answers_are_ignored(state: RenderModel, event: RenderEventView)
    requires
        !answers(state, event),
    ensures
        state.after(event) == state,
{
}

/// The first status that comes decides: if it shows the session that the popup was opened
/// for, whatever its text, the focus is asked for, and otherwise the popup ends. A status
/// that could not be had is asked for again after a pause, up to the third.
pub proof fn law_first_status_decides(
    expected: Option<Seq<char>>,
    events: Seq<RenderEventView>,
    event: RenderEventView,
)
    requires
        popup_run(expected, events).latest is None,
        answers(popup_run(expected, events).state, event),
    ensures
        ({
            let run = popup_run(expected, events);
            let next = popup_run(expected, events.push(event));
            next.state.asks() == match event {
                RenderEventView::Status(Ok(snapshot)) => if expected is Some
                    && snapshot.dictation.presentable_session() == expected {
                    RenderActionView::CheckForeground
                } else {
                    RenderActionView::Exit(Ok(()))
                },
                RenderEventView::Status(Err(_)) => if run.failures < 2 {
                    RenderActionView::Sleep(RETRY_DELAY_MS)
                } else {
                    RenderActionView::Exit(Ok(()))
                },
                _ => RenderActionView::NextStatus(None),
            }
        }),
{
    lemma_sound(expected, events);
    assert(events.push(event).drop_last() =~= events);
}

/// With the focus the presentation is asked for, in the name of the popup and for its
/// session. With a lease the text is drawn, the empty one too. Without the one or the
/// other the popup ends.
pub proof fn law_popup_takes_the_presentation(
    expected: Option<Seq<char>>,
    events: Seq<RenderEventView>,
    event: RenderEventView,
)
    requires
        popup_run(expected, events).latest is Some,
        popup_run(expected, events).granted == 0,
        answers(popup_run(expected, events).state, event),
    ensures
        ({
            let run = popup_run(expected, events);
            let next = popup_run(expected, events.push(event));
            next.state.asks() == match event {
                RenderEventView::Foreground(true) => RenderActionView::Present(
                    PresenterCommandView::Acquire {
                        presenter_id: PRESENTER_ID@,
                        session_id: expected->0,
                        ttl_ms: PRESENTER_TTL_MS,
                    },
                ),
                RenderEventView::Leased(Ok(_)) => RenderActionView::Draw(
                    screen(run.latest->0.dictation.text),
                ),
                _ => RenderActionView::Exit(Ok(())),
            }
        }),
{
    lemma_sound(expected, events);
    assert(events.push(event).drop_last() =~= events);
}

/// A lease that was granted is announced once the text is drawn and the focus is
/// confirmed, by its own identifier and for the session. From the announcement on the
/// next status is awaited.
pub proof fn law_popup_announces(
    expected: Option<Seq<char>>,
    events: Seq<RenderEventView>,
    event: RenderEventView,
)
    requires
        popup_run(expected, events).held is Some,
        !popup_run(expected, events).announced,
        !(popup_run(expected, events).state is Releasing),
        answers(popup_run(expected, events).state, event),
        !trouble(event, expected),
    ensures
        ({
            let run = popup_run(expected, events);
            let next = popup_run(expected, events.push(event));
            let lease = run.held->0;
            next.state.asks() == match event {
                RenderEventView::Drawn(_) => RenderActionView::CheckForeground,
                RenderEventView::Foreground(_) => RenderActionView::Present(
                    PresenterCommandView::Ready {
                        lease_id: lease.lease_id,
                        session_id: lease.session_id,
                    },
                ),
                _ => RenderActionView::NextStatus(Some(run.latest->0.seq)),
            }
        }),
{
    lemma_sound(expected, events);
    assert(events.push(event).drop_last() =~= events);
}

/// While the session goes on, each status leads to a look at the focus, a text that differs
/// from the one shown is drawn, the lease is renewed, and the next status is awaited.
pub proof fn law_popup_follows(
    expected: Option<Seq<char>>,
    events: Seq<RenderEventView>,
    event: RenderEventView,
)
    requires
        popup_run(expected, events).held is Some,
        popup_run(expected, events).announced,
        !(popup_run(expected, events).state is Releasing),
        answers(popup_run(expected, events).state, event),
        !trouble(event, expected),
    ensures
        ({
            let run = popup_run(expected, events);
            let next = popup_run(expected, events.push(event));
            let lease = run.held->0;
            let text = run.latest->0.dictation.text;
            let renewal = RenderActionView::Present(
                PresenterCommandView::Renew {
                    lease_id: lease.lease_id,
                    session_id: lease.session_id,
                    ttl_ms: PRESENTER_TTL_MS,
                },
            );
            next.state.asks() == match event {
                RenderEventView::Status(_) => RenderActionView::CheckForeground,
                RenderEventView::Foreground(_) => if run.texts.last() != text {
                    RenderActionView::Draw(screen(text))
                } else {
                    renewal
                },
                RenderEventView::Drawn(_) => renewal,
                _ => RenderActionView::NextStatus(Some(run.latest->0.seq)),
            }
        }),
{
    lemma_sound(expected, events);
    assert(events.push(event).drop_last() =~= events);
}

/// What ends a presentation: the focus is lost, the status fails or shows another session or
/// none, a command is not taken, or the screen cannot be written.
pub open spec fn trouble(event: RenderEventView, expected: Option<Seq<char>>) -> bool {
    match event {
        RenderEventView::Foreground(focus) => !focus,
        RenderEventView::Status(Ok(snapshot)) => snapshot.dictation.presentable_session()
            != expected,
        RenderEventView::Status(Err(_)) => true,
        RenderEventView::Presented(result) => result is Err,
        RenderEventView::Drawn(result) => result is Err,
        _ => false,
    }
}

/// The lease that is given back is the one that was granted, for the session of the popup.
/// After that the popup ends, with an error only where a screen could not be written.
pub proof fn law_popup_ends(
    expected: Option<Seq<char>>,
    events: Seq<RenderEventView>,
    event: RenderEventView,
)
    requires
        popup_run(expected, events).held is Some,
        answers(popup_run(expected, events).state, event),
        popup_run(expected, events).state is Releasing || trouble(event, expected),
    ensures
        ({
            let run = popup_run(expected, events);
            let next = popup_run(expected, events.push(event));
            let lease = run.held->0;
            let released = RenderActionView::Present(
                PresenterCommandView::Release {
                    lease_id: lease.lease_id,
                    session_id: lease.session_id,
                },
            );
            if run.state is Releasing {
                run.state.asks() == released && next.state.asks() == RenderActionView::Exit(
                    outcome(run),
                )
            } else {
                next.state.asks() == released
            }
        }),
{
    lemma_sound(expected, events);
    assert(events.push(event).drop_last() =~= events);
}

/// A popup that has ended stays so.
pub proof fn law_popup_stays_closed(
    expected: Option<Seq<char>>,
    events: Seq<RenderEventView>,
    event: RenderEventView,
)
    requires
        popup_run(expected, events).state.asks() is Exit,
    ensures
        popup_run(expected, events.push(event)).state == popup_run(expected, events).state,
        popup_run(expected, events).state.asks() == RenderActionView::Exit(
            outcome(popup_run(expected, events)),
        ),
{
    lemma_sound(expected, events);
    assert(events.push(event).drop_last() =~= events);
}

/// A popup whose session may be shown, in focus and with a lease, comes to show it: it asks
/// for the presentation, draws the text whatever it is, announces it and awaits the next
/// status.
pub proof fn law_popup_comes_to_show(session_id: Seq<char>, snapshot: SnapshotView, lease: LeaseView)
    requires
        snapshot.dictation.presentable_session() == Some(session_id),
    ensures
        ({
            let seen = RenderModel::start(Some(session_id)).after(
                RenderEventView::Status(Ok(snapshot)),
            );
            let acquiring = seen.after(RenderEventView::Foreground(true));
            let drawing = acquiring.after(RenderEventView::Leased(Ok(lease)));
            let drawn = drawing.after(RenderEventView::Drawn(Ok(())));
            let announcing = drawn.after(RenderEventView::Foreground(true));
            let following = announcing.after(RenderEventView::Presented(Ok(())));
            &&& seen.asks() == RenderActionView::CheckForeground
            &&& acquiring.asks() == RenderActionView::Present(
                PresenterCommandView::Acquire {
                    presenter_id: PRESENTER_ID@,
                    session_id,
                    ttl_ms: PRESENTER_TTL_MS,
                },
            )
            &&& drawing.asks() == RenderActionView::Draw(screen(snapshot.dictation.text))
            &&& drawn.asks() == RenderActionView::CheckForeground
            &&& announcing.asks() == RenderActionView::Present(
                PresenterCommandView::Ready { lease_id: lease.lease_id, session_id },
            )
            &&& following.asks() == RenderActionView::NextStatus(Some(snapshot.seq))
        }),
{
}

/// At whatever attempt the first status comes, what follows is the same.
pub proof fn law_attempts_are_alike(
    expected: Seq<char>,
    attempt: usize,
    other: usize,
    snapshot: SnapshotView,
)
    ensures
        ({
            let event = RenderEventView::Status(Ok(snapshot));
            let next = (RenderModel::Starting { expected, attempt }).after(event);
            &&& next == (RenderModel::Starting { expected, attempt: other }).after(event)
            &&& next == if snapshot.dictation.presentable_session() == Some(expected) {
                RenderModel::Checking {
                    session_id: expected,
                    transcript: TranscriptView { seq: snapshot.seq, text: snapshot.dictation.text },
                }
            } else {
                RenderModel::Finished { result: Ok(()) }
            }
        }),
{
}

/// A failed attempt is followed by a pause and another exactly if it was not the third.
pub proof fn law_attempts_are_counted(expected: Seq<char>, attempt: usize, error: ClientError)
    ensures
        ({
            let failed = (RenderModel::Starting { expected, attempt }).after(
                RenderEventView::Status(Err(error)),
            );
            if attempt < 2 {
                &&& failed.asks() == RenderActionView::Sleep(RETRY_DELAY_MS)
                &&& failed.after(RenderEventView::Slept) == (RenderModel::Starting {
                    expected,
                    attempt: (attempt + 1) as usize,
                })
            } else {
                failed.asks() == RenderActionView::Exit(Ok(()))
            }
        }),
{
}

/// A screen is the text after the clearing of the terminal. In the text a control character
/// is a space, but for line ends and tabs, and all else stays, each in its place.
pub proof fn law_screen_is_cleared_and_safe(text: Seq<char>)
    ensures
        screen(text) == "\x1b[2J\x1b[H"@ + safe_text(text),
        safe_text(text).len() == text.len(),
        forall|i: int|
            0 <= i < text.len() ==> #[trigger] safe_text(text)[i] == if control(text[i]) && text[i]
                != '\n' && text[i] != '\t' {
                ' '
            } else {
                text[i]
            },
{
}

} // verus!
