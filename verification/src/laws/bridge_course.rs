//! Laws of the bridge's course: what each answer leads to, when Herdr is probed, and when
//! the popup is opened and opened again.

use vstd::prelude::*;

use crate::bridge::{reconciling, HerdrCommandView, POPUP_RETRY_INTERVAL_NS};
use crate::bridge_loop::{
    Afterwards, BridgeActionView, BridgeEventView, BridgeModel, BridgeStop, LogLine, PhaseModel,
};
use crate::dictation::PRESENTER_TTL_MS;
use crate::dontspeak::ClientError;
use crate::laws::bridge_run::answers;
use crate::laws::status::law_no_failures;
use crate::model::SnapshotView;
use crate::ordered::keys;

verus! {

/// The bridge begins with nothing seen and nothing opened, and reads the time.
pub proof fn law_bridge_begins()
    ensures
        ({
            let state = BridgeModel::start();
            &&& state.asks() == BridgeActionView::ReadClock
            &&& state.phase is Clock
            &&& state.seq is None && state.seen.len() == 0 && state.last_probe is None
            &&& state.opened_session is None && state.popup_opened_at is None
            &&& state.probe_failures == 0 && state.metadata_failures == 0 && !state.unavailable
        }),
{
}

/// An answer that was not asked for changes nothing, and an end is final.
pub proof fn law_bridge_ignores_other_answers(state: BridgeModel, event: BridgeEventView)
    ensures
        state.asks() is Exit ==> state.after(event) == state,
        state.phase matches PhaseModel::Reporting { command, .. } ==> command is Report ==> (
        !answers(state, event) ==> state.after(event) == state),
        !(state.phase is Reporting) && !answers(state, event) ==> state.after(event) == state,
{
}

/// What the bridge waits for is what it asks for.
pub proof fn law_bridge_asks_for_what_it_waits_for(state: BridgeModel)
    ensures
        match state.phase {
            PhaseModel::Clock | PhaseModel::ProbeClock => state.asks()
                == BridgeActionView::ReadClock,
            PhaseModel::PopupClock { .. } => state.asks() == BridgeActionView::ReadClock,
            PhaseModel::Binary => state.asks() == BridgeActionView::CheckBinary,
            PhaseModel::Panes => state.asks() == BridgeActionView::Herdr(
                HerdrCommandView::PaneList,
            ),
            PhaseModel::Plugins => state.asks() == BridgeActionView::Herdr(
                HerdrCommandView::PluginList,
            ),
            PhaseModel::Status => state.asks() == BridgeActionView::NextStatus(state.seq),
            PhaseModel::Reconnecting { .. } => state.asks() == BridgeActionView::Log(
                LogLine::Reconnected,
            ),
            PhaseModel::Disconnecting { error } => state.asks() == BridgeActionView::Log(
                LogLine::Unavailable(error),
            ),
            PhaseModel::Reporting { command, .. } => state.asks() == BridgeActionView::Herdr(
                command,
            ),
            PhaseModel::Clearing { pane_id, .. } => state.asks() == BridgeActionView::Herdr(
                HerdrCommandView::Report { pane_id, value: None },
            ),
            PhaseModel::Foreground { .. } => state.asks() == BridgeActionView::CheckForeground,
            PhaseModel::Opening { session_id, .. } => state.asks() == BridgeActionView::Herdr(
                HerdrCommandView::OpenPopup { session_id },
            ),
            PhaseModel::Sleeping => state.asks() == BridgeActionView::Sleep(2_000),
            PhaseModel::Exited { stop } => state.asks() == BridgeActionView::Exit(stop),
        },
{
}

/// At least five seconds lie between the two readings of the clock, where there is a first.
pub open spec fn five_seconds_since(first: Option<u128>, now: u128) -> bool {
    first is None || now >= first->0 + 5_000_000_000
}

/// A round begins with a probe exactly if there was none yet or five seconds have passed
/// since the last, and otherwise with the status. Nothing else changes.
pub proof fn law_round_probes_when_due(state: BridgeModel, now: u128)
    requires
        state.phase is Clock,
    ensures
        state.after(BridgeEventView::Clock(now)) == (BridgeModel {
            phase: if five_seconds_since(state.last_probe, now) {
                PhaseModel::Binary
            } else {
                PhaseModel::Status
            },
            ..state
        }),
{
}

/// A probe that is due stays due.
pub proof fn law_probe_stays_due(state: BridgeModel, now: u128, later: u128)
    requires
        state.phase is Clock,
        now <= later,
        state.after(BridgeEventView::Clock(now)).asks() == BridgeActionView::CheckBinary,
    ensures
        state.after(BridgeEventView::Clock(later)).asks() == BridgeActionView::CheckBinary,
{
}

/// The state in which all labels are cleared and the bridge goes on or ends. Before it goes on
/// it forgets the number of the last snapshot and the popup.
pub open spec fn at_rest(state: BridgeModel, afterwards: Afterwards) -> BridgeModel {
    let bare = BridgeModel { seen: seq![], ..state };
    match afterwards {
        Afterwards::Retry => BridgeModel {
            phase: PhaseModel::Sleeping,
            seq: None,
            opened_session: None,
            popup_opened_at: None,
            ..bare
        },
        Afterwards::Stop(stop) => BridgeModel { phase: PhaseModel::Exited { stop }, ..bare },
    }
}

/// The bridge turns to the clearing of every label seen, from the first to the last, or comes to
/// rest where there is none.
pub open spec fn turns_to_clearing(
    state: BridgeModel,
    next: BridgeModel,
    afterwards: Afterwards,
) -> bool {
    if state.seen.len() == 0 {
        next == at_rest(state, afterwards)
    } else {
        next == (BridgeModel {
            phase: PhaseModel::Clearing {
                pane_id: state.seen[0],
                remaining: state.seen.drop_first(),
                afterwards,
            },
            seen: seq![],
            ..state
        })
    }
}

/// Labels are cleared one after the other, whether or not Herdr takes it, and then the bridge
/// comes to rest.
pub proof fn law_clearing_goes_on(
    state: BridgeModel,
    pane_id: Seq<char>,
    remaining: Seq<Seq<char>>,
    afterwards: Afterwards,
    success: bool,
)
    requires
        state.phase == (PhaseModel::Clearing { pane_id, remaining, afterwards }),
        state.seen.len() == 0,
    ensures
        turns_to_clearing(
            BridgeModel { seen: remaining, ..state },
            state.after(BridgeEventView::Command(success)),
            afterwards,
        ),
{
    assert(state.seen =~= seq![]);
}

/// A program that was replaced ends the bridge, without an error. Otherwise the panes are
/// listed.
pub proof fn law_replaced_program_ends_the_bridge(state: BridgeModel, current: bool)
    requires
        state.phase is Binary,
    ensures
        ({
            let next = state.after(BridgeEventView::BinaryCurrent(current));
            if current {
                next == (BridgeModel { phase: PhaseModel::Panes, ..state })
            } else {
                turns_to_clearing(state, next, Afterwards::Stop(BridgeStop::Replaced))
            }
        }),
{
}

/// What an answer to a probe leads to where it does not reach Herdr: the third in a row ends the
/// bridge, and before that they are counted.
pub open spec fn herdr_missed(state: BridgeModel, next: BridgeModel) -> bool {
    if state.probe_failures >= 2 {
        turns_to_clearing(state, next, Afterwards::Stop(BridgeStop::HerdrUnavailable))
    } else {
        next == (BridgeModel {
            phase: PhaseModel::ProbeClock,
            probe_failures: (state.probe_failures + 1) as usize,
            ..state
        })
    }
}

/// A probe lists the panes and then the plugin. Where both are found it counts as none that
/// failed, a plugin that is not enabled ends the bridge, and all else misses Herdr.
pub proof fn law_probe_leads_on(state: BridgeModel, success: bool, enabled: Option<bool>)
    ensures
        state.phase is Panes ==> ({
            let next = state.after(BridgeEventView::Command(success));
            if success {
                next == (BridgeModel { phase: PhaseModel::Plugins, ..state })
            } else {
                herdr_missed(state, next)
            }
        }),
        state.phase is Plugins ==> ({
            let next = state.after(BridgeEventView::Plugins(enabled));
            match enabled {
                Some(true) => next == (BridgeModel {
                    phase: PhaseModel::ProbeClock,
                    probe_failures: 0,
                    ..state
                }),
                Some(false) => turns_to_clearing(
                    state,
                    next,
                    Afterwards::Stop(BridgeStop::PluginUnavailable),
                ),
                None => herdr_missed(state, next),
            }
        }),
{
}

/// After a probe the time is noted, from which the next is counted, and the status is asked
/// for.
pub proof fn law_probe_time_is_noted(state: BridgeModel, now: u128)
    requires
        state.phase is ProbeClock,
    ensures
        state.after(BridgeEventView::Clock(now)) == (BridgeModel {
            phase: PhaseModel::Status,
            last_probe: Some(now),
            ..state
        }),
{
}

/// After the labels: where a session may be shown the focus is asked for, and otherwise the popup
/// is forgotten and a new round begins.
pub open spec fn labelled(state: BridgeModel, snapshot: SnapshotView) -> BridgeModel {
    if snapshot.dictation.presentable_session() is Some {
        BridgeModel { phase: PhaseModel::Foreground { snapshot }, ..state }
    } else {
        BridgeModel {
            phase: PhaseModel::Clock,
            opened_session: None,
            popup_opened_at: None,
            ..state
        }
    }
}

/// The bridge turns to the labels of a snapshot, whose panes are those seen from then on: it gives
/// the first command, or is done with them where there is none.
pub open spec fn turns_to_labels(
    state: BridgeModel,
    next: BridgeModel,
    snapshot: SnapshotView,
) -> bool {
    let commands = reconciling(snapshot.metadata(), state.seen);
    let seeing = BridgeModel { seen: keys(snapshot.metadata()), ..state };
    if commands.len() == 0 {
        next == labelled(BridgeModel { metadata_failures: 0, ..seeing }, snapshot)
    } else {
        next == (BridgeModel {
            phase: PhaseModel::Reporting {
                snapshot,
                command: commands[0],
                rest: commands.drop_first(),
                results: seq![],
            },
            ..seeing
        })
    }
}

/// A snapshot is remembered by its number, and its labels are turned to. Where there was no status
/// before, that is logged first.
pub proof fn law_status_leads_to_labels(state: BridgeModel, snapshot: SnapshotView)
    ensures
        state.phase is Status ==> ({
            let next = state.after(BridgeEventView::Status(Ok(snapshot)));
            let had = BridgeModel { seq: Some(snapshot.seq), unavailable: false, ..state };
            if state.unavailable {
                next == (BridgeModel { phase: PhaseModel::Reconnecting { snapshot }, ..had })
            } else {
                turns_to_labels(had, next, snapshot)
            }
        }),
        state.phase == (PhaseModel::Reconnecting { snapshot }) ==> turns_to_labels(
            state,
            state.after(BridgeEventView::Done),
            snapshot,
        ),
{
    let commands = reconciling(snapshot.metadata(), state.seen);
    if commands.len() == 0 {
        law_no_failures(seq![]);
    }
}

/// Where there is no status all labels are cleared before it is asked for again. The first time,
/// that is logged first.
pub proof fn law_no_status_leads_to_clearing(state: BridgeModel, error: ClientError)
    ensures
        state.phase is Status ==> ({
            let next = state.after(BridgeEventView::Status(Err(error)));
            let lacking = BridgeModel { unavailable: true, ..state };
            if state.unavailable {
                turns_to_clearing(lacking, next, Afterwards::Retry)
            } else {
                next == (BridgeModel { phase: PhaseModel::Disconnecting { error }, ..lacking })
            }
        }),
        state.phase is Disconnecting ==> turns_to_clearing(
            state,
            state.after(BridgeEventView::Done),
            Afterwards::Retry,
        ),
        state.phase is Sleeping ==> state.after(BridgeEventView::Done) == (BridgeModel {
            phase: PhaseModel::Clock,
            ..state
        }),
{
}

/// The commands of a snapshot are given one after the other, whether or not Herdr takes them. After
/// the last, all of them taken or not decides: then the snapshot counts as none that failed, or
/// as one more, and the third in a row ends the bridge.
pub proof fn law_reports_go_on(
    state: BridgeModel,
    snapshot: SnapshotView,
    command: HerdrCommandView,
    rest: Seq<HerdrCommandView>,
    results: Seq<bool>,
    success: bool,
)
    requires
        state.phase == (PhaseModel::Reporting { snapshot, command, rest, results }),
    ensures
        ({
            let next = state.after(BridgeEventView::Command(success));
            let all_taken = success && forall|i: int|
                0 <= i < results.len() ==> #[trigger] results[i];
            if rest.len() > 0 {
                next == (BridgeModel {
                    phase: PhaseModel::Reporting {
                        snapshot,
                        command: rest[0],
                        rest: rest.drop_first(),
                        results: results.push(success),
                    },
                    ..state
                })
            } else if all_taken {
                next == labelled(BridgeModel { metadata_failures: 0, ..state }, snapshot)
            } else if state.metadata_failures >= 2 {
                turns_to_clearing(state, next, Afterwards::Stop(BridgeStop::MetadataRejected))
            } else {
                next == labelled(
                    BridgeModel {
                        metadata_failures: (state.metadata_failures + 1) as usize,
                        ..state
                    },
                    snapshot,
                )
            }
        }),
{
    let all = results.push(success);
    law_no_failures(all);
    if success && forall|i: int| 0 <= i < results.len() ==> #[trigger] results[i] {
        assert forall|i: int| 0 <= i < all.len() implies #[trigger] all[i] by {
            if i < results.len() {
                assert(results[i]);
            }
        }
    } else if !success {
        assert(!all[results.len() as int]);
    } else {
        let i = choose|i: int| 0 <= i < results.len() && !(#[trigger] results[i]);
        assert(!all[i]);
    }
}

/// With the focus the time is read for the popup. Without it the popup is forgotten and a new round
/// begins.
pub proof fn law_focus_decides(state: BridgeModel, snapshot: SnapshotView, focus: bool)
    requires
        state.phase == (PhaseModel::Foreground { snapshot }),
    ensures
        state.after(BridgeEventView::Foreground(focus)) == if focus {
            BridgeModel { phase: PhaseModel::PopupClock { snapshot }, ..state }
        } else {
            BridgeModel {
                phase: PhaseModel::Clock,
                opened_session: None,
                popup_opened_at: None,
                ..state
            }
        },
{
}

/// The popup is opened for the session that may be shown, unless something else shows it or it was
/// opened less than five seconds before. What is remembered of the popup stays either way.
pub proof fn law_popup_is_opened_when_due(
    state: BridgeModel,
    snapshot: SnapshotView,
    session_id: Seq<char>,
    now: u128,
)
    requires
        state.phase == (PhaseModel::PopupClock { snapshot }),
        snapshot.dictation.presentable_session() == Some(session_id),
    ensures
        ({
            let due = !snapshot.dictation.external_ui_active && (state.opened_session != Some(
                session_id,
            ) || (state.popup_opened_at is Some && now >= state.popup_opened_at->0
                + 5_000_000_000));
            state.after(BridgeEventView::Clock(now)) == (BridgeModel {
                phase: if due {
                    PhaseModel::Opening { session_id, at: now }
                } else {
                    PhaseModel::Clock
                },
                ..state
            })
        }),
{
}

/// A popup that Herdr opened is remembered with the time for which it was asked. One that it did
/// not open leaves what is remembered. Either way a new round begins.
pub proof fn law_opened_popup_is_remembered(
    state: BridgeModel,
    session_id: Seq<char>,
    at: u128,
    success: bool,
)
    requires
        state.phase == (PhaseModel::Opening { session_id, at }),
    ensures
        state.after(BridgeEventView::Command(success)) == if success {
            BridgeModel {
                phase: PhaseModel::Clock,
                opened_session: Some(session_id),
                popup_opened_at: Some(at),
                ..state
            }
        } else {
            BridgeModel { phase: PhaseModel::Clock, ..state }
        },
{
}

/// The bridge forgets or changes what it remembers of the popup only on an opened popup, on a
/// snapshot without a session to show, without the focus, and after there was no status.
pub proof fn law_popup_is_forgotten_only_with_cause(state: BridgeModel, event: BridgeEventView)
    ensures
        ({
            let next = state.after(event);
            next.opened_session == state.opened_session && next.popup_opened_at
                == state.popup_opened_at || match (state.phase, event) {
                (PhaseModel::Opening { .. }, BridgeEventView::Command(success)) => success,
                (PhaseModel::Foreground { .. }, BridgeEventView::Foreground(focus)) => !focus,
                (PhaseModel::Status, BridgeEventView::Status(Ok(snapshot))) =>
                    snapshot.dictation.presentable_session() is None,
                (PhaseModel::Reconnecting { snapshot }, BridgeEventView::Done) =>
                    snapshot.dictation.presentable_session() is None,
                (PhaseModel::Reporting { snapshot, .. }, BridgeEventView::Command(_)) =>
                    snapshot.dictation.presentable_session() is None,
                (PhaseModel::Status, BridgeEventView::Status(Err(_))) => true,
                (PhaseModel::Disconnecting { .. }, BridgeEventView::Done) => true,
                (PhaseModel::Clearing { afterwards, .. }, BridgeEventView::Command(_)) => afterwards
                    == Afterwards::Retry,
                _ => false,
            }
        }),
{
}

/// The course of the bridge, with what an onlooker would note of its events.
pub struct BridgeCourse {
    pub state: BridgeModel,
    /// The session whose popup Herdr last opened and the time for which that was asked, unless
    /// since then a status failed or showed no session, or Herdr had not the focus.
    pub opened: Option<(Seq<char>, u128)>,
    /// The last reading of the clock.
    pub now: u128,
    /// A probe is under way, or the time after it was not read yet.
    pub probing: bool,
    /// The first reading of the clock after the last probe.
    pub probed_at: Option<u128>,
    /// Don't Speak gave no status when it was last asked.
    pub lost: bool,
}

impl BridgeCourse {
    /// Before anything happened.
    pub open spec fn begin() -> BridgeCourse {
        BridgeCourse {
            state: BridgeModel::start(),
            opened: None,
            now: 0,
            probing: false,
            probed_at: None,
            lost: false,
        }
    }

    /// After one more event.
    pub open spec fn with(self, event: BridgeEventView) -> BridgeCourse {
        let next = BridgeCourse { state: self.state.after(event), ..self };
        if !answers(self.state, event) {
            next
        } else {
            match event {
                BridgeEventView::Clock(now) => if self.probing {
                    BridgeCourse { now, probing: false, probed_at: Some(now), ..next }
                } else {
                    BridgeCourse { now, ..next }
                },
                BridgeEventView::BinaryCurrent(current) => BridgeCourse {
                    probing: current,
                    ..next
                },
                BridgeEventView::Status(Ok(snapshot)) => BridgeCourse {
                    lost: false,
                    opened: if snapshot.dictation.presentable_session() is Some {
                        self.opened
                    } else {
                        None
                    },
                    ..next
                },
                BridgeEventView::Status(Err(_)) => BridgeCourse {
                    lost: true,
                    opened: None,
                    ..next
                },
                BridgeEventView::Foreground(focus) => BridgeCourse {
                    opened: if focus {
                        self.opened
                    } else {
                        None
                    },
                    ..next
                },
                BridgeEventView::Command(success) => match self.state.asks() {
                    BridgeActionView::Herdr(HerdrCommandView::OpenPopup { session_id })
                        if success => BridgeCourse {
                        opened: Some((session_id, self.now)),
                        ..next
                    },
                    _ => next,
                },
                _ => next,
            }
        }
    }
}

/// The course after all the events.
pub open spec fn bridge_course(events: Seq<BridgeEventView>) -> BridgeCourse
    decreases events.len(),
{
    if events.len() == 0 {
        BridgeCourse::begin()
    } else {
        bridge_course(events.drop_last()).with(events.last())
    }
}

/// The bridge remembers of the popup what the onlooker notes.
spec fn remembers(course: BridgeCourse) -> bool {
    match course.opened {
        Some((session_id, at)) => course.state.opened_session == Some(session_id)
            && course.state.popup_opened_at == Some(at),
        None => course.state.opened_session is None && course.state.popup_opened_at is None,
    }
}

/// What the bridge remembers while it is busy with a snapshot.
spec fn remembers_for(course: BridgeCourse, snapshot: SnapshotView) -> bool {
    if snapshot.dictation.presentable_session() is Some {
        remembers(course)
    } else {
        course.opened is None
    }
}

spec fn kept(course: BridgeCourse) -> bool {
    &&& course.state.last_probe == course.probed_at
    &&& course.state.unavailable == course.lost
    &&& match course.state.phase {
        PhaseModel::Panes | PhaseModel::Plugins | PhaseModel::ProbeClock => course.probing
            && remembers(course),
        PhaseModel::Reconnecting { snapshot } => !course.probing && remembers_for(course, snapshot),
        PhaseModel::Reporting { snapshot, command, rest, .. } => {
            &&& !course.probing
            &&& remembers_for(course, snapshot)
            &&& command is Report
            &&& forall|i: int| 0 <= i < rest.len() ==> (#[trigger] rest[i]) is Report
        },
        PhaseModel::Foreground { snapshot } => {
            &&& !course.probing
            &&& remembers(course)
            &&& snapshot.dictation.presentable_session() is Some
        },
        PhaseModel::PopupClock { snapshot } => {
            &&& !course.probing
            &&& remembers(course)
            &&& snapshot.dictation.presentable_session() is Some
        },
        PhaseModel::Opening { at, .. } => {
            &&& !course.probing
            &&& remembers(course)
            &&& at == course.now
        },
        PhaseModel::Disconnecting { .. } => !course.probing && course.opened is None,
        PhaseModel::Clearing { afterwards, .. } => afterwards == Afterwards::Retry ==> {
            &&& !course.probing
            &&& course.opened is None
        },
        PhaseModel::Exited { .. } => true,
        _ => !course.probing && remembers(course),
    }
}

proof fn lemma_reports(snapshot: SnapshotView, seen: Seq<Seq<char>>)
    ensures
        ({
            let commands = reconciling(snapshot.metadata(), seen);
            forall|i: int| 0 <= i < commands.len() ==> (#[trigger] commands[i]) is Report
        }),
{
}

proof fn lemma_kept_step(course: BridgeCourse, event: BridgeEventView)
    requires
        kept(course),
    ensures
        kept(course.with(event)),
{
    match event {
        BridgeEventView::Status(Ok(snapshot)) => lemma_reports(snapshot, course.state.seen),
        _ => {},
    }
    match course.state.phase {
        PhaseModel::Reconnecting { snapshot } => lemma_reports(snapshot, course.state.seen),
        _ => {},
    }
}

proof fn lemma_kept(events: Seq<BridgeEventView>)
    ensures
        kept(bridge_course(events)),
    decreases events.len(),
{
    if events.len() > 0 {
        lemma_kept(events.drop_last());
        lemma_kept_step(bridge_course(events.drop_last()), events.last());
    }
}

/// Whatever came before, a round whose reading of the clock is at least five seconds after the
/// first reading after the last probe begins with a probe, as does the first round. Any other
/// begins with the status.
pub proof fn law_herdr_is_probed_by_the_clock(events: Seq<BridgeEventView>, now: u128)
    requires
        bridge_course(events).state.phase is Clock,
    ensures
        ({
            let course = bridge_course(events);
            let next = bridge_course(events.push(BridgeEventView::Clock(now)));
            if five_seconds_since(course.probed_at, now) {
                next.state.asks() == BridgeActionView::CheckBinary
            } else {
                next.state.asks() == BridgeActionView::NextStatus(course.state.seq)
            }
        }),
{
    lemma_kept(events);
    assert(events.push(BridgeEventView::Clock(now)).drop_last() =~= events);
}

/// Whatever came before, a session that may be shown, in focus and shown nowhere else, gets its
/// popup exactly if the onlooker has not noted it as opened less than five seconds before the
/// reading of the clock.
pub proof fn law_popup_is_opened_by_the_clock(
    events: Seq<BridgeEventView>,
    now: u128,
    snapshot: SnapshotView,
    session_id: Seq<char>,
)
    requires
        bridge_course(events).state.phase == (PhaseModel::PopupClock { snapshot }),
        snapshot.dictation.presentable_session() == Some(session_id),
    ensures
        ({
            let course = bridge_course(events);
            let next = bridge_course(events.push(BridgeEventView::Clock(now)));
            let open = match course.opened {
                Some((session, at)) => session == session_id && now < at + 5_000_000_000,
                None => false,
            };
            if open || snapshot.dictation.external_ui_active {
                next.state.asks() == BridgeActionView::ReadClock && next.state.phase is Clock
            } else {
                next.state.asks() == BridgeActionView::Herdr(
                    HerdrCommandView::OpenPopup { session_id },
                )
            }
        }),
{
    lemma_kept(events);
    assert(events.push(BridgeEventView::Clock(now)).drop_last() =~= events);
}

/// The answer makes an opened popup count for nothing: there is no status, it shows no session,
/// Herdr has not the focus, or a popup is opened anew.
pub open spec fn ends_opening(state: BridgeModel, event: BridgeEventView) -> bool {
    answers(state, event) && match event {
        BridgeEventView::Status(Ok(snapshot)) => snapshot.dictation.presentable_session() is None,
        BridgeEventView::Status(Err(_)) => true,
        BridgeEventView::Foreground(focus) => !focus,
        BridgeEventView::Command(success) => success && match state.asks() {
            BridgeActionView::Herdr(HerdrCommandView::OpenPopup { .. }) => true,
            _ => false,
        },
        _ => false,
    }
}

/// Between two openings of one session's popup, the first of them taken, at least five seconds
/// lie by the clock, which is longer than a lease lasts, unless in between there was no status, or
/// no session to show, or no focus, or another popup was opened.
pub proof fn law_popup_is_not_reopened_early(
    first: Seq<BridgeEventView>,
    between: Seq<BridgeEventView>,
    session_id: Seq<char>,
)
    requires
        bridge_course(first).state.asks() == BridgeActionView::Herdr(
            HerdrCommandView::OpenPopup { session_id },
        ),
        bridge_course(first.push(BridgeEventView::Command(true)) + between).state.asks()
            == BridgeActionView::Herdr(HerdrCommandView::OpenPopup { session_id }),
        forall|k: int|
            0 <= k < between.len() ==> !ends_opening(
                bridge_course(
                    first.push(BridgeEventView::Command(true)) + between.take(k),
                ).state,
                #[trigger] between[k],
            ),
    ensures
        ({
            let opened = bridge_course(first).now;
            let again = bridge_course(first.push(BridgeEventView::Command(true)) + between).now;
            &&& again - opened >= POPUP_RETRY_INTERVAL_NS
            &&& again - opened > PRESENTER_TTL_MS * 1_000_000
        }),
{
    let all = first.push(BridgeEventView::Command(true)) + between;
    lemma_still_opened(first, between, session_id, between.len() as int);
    assert(between.take(between.len() as int) =~= between);
    lemma_kept(all);
    lemma_opening_is_due(all);
}

proof fn lemma_still_opened(
    first: Seq<BridgeEventView>,
    between: Seq<BridgeEventView>,
    session_id: Seq<char>,
    n: int,
)
    requires
        bridge_course(first).state.asks() == BridgeActionView::Herdr(
            HerdrCommandView::OpenPopup { session_id },
        ),
        0 <= n <= between.len(),
        forall|k: int|
            0 <= k < between.len() ==> !ends_opening(
                bridge_course(
                    first.push(BridgeEventView::Command(true)) + between.take(k),
                ).state,
                #[trigger] between[k],
            ),
    ensures
        bridge_course(first.push(BridgeEventView::Command(true)) + between.take(n)).opened == Some(
            (session_id, bridge_course(first).now),
        ),
    decreases n,
{
    let taken = first.push(BridgeEventView::Command(true));
    if n == 0 {
        assert(taken + between.take(0) =~= taken);
        assert(taken.drop_last() =~= first);
    } else {
        lemma_still_opened(first, between, session_id, n - 1);
        let before = taken + between.take(n - 1);
        assert((taken + between.take(n)).drop_last() =~= before);
        assert((taken + between.take(n)).last() == between[n - 1]);
        assert(!ends_opening(bridge_course(before).state, between[n - 1]));
    }
}

/// An opening that is asked for is due by what the onlooker noted.
spec fn opening_due(course: BridgeCourse) -> bool {
    course.state.phase matches PhaseModel::Opening { session_id, at } ==> match course.opened {
        Some((session, before)) => session == session_id ==> at - before
            >= POPUP_RETRY_INTERVAL_NS,
        None => true,
    }
}

proof fn lemma_opening_is_due(events: Seq<BridgeEventView>)
    ensures
        opening_due(bridge_course(events)),
        bridge_course(events).state.asks() matches BridgeActionView::Herdr(
            HerdrCommandView::OpenPopup { session_id },
        ) ==> bridge_course(events).state.phase == (PhaseModel::Opening {
            session_id,
            at: bridge_course(events).now,
        }),
    decreases events.len(),
{
    lemma_kept(events);
    if events.len() > 0 {
        lemma_opening_is_due(events.drop_last());
        lemma_kept(events.drop_last());
    }
}

} // verus!
