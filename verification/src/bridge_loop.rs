//! The life of the bridge, one answer at a time: when Herdr is probed, when the
//! labels are reported and cleared, when the popup is opened, and when it ends.

use vstd::prelude::*;

use crate::bridge::{
    clear_command, commands_view, count_failures, failures, popup_candidate, popup_open_candidate, presentable_session,
    probe_herdr, probed, reconcile_metadata, reconciling, HerdrCommand, HerdrCommandView,
    HerdrProbe, Reconciliation, FAILURE_BACKOFF_MS, HERDR_PROBE_INTERVAL_NS, MAX_HERDR_FAILURES,
};
use crate::dictation::said;
use crate::dontspeak::ClientError;
use crate::model::{SnapshotView, StatusSnapshot};
use crate::ordered::keys;
use crate::text::joined;

verus! {

/// Why the bridge ends.
#[derive(Debug, Clone, Copy, PartialEq, Eq, Structural)]
pub enum BridgeStop {
    /// The program on disk is no longer the one that runs.
    Replaced,
    /// The plugin is not enabled any more.
    PluginUnavailable,
    /// Herdr could not be reached, several times in a row.
    HerdrUnavailable,
    /// Herdr did not take the labels, several times in a row.
    MetadataRejected,
}

impl BridgeStop {
    /// What is said of the end, where it is an error.
    pub open spec fn text(self) -> Result<(), Seq<char>> {
        match self {
            BridgeStop::Replaced => Ok(()),
            BridgeStop::PluginUnavailable => Ok(()),
            BridgeStop::HerdrUnavailable => Err("Herdr server is no longer available"@),
            BridgeStop::MetadataRejected => Err("Herdr rejected repeated metadata updates"@),
        }
    }

    /// What is said of the end, where it is an error.
    pub fn result(&self) -> (r: Result<(), String>)
        ensures
            said(r) == self.text(),
    {
        match self {
            BridgeStop::Replaced => Ok(()),
            BridgeStop::PluginUnavailable => Ok(()),
            BridgeStop::HerdrUnavailable => Err("Herdr server is no longer available".to_string()),
            BridgeStop::MetadataRejected => Err(
                "Herdr rejected repeated metadata updates".to_string(),
            ),
        }
    }
}

/// A line of the bridge's log.
#[derive(Debug, Clone, Copy, PartialEq, Eq, Structural)]
pub enum LogLine {
    /// Don't Speak gives a status again.
    Reconnected,
    /// Don't Speak gives no status any more.
    Unavailable(ClientError),
}

impl LogLine {
    /// The words of the line.
    pub open spec fn text(self) -> Seq<char> {
        match self {
            LogLine::Reconnected => "dontspeak-voice: Don’t Speak status reconnected"@,
            LogLine::Unavailable(error) => "dontspeak-voice: "@ + error.text() + "; retrying"@,
        }
    }

    /// The words of the line.
    pub fn message(&self) -> (r: String)
        ensures
            r@ == self.text(),
    {
        match self {
            LogLine::Reconnected => "dontspeak-voice: Don’t Speak status reconnected".to_string(),
            LogLine::Unavailable(error) => joined(
                "dontspeak-voice: ",
                error.message().as_str(),
            ).concat("; retrying"),
        }
    }
}

/// What follows once all labels are cleared.
#[derive(Debug, Clone, Copy, PartialEq, Eq, Structural)]
pub enum Afterwards {
    /// The status is asked for again, after a pause.
    Retry,
    /// The bridge ends.
    Stop(BridgeStop),
}

/// What the bridge waits for.
#[derive(Debug)]
pub enum BridgePhase {
    /// The time, at the start of a round.
    Clock,
    /// Whether the program was replaced.
    Binary,
    /// Whether Herdr lists its panes.
    Panes,
    /// Whether Herdr has the plugin enabled.
    Plugins,
    /// The time, after a probe.
    ProbeClock,
    /// The status.
    Status,
    /// A line in the log, before the labels are reported.
    Reconnecting { snapshot: StatusSnapshot },
    /// The labels of a snapshot, one command after the other, with whether Herdr took
    /// those before.
    Reporting {
        snapshot: StatusSnapshot,
        command: HerdrCommand,
        rest: Vec<HerdrCommand>,
        results: Vec<bool>,
    },
    /// Whether Herdr has the focus.
    Foreground { snapshot: StatusSnapshot },
    /// The time, before the popup is opened.
    PopupClock { snapshot: StatusSnapshot },
    /// The popup.
    Opening { session_id: String, at: u128 },
    /// A line in the log, before the labels are cleared.
    Disconnecting { error: ClientError },
    /// The labels that are cleared, one pane after the other.
    Clearing { pane_id: String, remaining: Vec<String>, afterwards: Afterwards },
    /// The end of a pause.
    Sleeping,
    /// Nothing more.
    Exited { stop: BridgeStop },
}

/// The contents of a [`BridgePhase`].
pub enum PhaseModel {
    Clock,
    Binary,
    Panes,
    Plugins,
    ProbeClock,
    Status,
    Reconnecting { snapshot: SnapshotView },
    Reporting {
        snapshot: SnapshotView,
        command: HerdrCommandView,
        rest: Seq<HerdrCommandView>,
        results: Seq<bool>,
    },
    Foreground { snapshot: SnapshotView },
    PopupClock { snapshot: SnapshotView },
    Opening { session_id: Seq<char>, at: u128 },
    Disconnecting { error: ClientError },
    Clearing { pane_id: Seq<char>, remaining: Seq<Seq<char>>, afterwards: Afterwards },
    Sleeping,
    Exited { stop: BridgeStop },
}

impl View for BridgePhase {
    type V = PhaseModel;

    open spec fn view(&self) -> PhaseModel {
        match self {
            BridgePhase::Clock => PhaseModel::Clock,
            BridgePhase::Binary => PhaseModel::Binary,
            BridgePhase::Panes => PhaseModel::Panes,
            BridgePhase::Plugins => PhaseModel::Plugins,
            BridgePhase::ProbeClock => PhaseModel::ProbeClock,
            BridgePhase::Status => PhaseModel::Status,
            BridgePhase::Reconnecting { snapshot } => PhaseModel::Reconnecting {
                snapshot: snapshot@,
            },
            BridgePhase::Reporting { snapshot, command, rest, results } => PhaseModel::Reporting {
                snapshot: snapshot@,
                command: command@,
                rest: commands_view(rest@),
                results: results@,
            },
            BridgePhase::Foreground { snapshot } => PhaseModel::Foreground { snapshot: snapshot@ },
            BridgePhase::PopupClock { snapshot } => PhaseModel::PopupClock { snapshot: snapshot@ },
            BridgePhase::Opening { session_id, at } => PhaseModel::Opening {
                session_id: session_id@,
                at: *at,
            },
            BridgePhase::Disconnecting { error } => PhaseModel::Disconnecting { error: *error },
            BridgePhase::Clearing { pane_id, remaining, afterwards } => PhaseModel::Clearing {
                pane_id: pane_id@,
                remaining: remaining.deep_view(),
                afterwards: *afterwards,
            },
            BridgePhase::Sleeping => PhaseModel::Sleeping,
            BridgePhase::Exited { stop } => PhaseModel::Exited { stop: *stop },
        }
    }
}

/// The bridge: what it waits for, and what it keeps from round to round.
#[derive(Debug)]
pub struct BridgeState {
    pub phase: BridgePhase,
    /// The number of the last snapshot.
    pub seq: Option<u64>,
    /// The panes that have a label, in order.
    pub seen: Vec<String>,
    /// The session whose popup was opened.
    pub opened_session: Option<String>,
    /// When it was opened, in nanoseconds.
    pub popup_opened_at: Option<u128>,
    /// How many probes failed in a row.
    pub probe_failures: usize,
    /// How many snapshots in a row had a label that Herdr did not take.
    pub metadata_failures: usize,
    /// When Herdr was last probed, in nanoseconds.
    pub last_probe: Option<u128>,
    /// Whether Don't Speak gave no status when it was last asked.
    pub unavailable: bool,
}

/// The contents of a [`BridgeState`].
pub struct BridgeModel {
    pub phase: PhaseModel,
    pub seq: Option<u64>,
    pub seen: Seq<Seq<char>>,
    pub opened_session: Option<Seq<char>>,
    pub popup_opened_at: Option<u128>,
    pub probe_failures: usize,
    pub metadata_failures: usize,
    pub last_probe: Option<u128>,
    pub unavailable: bool,
}

impl View for BridgeState {
    type V = BridgeModel;

    open spec fn view(&self) -> BridgeModel {
        BridgeModel {
            phase: self.phase@,
            seq: self.seq,
            seen: self.seen.deep_view(),
            opened_session: self.opened_session.deep_view(),
            popup_opened_at: self.popup_opened_at,
            probe_failures: self.probe_failures,
            metadata_failures: self.metadata_failures,
            last_probe: self.last_probe,
            unavailable: self.unavailable,
        }
    }
}

/// What the bridge is to do next.
#[derive(Debug, PartialEq, Eq)]
pub enum BridgeAction {
    /// Read the time, in nanoseconds from any one start.
    ReadClock,
    /// See whether the program was replaced.
    CheckBinary,
    /// Give Herdr a command.
    Herdr(HerdrCommand),
    /// Ask for the status: the next one after a number, or the present one.
    NextStatus(Option<u64>),
    /// Ask whether Herdr has the focus.
    CheckForeground,
    /// Write a line to the log.
    Log(LogLine),
    /// Wait, for so many milliseconds.
    Sleep(u64),
    /// End.
    Exit(BridgeStop),
}

/// The contents of a [`BridgeAction`].
pub enum BridgeActionView {
    ReadClock,
    CheckBinary,
    Herdr(HerdrCommandView),
    NextStatus(Option<u64>),
    CheckForeground,
    Log(LogLine),
    Sleep(u64),
    Exit(BridgeStop),
}

impl View for BridgeAction {
    type V = BridgeActionView;

    open spec fn view(&self) -> BridgeActionView {
        match self {
            BridgeAction::ReadClock => BridgeActionView::ReadClock,
            BridgeAction::CheckBinary => BridgeActionView::CheckBinary,
            BridgeAction::Herdr(command) => BridgeActionView::Herdr(command@),
            BridgeAction::NextStatus(since) => BridgeActionView::NextStatus(*since),
            BridgeAction::CheckForeground => BridgeActionView::CheckForeground,
            BridgeAction::Log(line) => BridgeActionView::Log(*line),
            BridgeAction::Sleep(ms) => BridgeActionView::Sleep(*ms),
            BridgeAction::Exit(stop) => BridgeActionView::Exit(*stop),
        }
    }
}

/// What came of the bridge's last action.
#[derive(Debug)]
pub enum BridgeEvent {
    /// The time.
    Clock(u128),
    /// Whether the program is still the one that runs.
    BinaryCurrent(bool),
    /// Whether Herdr took a command.
    Command(bool),
    /// Whether the plugin is enabled, as far as that is known.
    Plugins(Option<bool>),
    /// The status, or why there is none.
    Status(Result<StatusSnapshot, ClientError>),
    /// Whether Herdr is known to have the focus.
    Foreground(bool),
    /// The line is written, or the pause is over.
    Done,
}

/// The contents of a [`BridgeEvent`].
pub enum BridgeEventView {
    Clock(u128),
    BinaryCurrent(bool),
    Command(bool),
    Plugins(Option<bool>),
    Status(Result<SnapshotView, ClientError>),
    Foreground(bool),
    Done,
}

impl View for BridgeEvent {
    type V = BridgeEventView;

    open spec fn view(&self) -> BridgeEventView {
        match self {
            BridgeEvent::Clock(now) => BridgeEventView::Clock(*now),
            BridgeEvent::BinaryCurrent(current) => BridgeEventView::BinaryCurrent(*current),
            BridgeEvent::Command(success) => BridgeEventView::Command(*success),
            BridgeEvent::Plugins(enabled) => BridgeEventView::Plugins(*enabled),
            BridgeEvent::Status(Ok(snapshot)) => BridgeEventView::Status(Ok(snapshot@)),
            BridgeEvent::Status(Err(error)) => BridgeEventView::Status(Err(*error)),
            BridgeEvent::Foreground(focus) => BridgeEventView::Foreground(*focus),
            BridgeEvent::Done => BridgeEventView::Done,
        }
    }
}

impl BridgeModel {
    /// Nothing seen, and nothing asked yet.
    pub open spec fn start() -> BridgeModel {
        BridgeModel {
            phase: PhaseModel::Clock,
            seq: None,
            seen: seq![],
            opened_session: None,
            popup_opened_at: None,
            probe_failures: 0,
            metadata_failures: 0,
            last_probe: None,
            unavailable: false,
        }
    }

    /// The same, in another phase.
    pub open spec fn at(self, phase: PhaseModel) -> BridgeModel {
        BridgeModel { phase, ..self }
    }

    /// It is time to probe Herdr: at first, and then at intervals.
    pub open spec fn probe_due(self, now: u128) -> bool {
        self.last_probe matches Some(at) ==> now - at >= HERDR_PROBE_INTERVAL_NS
    }

    /// All labels are cleared. Before a retry the bridge forgets what it has seen.
    pub open spec fn cleared(self, afterwards: Afterwards) -> BridgeModel {
        match afterwards {
            Afterwards::Retry => BridgeModel {
                phase: PhaseModel::Sleeping,
                seq: None,
                opened_session: None,
                popup_opened_at: None,
                ..self
            },
            Afterwards::Stop(stop) => self.at(PhaseModel::Exited { stop }),
        }
    }

    /// The labels of the panes are cleared, one after the other.
    pub open spec fn clearing(self, panes: Seq<Seq<char>>, afterwards: Afterwards) -> BridgeModel {
        if panes.len() > 0 {
            self.at(
                PhaseModel::Clearing {
                    pane_id: panes[0],
                    remaining: panes.drop_first(),
                    afterwards,
                },
            )
        } else {
            self.cleared(afterwards)
        }
    }

    /// All labels are cleared, one after the other.
    pub open spec fn clearing_all(self, afterwards: Afterwards) -> BridgeModel {
        BridgeModel { seen: seq![], ..self }.clearing(self.seen, afterwards)
    }

    /// After a probe the time is noted, unless the bridge ends.
    pub open spec fn after_probe(self, probe: HerdrProbe) -> BridgeModel {
        match probe {
            HerdrProbe::Ready => BridgeModel {
                phase: PhaseModel::ProbeClock,
                probe_failures: 0,
                ..self
            },
            HerdrProbe::PluginUnavailable => self.clearing_all(
                Afterwards::Stop(BridgeStop::PluginUnavailable),
            ),
            HerdrProbe::ServerUnavailable => if self.probe_failures + 1 >= MAX_HERDR_FAILURES {
                self.clearing_all(Afterwards::Stop(BridgeStop::HerdrUnavailable))
            } else {
                BridgeModel {
                    phase: PhaseModel::ProbeClock,
                    probe_failures: (self.probe_failures + 1) as usize,
                    ..self
                }
            },
        }
    }

    /// No popup counts as open, and a new round begins.
    pub open spec fn without_popup(self) -> BridgeModel {
        BridgeModel {
            phase: PhaseModel::Clock,
            opened_session: None,
            popup_opened_at: None,
            ..self
        }
    }

    /// After the labels, the dictation: if it may be shown, the focus is asked for.
    pub open spec fn after_labels(self, snapshot: SnapshotView) -> BridgeModel {
        if snapshot.dictation.presentable_session() is Some {
            self.at(PhaseModel::Foreground { snapshot })
        } else {
            self.without_popup()
        }
    }

    /// All labels of a snapshot were reported, and so many were not taken.
    pub open spec fn reported(self, snapshot: SnapshotView, failures: nat) -> BridgeModel {
        if failures == 0 {
            BridgeModel { metadata_failures: 0, ..self }.after_labels(snapshot)
        } else if self.metadata_failures + 1 >= MAX_HERDR_FAILURES {
            self.clearing_all(Afterwards::Stop(BridgeStop::MetadataRejected))
        } else {
            BridgeModel {
                metadata_failures: (self.metadata_failures + 1) as usize,
                ..self
            }.after_labels(snapshot)
        }
    }

    /// The labels of a snapshot are reported, one command after the other.
    pub open spec fn reporting(
        self,
        snapshot: SnapshotView,
        commands: Seq<HerdrCommandView>,
        results: Seq<bool>,
    ) -> BridgeModel {
        if commands.len() > 0 {
            self.at(
                PhaseModel::Reporting {
                    snapshot,
                    command: commands[0],
                    rest: commands.drop_first(),
                    results,
                },
            )
        } else {
            self.reported(snapshot, failures(results))
        }
    }

    /// The labels of a snapshot take the place of those that are seen.
    pub open spec fn mirroring(self, snapshot: SnapshotView) -> BridgeModel {
        BridgeModel { seen: keys(snapshot.metadata()), ..self }.reporting(
            snapshot,
            reconciling(snapshot.metadata(), self.seen),
            seq![],
        )
    }

    /// What is to be done next.
    pub open spec fn asks(self) -> BridgeActionView {
        match self.phase {
            PhaseModel::Clock => BridgeActionView::ReadClock,
            PhaseModel::Binary => BridgeActionView::CheckBinary,
            PhaseModel::Panes => BridgeActionView::Herdr(HerdrCommandView::PaneList),
            PhaseModel::Plugins => BridgeActionView::Herdr(HerdrCommandView::PluginList),
            PhaseModel::ProbeClock => BridgeActionView::ReadClock,
            PhaseModel::Status => BridgeActionView::NextStatus(self.seq),
            PhaseModel::Reconnecting { .. } => BridgeActionView::Log(LogLine::Reconnected),
            PhaseModel::Reporting { command, .. } => BridgeActionView::Herdr(command),
            PhaseModel::Foreground { .. } => BridgeActionView::CheckForeground,
            PhaseModel::PopupClock { .. } => BridgeActionView::ReadClock,
            PhaseModel::Opening { session_id, .. } => BridgeActionView::Herdr(
                HerdrCommandView::OpenPopup { session_id },
            ),
            PhaseModel::Disconnecting { error } => BridgeActionView::Log(
                LogLine::Unavailable(error),
            ),
            PhaseModel::Clearing { pane_id, .. } => BridgeActionView::Herdr(
                clear_command(pane_id),
            ),
            PhaseModel::Sleeping => BridgeActionView::Sleep(FAILURE_BACKOFF_MS),
            PhaseModel::Exited { stop } => BridgeActionView::Exit(stop),
        }
    }

    /// The state after an event. An event that was not asked for changes nothing.
    pub open spec fn after(self, event: BridgeEventView) -> BridgeModel {
        match (self.phase, event) {
            (PhaseModel::Clock, BridgeEventView::Clock(now)) => if self.probe_due(now) {
                self.at(PhaseModel::Binary)
            } else {
                self.at(PhaseModel::Status)
            },
            (PhaseModel::Binary, BridgeEventView::BinaryCurrent(current)) => if current {
                self.at(PhaseModel::Panes)
            } else {
                self.clearing_all(Afterwards::Stop(BridgeStop::Replaced))
            },
            (PhaseModel::Panes, BridgeEventView::Command(success)) => if success {
                self.at(PhaseModel::Plugins)
            } else {
                self.after_probe(probed(false, None))
            },
            (PhaseModel::Plugins, BridgeEventView::Plugins(enabled)) => self.after_probe(
                probed(true, enabled),
            ),
            (PhaseModel::ProbeClock, BridgeEventView::Clock(now)) => BridgeModel {
                phase: PhaseModel::Status,
                last_probe: Some(now),
                ..self
            },
            (PhaseModel::Status, BridgeEventView::Status(Ok(snapshot))) => {
                let next = BridgeModel { seq: Some(snapshot.seq), unavailable: false, ..self };
                if self.unavailable {
                    next.at(PhaseModel::Reconnecting { snapshot })
                } else {
                    next.mirroring(snapshot)
                }
            },
            (PhaseModel::Status, BridgeEventView::Status(Err(error))) => {
                let next = BridgeModel { unavailable: true, ..self };
                if self.unavailable {
                    next.clearing_all(Afterwards::Retry)
                } else {
                    next.at(PhaseModel::Disconnecting { error })
                }
            },
            (PhaseModel::Reconnecting { snapshot }, BridgeEventView::Done) => self.mirroring(
                snapshot,
            ),
            (
                PhaseModel::Reporting { snapshot, rest, results, .. },
                BridgeEventView::Command(success),
            ) => self.reporting(snapshot, rest, results.push(success)),
            (PhaseModel::Foreground { snapshot }, BridgeEventView::Foreground(focus)) => if focus {
                self.at(PhaseModel::PopupClock { snapshot })
            } else {
                self.without_popup()
            },
            (PhaseModel::PopupClock { snapshot }, BridgeEventView::Clock(now)) => {
                match popup_candidate(
                    snapshot.dictation,
                    self.opened_session,
                    self.popup_opened_at,
                    now,
                    true,
                ) {
                    Some(session_id) => self.at(PhaseModel::Opening { session_id, at: now }),
                    None => self.at(PhaseModel::Clock),
                }
            },
            (PhaseModel::Opening { session_id, at }, BridgeEventView::Command(success)) => if success {
                BridgeModel {
                    phase: PhaseModel::Clock,
                    opened_session: Some(session_id),
                    popup_opened_at: Some(at),
                    ..self
                }
            } else {
                self.at(PhaseModel::Clock)
            },
            (PhaseModel::Disconnecting { .. }, BridgeEventView::Done) => self.clearing_all(
                Afterwards::Retry,
            ),
            (
                PhaseModel::Clearing { remaining, afterwards, .. },
                BridgeEventView::Command(_),
            ) => self.clearing(remaining, afterwards),
            (PhaseModel::Sleeping, BridgeEventView::Done) => self.at(PhaseModel::Clock),
            _ => self,
        }
    }
}

/// The bridge before its first round.
pub fn start() -> (r: BridgeState)
    ensures
        r@ == BridgeModel::start(),
{
    let r: BridgeState = BridgeState {
        phase: BridgePhase::Clock,
        seq: None,
        seen: Vec::new(),
        opened_session: None,
        popup_opened_at: None,
        probe_failures: 0,
        metadata_failures: 0,
        last_probe: None,
        unavailable: false,
    };
    assert(r@.seen =~= seq![]);
    r
}

impl BridgeState {
    /// What is to be done next.
    pub fn action(&self) -> (r: BridgeAction)
        ensures
            r@ == self@.asks(),
    {
        match &self.phase {
            BridgePhase::Clock => BridgeAction::ReadClock,
            BridgePhase::Binary => BridgeAction::CheckBinary,
            BridgePhase::Panes => BridgeAction::Herdr(HerdrCommand::PaneList),
            BridgePhase::Plugins => BridgeAction::Herdr(HerdrCommand::PluginList),
            BridgePhase::ProbeClock => BridgeAction::ReadClock,
            BridgePhase::Status => BridgeAction::NextStatus(self.seq),
            BridgePhase::Reconnecting { .. } => BridgeAction::Log(LogLine::Reconnected),
            BridgePhase::Reporting { command, .. } => BridgeAction::Herdr(command.copied()),
            BridgePhase::Foreground { .. } => BridgeAction::CheckForeground,
            BridgePhase::PopupClock { .. } => BridgeAction::ReadClock,
            BridgePhase::Opening { session_id, .. } => BridgeAction::Herdr(
                HerdrCommand::OpenPopup { session_id: session_id.clone() },
            ),
            BridgePhase::Disconnecting { error } => BridgeAction::Log(LogLine::Unavailable(*error)),
            BridgePhase::Clearing { pane_id, .. } => BridgeAction::Herdr(
                HerdrCommand::Report { pane_id: pane_id.clone(), value: None },
            ),
            BridgePhase::Sleeping => BridgeAction::Sleep(FAILURE_BACKOFF_MS),
            BridgePhase::Exited { stop } => BridgeAction::Exit(*stop),
        }
    }

    fn at(self, phase: BridgePhase) -> (r: BridgeState)
        ensures
            r@ == self@.at(phase@),
    {
        BridgeState { phase, ..self }
    }

    fn probe_due(&self, now: u128) -> (r: bool)
        ensures
            r == self@.probe_due(now),
    {
        match self.last_probe {
            Some(at) => now >= at && now - at >= HERDR_PROBE_INTERVAL_NS,
            None => true,
        }
    }

    fn clearing(self, panes: Vec<String>, afterwards: Afterwards) -> (r: BridgeState)
        ensures
            r@ == self@.clearing(panes.deep_view(), afterwards),
    {
        let ghost all = panes.deep_view();
        let mut remaining: Vec<String> = panes;
        if remaining.len() > 0 {
            let pane_id: String = remaining.remove(0);
            assert(remaining.deep_view() =~= all.drop_first());
            self.at(BridgePhase::Clearing { pane_id, remaining, afterwards })
        } else {
            match afterwards {
                Afterwards::Retry => BridgeState {
                    phase: BridgePhase::Sleeping,
                    seq: None,
                    opened_session: None,
                    popup_opened_at: None,
                    ..self
                },
                Afterwards::Stop(stop) => self.at(BridgePhase::Exited { stop }),
            }
        }
    }

    fn clear_all(self, afterwards: Afterwards) -> (r: BridgeState)
        ensures
            r@ == self@.clearing_all(afterwards),
    {
        let mut state: BridgeState = self;
        let mut panes: Vec<String> = Vec::new();
        panes.append(&mut state.seen);
        assert(state.seen.deep_view() =~= seq![]);
        assert(panes.deep_view() =~= self@.seen);
        state.clearing(panes, afterwards)
    }

    fn after_probe(self, probe: HerdrProbe) -> (r: BridgeState)
        ensures
            r@ == self@.after_probe(probe),
    {
        match probe {
            HerdrProbe::Ready => BridgeState {
                phase: BridgePhase::ProbeClock,
                probe_failures: 0,
                ..self
            },
            HerdrProbe::PluginUnavailable => self.clear_all(
                Afterwards::Stop(BridgeStop::PluginUnavailable),
            ),
            HerdrProbe::ServerUnavailable => {
                if self.probe_failures >= MAX_HERDR_FAILURES - 1 {
                    self.clear_all(Afterwards::Stop(BridgeStop::HerdrUnavailable))
                } else {
                    BridgeState {
                        phase: BridgePhase::ProbeClock,
                        probe_failures: self.probe_failures + 1,
                        ..self
                    }
                }
            },
        }
    }

    fn without_popup(self) -> (r: BridgeState)
        ensures
            r@ == self@.without_popup(),
    {
        BridgeState {
            phase: BridgePhase::Clock,
            opened_session: None,
            popup_opened_at: None,
            ..self
        }
    }

    fn after_labels(self, snapshot: StatusSnapshot) -> (r: BridgeState)
        ensures
            r@ == self@.after_labels(snapshot@),
    {
        if presentable_session(&snapshot).is_some() {
            self.at(BridgePhase::Foreground { snapshot })
        } else {
            self.without_popup()
        }
    }

    fn reported(self, snapshot: StatusSnapshot, failures: usize) -> (r: BridgeState)
        ensures
            r@ == self@.reported(snapshot@, failures as nat),
    {
        if failures == 0 {
            BridgeState { metadata_failures: 0, ..self }.after_labels(snapshot)
        } else if self.metadata_failures >= MAX_HERDR_FAILURES - 1 {
            self.clear_all(Afterwards::Stop(BridgeStop::MetadataRejected))
        } else {
            BridgeState { metadata_failures: self.metadata_failures + 1, ..self }.after_labels(
                snapshot,
            )
        }
    }

    fn reporting(
        self,
        snapshot: StatusSnapshot,
        commands: Vec<HerdrCommand>,
        results: Vec<bool>,
    ) -> (r: BridgeState)
        ensures
            r@ == self@.reporting(snapshot@, commands_view(commands@), results@),
    {
        let ghost all = commands_view(commands@);
        let mut rest: Vec<HerdrCommand> = commands;
        if rest.len() > 0 {
            let command: HerdrCommand = rest.remove(0);
            assert(commands_view(rest@) =~= all.drop_first());
            self.at(BridgePhase::Reporting { snapshot, command, rest, results })
        } else {
            self.reported(snapshot, count_failures(&results))
        }
    }

    fn mirroring(self, snapshot: StatusSnapshot) -> (r: BridgeState)
        ensures
            r@ == self@.mirroring(snapshot@),
    {
        let plan: Reconciliation = reconcile_metadata(&snapshot, &self.seen);
        BridgeState { seen: plan.seen, ..self }.reporting(
            snapshot,
            plan.commands,
            Vec::new(),
        )
    }

    fn opening(self, snapshot: StatusSnapshot, now: u128) -> (r: BridgeState)
        ensures
            r@ == match popup_candidate(
                snapshot@.dictation,
                self@.opened_session,
                self@.popup_opened_at,
                now,
                true,
            ) {
                Some(session_id) => self@.at(PhaseModel::Opening { session_id, at: now }),
                None => self@.at(PhaseModel::Clock),
            },
    {
        let opened: Option<&str> = match &self.opened_session {
            Some(session_id) => Some(session_id.as_str()),
            None => None,
        };
        match popup_open_candidate(&snapshot, opened, self.popup_opened_at, now, true) {
            Some(session_id) => {
                let session_id: String = session_id.to_string();
                self.at(BridgePhase::Opening { session_id, at: now })
            },
            None => self.at(BridgePhase::Clock),
        }
    }
}

/// Takes in what came of the bridge's last action.
pub fn bridge_loop(state: BridgeState, event: BridgeEvent) -> (r: BridgeState)
    ensures
        r@ == state@.after(event@),
{
    let BridgeState {
        phase,
        seq,
        seen,
        opened_session,
        popup_opened_at,
        probe_failures,
        metadata_failures,
        last_probe,
        unavailable,
    } = state;
    let bridge: BridgeState = BridgeState {
        phase: BridgePhase::Clock,
        seq,
        seen,
        opened_session,
        popup_opened_at,
        probe_failures,
        metadata_failures,
        last_probe,
        unavailable,
    };
    match (phase, event) {
        (BridgePhase::Clock, BridgeEvent::Clock(now)) => {
            if bridge.probe_due(now) {
                bridge.at(BridgePhase::Binary)
            } else {
                bridge.at(BridgePhase::Status)
            }
        },
        (BridgePhase::Binary, BridgeEvent::BinaryCurrent(current)) => {
            if current {
                bridge.at(BridgePhase::Panes)
            } else {
                bridge.clear_all(Afterwards::Stop(BridgeStop::Replaced))
            }
        },
        (BridgePhase::Panes, BridgeEvent::Command(success)) => {
            if success {
                bridge.at(BridgePhase::Plugins)
            } else {
                bridge.after_probe(probe_herdr(false, None))
            }
        },
        (BridgePhase::Plugins, BridgeEvent::Plugins(enabled)) => bridge.after_probe(
            probe_herdr(true, enabled),
        ),
        (BridgePhase::ProbeClock, BridgeEvent::Clock(now)) => BridgeState {
            phase: BridgePhase::Status,
            last_probe: Some(now),
            ..bridge
        },
        (BridgePhase::Status, BridgeEvent::Status(Ok(snapshot))) => {
            let was_unavailable: bool = bridge.unavailable;
            let next: BridgeState = BridgeState {
                seq: Some(snapshot.seq),
                unavailable: false,
                ..bridge
            };
            if was_unavailable {
                next.at(BridgePhase::Reconnecting { snapshot })
            } else {
                next.mirroring(snapshot)
            }
        },
        (BridgePhase::Status, BridgeEvent::Status(Err(error))) => {
            let was_unavailable: bool = bridge.unavailable;
            let next: BridgeState = BridgeState { unavailable: true, ..bridge };
            if was_unavailable {
                next.clear_all(Afterwards::Retry)
            } else {
                next.at(BridgePhase::Disconnecting { error })
            }
        },
        (BridgePhase::Reconnecting { snapshot }, BridgeEvent::Done) => bridge.mirroring(snapshot),
        (
            BridgePhase::Reporting { snapshot, rest, results, .. },
            BridgeEvent::Command(success),
        ) => {
            let mut results: Vec<bool> = results;
            results.push(success);
            bridge.reporting(snapshot, rest, results)
        },
        (BridgePhase::Foreground { snapshot }, BridgeEvent::Foreground(focus)) => {
            if focus {
                bridge.at(BridgePhase::PopupClock { snapshot })
            } else {
                bridge.without_popup()
            }
        },
        (BridgePhase::PopupClock { snapshot }, BridgeEvent::Clock(now)) => bridge.opening(
            snapshot,
            now,
        ),
        (BridgePhase::Opening { session_id, at }, BridgeEvent::Command(success)) => {
            if success {
                BridgeState {
                    phase: BridgePhase::Clock,
                    opened_session: Some(session_id),
                    popup_opened_at: Some(at),
                    ..bridge
                }
            } else {
                bridge
            }
        },
        (BridgePhase::Disconnecting { .. }, BridgeEvent::Done) => bridge.clear_all(
            Afterwards::Retry,
        ),
        (
            BridgePhase::Clearing { remaining, afterwards, .. },
            BridgeEvent::Command(_),
        ) => bridge.clearing(remaining, afterwards),
        (BridgePhase::Sleeping, BridgeEvent::Done) => bridge,
        (phase, _) => bridge.at(phase),
    }
}

} // verus!
