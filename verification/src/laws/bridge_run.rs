//! Laws of the bridge as it runs: of every course that its events can take.

use vstd::prelude::*;

use crate::bridge::{
    clear_command, dropped, failures, probed, reconciling, set_command, HerdrCommandView,
    HerdrProbe, MAX_HERDR_FAILURES, POPUP_RETRY_INTERVAL_NS,
};
use crate::bridge_loop::{
    Afterwards, BridgeActionView, BridgeEventView, BridgeModel, BridgeStop, LogLine, PhaseModel,
};
use crate::dictation::PRESENTER_TTL_MS;
use crate::dontspeak::status_argv;
use crate::laws::mirror::{
    label, labels_of, law_reconciling_mirrors, law_reconciling_restores, lemma_dropped,
    lemma_taken_first, taken, taken_all, Labels,
};
use crate::model::{lemma_session_rows, SnapshotView};
use crate::ordered::{keys, lemma_lookup, lookup};

verus! {

/// The event is an answer to what the state asks.
pub open spec fn answers(state: BridgeModel, event: BridgeEventView) -> bool {
    match (state.asks(), event) {
        (BridgeActionView::ReadClock, BridgeEventView::Clock(_)) => true,
        (BridgeActionView::CheckBinary, BridgeEventView::BinaryCurrent(_)) => true,
        (
            BridgeActionView::Herdr(HerdrCommandView::PluginList),
            BridgeEventView::Plugins(_),
        ) => true,
        (
            BridgeActionView::Herdr(HerdrCommandView::PluginList),
            BridgeEventView::Command(_),
        ) => false,
        (BridgeActionView::Herdr(_), BridgeEventView::Command(_)) => true,
        (BridgeActionView::NextStatus(_), BridgeEventView::Status(_)) => true,
        (BridgeActionView::CheckForeground, BridgeEventView::Foreground(_)) => true,
        (BridgeActionView::Log(_), BridgeEventView::Done) => true,
        (BridgeActionView::Sleep(_), BridgeEventView::Done) => true,
        _ => false,
    }
}

/// A run of the bridge, with what an onlooker would note of it.
pub struct BridgeRun {
    pub state: BridgeModel,
    /// The labels that Herdr holds, by the commands that it took.
    pub labels: Labels,
    /// Herdr took every label that it was given or asked to clear.
    pub obeyed: bool,
    /// The snapshot that Don't Speak last gave, if it gave one when it was last asked.
    pub latest: Option<SnapshotView>,
    /// Herdr was found to have the focus since then.
    pub focus: bool,
    /// How many probes in a row did not reach Herdr.
    pub failed_probes: nat,
    /// How many labels of the last snapshot were not taken.
    pub rejected: nat,
    /// How many snapshots in a row had a label that was not taken.
    pub failed_snapshots: nat,
}

/// What a probe found, where the event ends one.
pub open spec fn probe_found(state: BridgeModel, event: BridgeEventView) -> Option<HerdrProbe> {
    match (state.asks(), event) {
        (BridgeActionView::Herdr(HerdrCommandView::PaneList), BridgeEventView::Command(success)) => {
            if success {
                None
            } else {
                Some(HerdrProbe::ServerUnavailable)
            }
        },
        (
            BridgeActionView::Herdr(HerdrCommandView::PluginList),
            BridgeEventView::Plugins(enabled),
        ) => Some(probed(true, enabled)),
        _ => None,
    }
}

/// The last label of a snapshot is being reported.
pub open spec fn on_last_label(state: BridgeModel) -> bool {
    match state.phase {
        PhaseModel::Reporting { rest, .. } => rest.len() == 0,
        _ => false,
    }
}

/// The snapshot asks for no label to be set or cleared.
pub open spec fn without_label(state: BridgeModel, snapshot: SnapshotView) -> bool {
    reconciling(snapshot.metadata(), state.seen).len() == 0
}

impl BridgeRun {
    /// Before anything happened, with no label of this bridge in Herdr.
    pub open spec fn begin() -> BridgeRun {
        BridgeRun {
            state: BridgeModel::start(),
            labels: Labels::empty(),
            obeyed: true,
            latest: None,
            focus: false,
            failed_probes: 0,
            rejected: 0,
            failed_snapshots: 0,
        }
    }

    /// After one more event.
    pub open spec fn with(self, event: BridgeEventView) -> BridgeRun {
        let state = self.state.after(event);
        if !answers(self.state, event) {
            BridgeRun { state, ..self }
        } else {
            let next = match (self.state.asks(), event) {
                (
                    BridgeActionView::Herdr(HerdrCommandView::Report { pane_id, value }),
                    BridgeEventView::Command(success),
                ) => {
                    let rejected = if self.state.phase is Reporting && !success {
                        self.rejected + 1
                    } else {
                        self.rejected
                    };
                    BridgeRun {
                        state,
                        labels: if success {
                            taken(self.labels, HerdrCommandView::Report { pane_id, value })
                        } else {
                            self.labels
                        },
                        obeyed: self.obeyed && success,
                        rejected,
                        failed_snapshots: if !on_last_label(self.state) {
                            self.failed_snapshots
                        } else if rejected > 0 {
                            self.failed_snapshots + 1
                        } else {
                            0
                        },
                        ..self
                    }
                },
                (_, BridgeEventView::Status(Ok(snapshot))) => BridgeRun {
                    state,
                    latest: Some(snapshot),
                    focus: false,
                    rejected: 0,
                    failed_snapshots: if !self.state.unavailable && without_label(
                        self.state,
                        snapshot,
                    ) {
                        0
                    } else {
                        self.failed_snapshots
                    },
                    ..self
                },
                (_, BridgeEventView::Status(Err(_))) => BridgeRun {
                    state,
                    latest: None,
                    focus: false,
                    ..self
                },
                (_, BridgeEventView::Foreground(focus)) => BridgeRun { state, focus, ..self },
                (BridgeActionView::Log(_), BridgeEventView::Done) => BridgeRun {
                    state,
                    failed_snapshots: if self.latest matches Some(snapshot) && without_label(
                        self.state,
                        snapshot,
                    ) {
                        0
                    } else {
                        self.failed_snapshots
                    },
                    ..self
                },
                _ => BridgeRun { state, ..self },
            };
            match probe_found(self.state, event) {
                Some(HerdrProbe::Ready) => BridgeRun { failed_probes: 0, ..next },
                Some(HerdrProbe::ServerUnavailable) => BridgeRun {
                    failed_probes: self.failed_probes + 1,
                    ..next
                },
                _ => next,
            }
        }
    }
}

/// The run after all the events.
pub open spec fn bridge_run(events: Seq<BridgeEventView>) -> BridgeRun
    decreases events.len(),
{
    if events.len() == 0 {
        BridgeRun::begin()
    } else {
        bridge_run(events.drop_last()).with(events.last())
    }
}

/// The labels that Herdr is to hold: those of the last snapshot.
pub open spec fn wanted(run: BridgeRun) -> Labels {
    match run.latest {
        Some(snapshot) => labels_of(snapshot),
        None => Labels::empty(),
    }
}

/// The panes that have a label in the last snapshot.
spec fn wanted_panes(run: BridgeRun) -> Seq<Seq<char>> {
    match run.latest {
        Some(snapshot) => keys(snapshot.metadata()),
        None => seq![],
    }
}

/// The command says what the snapshot says.
spec fn faithful(snapshot: SnapshotView, command: HerdrCommandView) -> bool {
    command matches HerdrCommandView::Report { pane_id, value } && snapshot.pane_token(pane_id)
        == value
}

/// Herdr holds labels for none but the panes.
spec fn within(labels: Labels, panes: Seq<Seq<char>>) -> bool {
    forall|pane: Seq<char>| #[trigger] labels.contains_key(pane) ==> panes.contains(pane)
}

/// The number of the last snapshot, if Don't Speak gave one when it was last asked.
pub open spec fn last_number(run: BridgeRun) -> Option<u64> {
    match run.latest {
        Some(snapshot) => Some(snapshot.seq),
        None => None,
    }
}

/// Every pane with a label in the snapshot has that label.
pub open spec fn carries(labels: Labels, snapshot: SnapshotView) -> bool {
    forall|pane: Seq<char>|
        (#[trigger] snapshot.pane_token(pane)) is Some ==> label(labels, pane)
            == snapshot.pane_token(pane)
}

/// What holds between the reports.
spec fn quiet(run: BridgeRun) -> bool {
    &&& run.latest matches Some(snapshot) ==> run.rejected == 0 ==> carries(run.labels, snapshot)
    &&& run.state.seq == last_number(run)
    &&& run.state.seen == wanted_panes(run)
    &&& run.obeyed ==> run.labels == wanted(run)
    &&& run.state.unavailable ==> run.latest is None
}

/// A session whose popup counts as open is opened again only after a while.
spec fn reopens_late(state: BridgeModel, session_id: Seq<char>, at: u128) -> bool {
    state.opened_session == Some(session_id) ==> {
        &&& state.popup_opened_at matches Some(before)
        &&& at - before >= POPUP_RETRY_INTERVAL_NS
    }
}

/// What holds after Don't Speak gave no status.
spec fn forgetting(run: BridgeRun) -> bool {
    run.latest is None && run.state.unavailable
}

spec fn counted(run: BridgeRun) -> bool {
    &&& run.failed_probes == run.state.probe_failures
    &&& run.failed_snapshots == run.state.metadata_failures
    &&& run.failed_probes < MAX_HERDR_FAILURES
    &&& run.failed_snapshots < MAX_HERDR_FAILURES
}

/// What holds when the bridge is about to end.
spec fn ending(run: BridgeRun, stop: BridgeStop) -> bool {
    &&& stop == BridgeStop::HerdrUnavailable <==> run.failed_probes == MAX_HERDR_FAILURES
    &&& stop == BridgeStop::MetadataRejected <==> run.failed_snapshots == MAX_HERDR_FAILURES
    &&& run.failed_probes <= MAX_HERDR_FAILURES
    &&& run.failed_snapshots <= MAX_HERDR_FAILURES
}

spec fn sound(run: BridgeRun) -> bool {
    match run.state.phase {
        PhaseModel::Reconnecting { snapshot } => {
            &&& counted(run)
            &&& run.latest == Some(snapshot)
            &&& run.state.seq == last_number(run)
            &&& run.state.seen == Seq::<Seq<char>>::empty()
            &&& run.obeyed ==> run.labels == Labels::empty()
            &&& !run.state.unavailable
            &&& run.rejected == 0
        },
        PhaseModel::Reporting { snapshot, command, rest, results } => {
            let commands = seq![command] + rest;
            &&& counted(run)
            &&& run.latest == Some(snapshot)
            &&& run.state.seq == last_number(run)
            &&& run.state.seen == wanted_panes(run)
            &&& run.obeyed ==> taken_all(run.labels, commands) == labels_of(snapshot)
            &&& failures(results) == run.rejected
            &&& run.rejected == 0 ==> carries(taken_all(run.labels, commands), snapshot)
            &&& !run.state.unavailable
            &&& forall|i: int| 0 <= i < commands.len() ==> faithful(snapshot, #[trigger] commands[i])
        },
        PhaseModel::Foreground { snapshot } => {
            &&& counted(run)
            &&& quiet(run)
            &&& run.latest == Some(snapshot)
            &&& snapshot.dictation.presentable_session() is Some
        },
        PhaseModel::PopupClock { snapshot } => {
            &&& counted(run)
            &&& quiet(run)
            &&& run.latest == Some(snapshot)
            &&& run.focus
        },
        PhaseModel::Opening { session_id, at } => {
            &&& counted(run)
            &&& quiet(run)
            &&& run.focus
            &&& run.latest matches Some(snapshot)
            &&& snapshot.dictation.presentable_session() == Some(session_id)
            &&& !snapshot.dictation.external_ui_active
            &&& reopens_late(run.state, session_id, at)
        },
        PhaseModel::Disconnecting { .. } => {
            &&& counted(run)
            &&& forgetting(run)
            &&& run.obeyed ==> within(run.labels, run.state.seen)
        },
        PhaseModel::Clearing { pane_id, remaining, afterwards } => {
            &&& run.state.seen == Seq::<Seq<char>>::empty()
            &&& run.obeyed ==> within(run.labels, seq![pane_id] + remaining)
            &&& match afterwards {
                Afterwards::Retry => counted(run) && forgetting(run),
                Afterwards::Stop(stop) => ending(run, stop),
            }
        },
        PhaseModel::Sleeping => {
            &&& counted(run)
            &&& forgetting(run)
            &&& run.state.seen == Seq::<Seq<char>>::empty()
            &&& run.obeyed ==> run.labels == Labels::empty()
            &&& run.state.seq is None
            &&& run.state.opened_session is None
            &&& run.state.popup_opened_at is None
        },
        PhaseModel::Exited { stop } => {
            &&& ending(run, stop)
            &&& run.obeyed ==> run.labels == Labels::empty()
        },
        _ => counted(run) && quiet(run),
    }
}

proof fn lemma_wanted_within(run: BridgeRun)
    ensures
        within(wanted(run), wanted_panes(run)),
{
    if let Some(snapshot) = run.latest {
        let rows = snapshot.metadata();
        lemma_session_rows(snapshot.voice_sessions, snapshot.activity.muted);
        lemma_lookup(rows);
        assert forall|pane: Seq<char>| #[trigger] wanted(run).contains_key(pane) implies keys(
            rows,
        ).contains(pane) by {
            assert(lookup(rows, pane) == snapshot.pane_token(pane));
            let i = choose|i: int| 0 <= i < rows.len() && rows[i].0 == pane;
            assert(keys(rows)[i] == pane);
        }
    }
}

proof fn lemma_faithful(snapshot: SnapshotView, seen: Seq<Seq<char>>)
    ensures
        ({
            let commands = reconciling(snapshot.metadata(), seen);
            forall|i: int| 0 <= i < commands.len() ==> faithful(snapshot, #[trigger] commands[i])
        }),
{
    let rows = snapshot.metadata();
    let commands = reconciling(rows, seen);
    lemma_session_rows(snapshot.voice_sessions, snapshot.activity.muted);
    lemma_lookup(rows);
    lemma_dropped(rows, seen);
    assert forall|i: int| 0 <= i < commands.len() implies faithful(
        snapshot,
        #[trigger] commands[i],
    ) by {
        if i < rows.len() {
            assert(commands[i] == set_command(rows[i]));
            assert(lookup(rows, rows[i].0) == Some(rows[i].1));
            assert(lookup(rows, rows[i].0) == snapshot.pane_token(rows[i].0));
        } else {
            let pane = dropped(rows, seen)[i - rows.len()];
            assert(commands[i] == clear_command(pane));
            assert(dropped(rows, seen).contains(pane));
            assert(lookup(rows, pane) == snapshot.pane_token(pane));
        }
    }
}

proof fn lemma_nothing_within(labels: Labels, panes: Seq<Seq<char>>)
    requires
        within(labels, panes),
        panes.len() == 0,
    ensures
        labels == Labels::empty(),
{
    assert forall|pane: Seq<char>| !(#[trigger] labels.contains_key(pane)) by {
        assert(!panes.contains(pane));
    }
    assert(labels =~= Labels::empty());
}

/// The bridge starts to clear: what holds of the panes seen holds of those to clear.
proof fn lemma_clearing_all(run: BridgeRun, from: BridgeModel, afterwards: Afterwards)
    requires
        run.state == from.clearing_all(afterwards),
        run.obeyed ==> within(run.labels, from.seen),
        match afterwards {
            Afterwards::Retry => {
                &&& run.latest is None
                &&& from.unavailable
                &&& run.failed_probes == from.probe_failures
                &&& run.failed_snapshots == from.metadata_failures
                &&& run.failed_probes < MAX_HERDR_FAILURES
                &&& run.failed_snapshots < MAX_HERDR_FAILURES
            },
            Afterwards::Stop(stop) => ending(run, stop),
        },
    ensures
        sound(run),
{
    if from.seen.len() > 0 {
        assert(seq![from.seen[0]] + from.seen.drop_first() =~= from.seen);
    } else if run.obeyed {
        lemma_nothing_within(run.labels, from.seen);
    }
}

/// The labels of a snapshot begin to be reported.
proof fn lemma_mirroring(run: BridgeRun, from: BridgeModel, snapshot: SnapshotView)
    requires
        run.state == from.mirroring(snapshot),
        run.obeyed ==> within(run.labels, from.seen),
        run.latest == Some(snapshot),
        from.seq == Some(snapshot.seq),
        !from.unavailable,
        run.rejected == 0,
        run.failed_probes == from.probe_failures,
        run.failed_probes < MAX_HERDR_FAILURES,
        run.failed_snapshots == if without_label(from, snapshot) {
            0
        } else {
            from.metadata_failures as nat
        },
        from.metadata_failures < MAX_HERDR_FAILURES,
    ensures
        sound(run),
{
    let commands = reconciling(snapshot.metadata(), from.seen);
    lemma_faithful(snapshot, from.seen);
    if run.obeyed {
        law_reconciling_mirrors(snapshot, from.seen, run.labels);
    }
    assert(carries(taken_all(run.labels, commands), snapshot)) by {
        assert forall|pane: Seq<char>|
            (#[trigger] snapshot.pane_token(pane)) is Some implies label(
            taken_all(run.labels, commands),
            pane,
        ) == snapshot.pane_token(pane) by {
            law_reconciling_restores(snapshot, from.seen, run.labels, pane);
        }
    }
    if commands.len() > 0 {
        assert(seq![commands[0]] + commands.drop_first() =~= commands);
    }
}

proof fn lemma_report_step(run: BridgeRun, event: BridgeEventView)
    requires
        sound(run),
        run.state.phase is Reporting,
        answers(run.state, event),
    ensures
        sound(run.with(event)),
{
    if let PhaseModel::Reporting { snapshot, command, rest, results } = run.state.phase {
        let commands = seq![command] + rest;
        let next = run.with(event);
        assert(commands[0] == command);
        assert(faithful(snapshot, command));
        assert(commands.drop_first() =~= rest);
        lemma_taken_first(run.labels, commands);
        lemma_wanted_within(next);
        if let BridgeEventView::Command(success) = event {
            assert(results.push(success).drop_last() =~= results);
            assert(failures(results.push(success)) == next.rejected);
        }
        if rest.len() > 0 {
            let fewer = seq![rest[0]] + rest.drop_first();
            assert(fewer =~= rest);
            assert forall|i: int| 0 <= i < fewer.len() implies faithful(
                snapshot,
                #[trigger] fewer[i],
            ) by {
                assert(fewer[i] == commands[i + 1]);
            }
        } else if next.rejected > 0 && run.failed_snapshots + 1 >= MAX_HERDR_FAILURES {
            lemma_clearing_all(next, run.state, Afterwards::Stop(BridgeStop::MetadataRejected));
        }
    }
}

proof fn lemma_clear_step(run: BridgeRun, event: BridgeEventView)
    requires
        sound(run),
        run.state.phase is Clearing,
        answers(run.state, event),
    ensures
        sound(run.with(event)),
{
    if let PhaseModel::Clearing { pane_id, remaining, afterwards } = run.state.phase {
        let next = run.with(event);
        if next.obeyed {
            assert(within(next.labels, remaining)) by {
                assert forall|pane: Seq<char>| #[trigger]
                    next.labels.contains_key(pane) implies remaining.contains(pane) by {
                    assert(run.labels.contains_key(pane));
                    let all = seq![pane_id] + remaining;
                    let i = choose|i: int| 0 <= i < all.len() && all[i] == pane;
                    assert(remaining[i - 1] == pane);
                }
            }
            if remaining.len() == 0 {
                lemma_nothing_within(next.labels, remaining);
            }
        }
        if remaining.len() > 0 {
            assert(seq![remaining[0]] + remaining.drop_first() =~= remaining);
        }
    }
}

proof fn lemma_step(run: BridgeRun, event: BridgeEventView)
    requires
        sound(run),
    ensures
        sound(run.with(event)),
{
    let next = run.with(event);
    if let PhaseModel::Reporting { snapshot, command, rest, .. } = run.state.phase {
        assert((seq![command] + rest)[0] == command);
        assert(faithful(snapshot, command));
    }
    if answers(run.state, event) {
        lemma_wanted_within(run);
        match (run.state.phase, event) {
            (PhaseModel::Binary, BridgeEventView::BinaryCurrent(current)) => {
                if !current {
                    lemma_clearing_all(next, run.state, Afterwards::Stop(BridgeStop::Replaced));
                }
            },
            (PhaseModel::Panes, BridgeEventView::Command(success)) => {
                if !success && run.failed_probes + 1 >= MAX_HERDR_FAILURES {
                    lemma_clearing_all(
                        next,
                        run.state,
                        Afterwards::Stop(BridgeStop::HerdrUnavailable),
                    );
                }
            },
            (PhaseModel::Plugins, BridgeEventView::Plugins(enabled)) => {
                if enabled == Some(false) {
                    lemma_clearing_all(
                        next,
                        run.state,
                        Afterwards::Stop(BridgeStop::PluginUnavailable),
                    );
                } else if enabled is None && run.failed_probes + 1 >= MAX_HERDR_FAILURES {
                    lemma_clearing_all(
                        next,
                        run.state,
                        Afterwards::Stop(BridgeStop::HerdrUnavailable),
                    );
                }
            },
            (PhaseModel::Status, BridgeEventView::Status(Ok(snapshot))) => {
                if !run.state.unavailable {
                    let from = BridgeModel {
                        seq: Some(snapshot.seq),
                        unavailable: false,
                        ..run.state
                    };
                    lemma_mirroring(next, from, snapshot);
                }
            },
            (PhaseModel::Status, BridgeEventView::Status(Err(_))) => {
                if run.state.unavailable {
                    let from = BridgeModel { unavailable: true, ..run.state };
                    lemma_clearing_all(next, from, Afterwards::Retry);
                }
            },
            (PhaseModel::Reconnecting { snapshot }, BridgeEventView::Done) => {
                lemma_mirroring(next, run.state, snapshot);
            },
            (PhaseModel::Disconnecting { .. }, BridgeEventView::Done) => {
                lemma_clearing_all(next, run.state, Afterwards::Retry);
            },
            (PhaseModel::Reporting { .. }, BridgeEventView::Command(_)) => {
                lemma_report_step(run, event);
            },
            (PhaseModel::Clearing { .. }, BridgeEventView::Command(_)) => {
                lemma_clear_step(run, event);
            },
            _ => {},
        }
    } else {
        assert(next.state == run.state);
    }
}

proof fn lemma_sound(events: Seq<BridgeEventView>)
    ensures
        sound(bridge_run(events)),
    decreases events.len(),
{
    if events.len() > 0 {
        lemma_sound(events.drop_last());
        lemma_step(bridge_run(events.drop_last()), events.last());
    } else {
        assert(bridge_run(events).state.seen =~= seq![]);
    }
}

/// The bridge is not in the middle of a change to the labels.
pub open spec fn settled(state: BridgeModel) -> bool {
    !(state.phase is Reconnecting || state.phase is Reporting || state.phase is Disconnecting
        || state.phase is Clearing || state.phase is Exited)
}

/// Where Herdr takes every command, it holds the labels of the last snapshot and no
/// others, whenever the bridge is not just changing them. After Don't Speak gave no
/// status these are none.
pub proof fn law_labels_mirror_the_status(events: Seq<BridgeEventView>)
    ensures
        bridge_run(events).obeyed && settled(bridge_run(events).state) ==> bridge_run(events).labels
            == wanted(bridge_run(events)),
{
    lemma_sound(events);
}

/// Whatever failed before: once Herdr has taken all the commands of the last snapshot,
/// every pane with a label in it has that label, whenever the bridge is not just changing
/// them.
pub proof fn law_labels_are_restored(events: Seq<BridgeEventView>)
    ensures
        ({
            let run = bridge_run(events);
            settled(run.state) && run.rejected == 0 ==> match run.latest {
                Some(snapshot) => forall|pane: Seq<char>|
                    (#[trigger] snapshot.pane_token(pane)) is Some ==> run.labels.contains_key(pane)
                        && Some(run.labels[pane]) == snapshot.pane_token(pane),
                None => true,
            }
        }),
{
    lemma_sound(events);
    let run = bridge_run(events);
    if let Some(snapshot) = run.latest {
        if settled(run.state) && run.rejected == 0 {
            assert(carries(run.labels, snapshot));
            assert forall|pane: Seq<char>|
                (#[trigger] snapshot.pane_token(pane)) is Some implies run.labels.contains_key(pane)
                && Some(run.labels[pane]) == snapshot.pane_token(pane) by {
                assert(label(run.labels, pane) == snapshot.pane_token(pane));
            }
        }
    }
}

/// Where Herdr takes every command, no label is left behind when the bridge ends,
/// however it ends.
pub proof fn law_bridge_ends_without_labels(events: Seq<BridgeEventView>)
    ensures
        bridge_run(events).obeyed && bridge_run(events).state.phase is Exited ==> bridge_run(
            events,
        ).labels == Labels::empty(),
{
    lemma_sound(events);
}

/// A label that is set is the one that the last snapshot asks for. While the labels of a
/// snapshot are reported, one is cleared only where the snapshot asks for none.
pub proof fn law_reports_are_faithful(events: Seq<BridgeEventView>)
    ensures
        ({
            let run = bridge_run(events);
            run.state.asks() matches BridgeActionView::Herdr(
                HerdrCommandView::Report { pane_id, value },
            ) ==> {
                &&& value is Some ==> run.latest is Some
                &&& value is Some || run.state.phase is Reporting ==> run.latest->0.pane_token(
                    pane_id,
                ) == value
            }
        }),
{
    lemma_sound(events);
    let run = bridge_run(events);
    if let PhaseModel::Reporting { snapshot, command, rest, results } = run.state.phase {
        assert((seq![command] + rest)[0] == command);
        assert(faithful(snapshot, command));
    }
}

/// After a status that could not be had or read, nothing is published until there is a
/// snapshot again.
pub proof fn law_failed_status_publishes_nothing(events: Seq<BridgeEventView>)
    ensures
        ({
            let run = bridge_run(events);
            run.latest is None ==> match run.state.asks() {
                BridgeActionView::Herdr(HerdrCommandView::Report { value, .. }) => value is None,
                BridgeActionView::Herdr(HerdrCommandView::OpenPopup { .. }) => false,
                _ => true,
            }
        }),
{
    lemma_sound(events);
    law_reports_are_faithful(events);
}

/// The popup is opened only for the session of the last snapshot, while that may be
/// shown and nothing else shows it, and only where Herdr was found to have the focus
/// since the snapshot came.
pub proof fn law_popup_needs_the_focus(events: Seq<BridgeEventView>)
    ensures
        ({
            let run = bridge_run(events);
            run.state.asks() matches BridgeActionView::Herdr(
                HerdrCommandView::OpenPopup { session_id },
            ) ==> {
                &&& run.focus
                &&& run.latest matches Some(snapshot)
                &&& snapshot.dictation.presentable_session() == Some(session_id)
                &&& !snapshot.dictation.external_ui_active
            }
        }),
{
    lemma_sound(events);
    let run = bridge_run(events);
    if let PhaseModel::Reporting { snapshot, command, rest, results } = run.state.phase {
        assert((seq![command] + rest)[0] == command);
        assert(faithful(snapshot, command));
    }
}

/// A popup that counts as open is opened again only once a lease that it held has
/// expired: after a time that is longer than a lease lasts.
pub proof fn law_popup_is_reopened_after_the_lease(events: Seq<BridgeEventView>)
    ensures
        ({
            let state = bridge_run(events).state;
            state.phase matches PhaseModel::Opening { session_id, at } ==> {
                state.opened_session == Some(session_id) ==> {
                    &&& state.popup_opened_at matches Some(before)
                    &&& at - before > PRESENTER_TTL_MS * 1_000_000
                }
            }
        }),
{
    lemma_sound(events);
}

/// The time at which a popup counts as opened is the time for which it was asked.
pub proof fn law_opening_is_noted(state: BridgeModel, session_id: Seq<char>, at: u128, success: bool)
    requires
        state.phase == (PhaseModel::Opening { session_id, at }),
    ensures
        ({
            let next = state.after(BridgeEventView::Command(success));
            if success {
                next.opened_session == Some(session_id) && next.popup_opened_at == Some(at)
            } else {
                next.opened_session == state.opened_session && next.popup_opened_at
                    == state.popup_opened_at
            }
        }),
{
}

/// A line is logged only after a status was asked for, and holds nothing of it: it says
/// that there is one again, or names the error.
pub proof fn law_log_holds_no_status(events: Seq<BridgeEventView>, event: BridgeEventView)
    ensures
        ({
            let before = bridge_run(events).state;
            let state = before.after(event);
            state != before ==> match state.asks() {
                BridgeActionView::Log(LogLine::Reconnected) => event matches BridgeEventView::Status(
                    Ok(_),
                ),
                BridgeActionView::Log(LogLine::Unavailable(error)) => event
                    == BridgeEventView::Status(Err(error)),
                _ => true,
            }
        }),
{
}

/// The bridge asks for the status that follows the last snapshot. At first, and after
/// Don't Speak gave no status, it asks for the present one.
pub proof fn law_status_is_asked_for_in_turn(events: Seq<BridgeEventView>)
    ensures
        ({
            let run = bridge_run(events);
            run.state.asks() matches BridgeActionView::NextStatus(since) ==> since == last_number(
                run,
            )
        }),
{
    lemma_sound(events);
}

/// However the bridge runs, it asks nothing of Don't Speak but its status, and nothing of
/// Herdr but to list its panes and this plugin, to set and clear labels and to open the
/// popup, by commands on panes and plugins: it never takes the presentation.
pub proof fn law_bridge_never_presents(events: Seq<BridgeEventView>)
    ensures
        ({
            let run = bridge_run(events);
            match run.state.asks() {
                BridgeActionView::NextStatus(since) => {
                    &&& since == last_number(run)
                    &&& status_argv(since)[0] == "status"@
                },
                BridgeActionView::Herdr(command) => match command {
                    HerdrCommandView::PaneList => command.argv()[0] == "pane"@,
                    HerdrCommandView::PluginList => command.argv()[0] == "plugin"@,
                    HerdrCommandView::Report { .. } => command.argv()[0] == "pane"@,
                    HerdrCommandView::OpenPopup { .. } => command.argv()[0] == "plugin"@,
                },
                _ => true,
            }
        }),
{
    law_status_is_asked_for_in_turn(events);
}

/// The bridge ends because Herdr cannot be reached exactly after three probes in a row
/// that did not reach it.
pub proof fn law_lost_herdr_ends_the_bridge(events: Seq<BridgeEventView>)
    ensures
        ({
            let run = bridge_run(events);
            let stopping = Afterwards::Stop(BridgeStop::HerdrUnavailable);
            &&& run.failed_probes <= MAX_HERDR_FAILURES
            &&& run.failed_probes == MAX_HERDR_FAILURES <==> {
                ||| run.state.phase == (PhaseModel::Exited { stop: BridgeStop::HerdrUnavailable })
                ||| (run.state.phase matches PhaseModel::Clearing { afterwards, .. } && afterwards
                    == stopping)
            }
        }),
{
    lemma_sound(events);
}

/// The bridge ends because Herdr rejects the labels exactly after three snapshots in a
/// row with a label that was not taken.
pub proof fn law_rejected_labels_end_the_bridge(events: Seq<BridgeEventView>)
    ensures
        ({
            let run = bridge_run(events);
            let stopping = Afterwards::Stop(BridgeStop::MetadataRejected);
            &&& run.failed_snapshots <= MAX_HERDR_FAILURES
            &&& run.failed_snapshots == MAX_HERDR_FAILURES <==> {
                ||| run.state.phase == (PhaseModel::Exited { stop: BridgeStop::MetadataRejected })
                ||| (run.state.phase matches PhaseModel::Clearing { afterwards, .. } && afterwards
                    == stopping)
            }
        }),
{
    lemma_sound(events);
}

/// Before the bridge asks again for a status that it could not have, it pauses, and by
/// then it has forgotten what it had seen: it asks for the present status, and a popup
/// counts as not opened.
pub proof fn law_retry_starts_afresh(events: Seq<BridgeEventView>)
    ensures
        bridge_run(events).state.phase is Sleeping ==> ({
            let state = bridge_run(events).state;
            &&& state.seq is None
            &&& state.seen.len() == 0
            &&& state.opened_session is None
            &&& state.popup_opened_at is None
            &&& state.after(BridgeEventView::Done) == state.at(PhaseModel::Clock)
        }),
{
    lemma_sound(events);
}

/// The answers to the clearing of one pane after the other.
pub open spec fn command_answers(answers: Seq<bool>) -> Seq<BridgeEventView> {
    answers.map_values(|success: bool| BridgeEventView::Command(success))
}

/// The state after all the events.
pub open spec fn state_after(state: BridgeModel, events: Seq<BridgeEventView>) -> BridgeModel
    decreases events.len(),
{
    if events.len() == 0 {
        state
    } else {
        state_after(state, events.drop_last()).after(events.last())
    }
}

/// The commands of a snapshot are given in turn, whatever Herdr answers, and what follows
/// goes by how many of them it did not take.
pub proof fn law_untaken_labels_are_counted(
    state: BridgeModel,
    snapshot: SnapshotView,
    answers: Seq<bool>,
)
    requires
        answers.len() <= reconciling(snapshot.metadata(), state.seen).len(),
    ensures
        ({
            let commands = reconciling(snapshot.metadata(), state.seen);
            let labelled = BridgeModel { seen: keys(snapshot.metadata()), ..state };
            let reached = state_after(state.mirroring(snapshot), command_answers(answers));
            let n = answers.len() as int;
            if n < commands.len() {
                reached.asks() == BridgeActionView::Herdr(commands[n])
            } else {
                reached == labelled.reported(snapshot, failures(answers))
            }
        }),
{
    let n = answers.len() as int;
    let commands = reconciling(snapshot.metadata(), state.seen);
    let labelled = BridgeModel { seen: keys(snapshot.metadata()), ..state };
    lemma_reporting_goes_on(labelled, snapshot, commands, answers);
    if n < commands.len() {
        assert(commands.skip(n)[0] == commands[n]);
    }
}

proof fn lemma_reporting_goes_on(
    state: BridgeModel,
    snapshot: SnapshotView,
    commands: Seq<HerdrCommandView>,
    answers: Seq<bool>,
)
    requires
        answers.len() <= commands.len(),
    ensures
        state_after(
            state.reporting(snapshot, commands, seq![]),
            command_answers(answers),
        ) == state.reporting(snapshot, commands.skip(answers.len() as int), answers),
    decreases answers.len(),
{
    if answers.len() == 0 {
        assert(commands.skip(0) =~= commands);
        assert(answers =~= seq![]);
    } else {
        let fewer = answers.drop_last();
        let left = commands.skip(fewer.len() as int);
        lemma_reporting_goes_on(state, snapshot, commands, fewer);
        assert(command_answers(answers).drop_last() =~= command_answers(fewer));
        assert(left.drop_first() =~= commands.skip(answers.len() as int));
        assert(fewer.push(answers.last()) =~= answers);
    }
}

/// When all labels are cleared, each pane that was seen is asked for in turn, whatever
/// Herdr answers, and then the bridge goes on or ends.
pub proof fn law_every_pane_is_cleared(
    state: BridgeModel,
    afterwards: Afterwards,
    answers: Seq<bool>,
)
    requires
        answers.len() <= state.seen.len(),
    ensures
        ({
            let cleared = BridgeModel { seen: seq![], ..state };
            let reached = state_after(state.clearing_all(afterwards), command_answers(answers));
            let n = answers.len() as int;
            if n < state.seen.len() {
                reached.asks() == BridgeActionView::Herdr(clear_command(state.seen[n]))
            } else {
                reached == cleared.cleared(afterwards)
            }
        }),
{
    let n = answers.len() as int;
    let cleared = BridgeModel { seen: seq![], ..state };
    lemma_clearing_goes_on(cleared, state.seen, afterwards, answers);
    if n < state.seen.len() {
        assert(state.seen.skip(n)[0] == state.seen[n]);
    }
}

proof fn lemma_clearing_goes_on(
    state: BridgeModel,
    panes: Seq<Seq<char>>,
    afterwards: Afterwards,
    answers: Seq<bool>,
)
    requires
        answers.len() <= panes.len(),
    ensures
        state_after(state.clearing(panes, afterwards), command_answers(answers)) == state.clearing(
            panes.skip(answers.len() as int),
            afterwards,
        ),
    decreases answers.len(),
{
    if answers.len() == 0 {
        assert(panes.skip(0) =~= panes);
    } else {
        let fewer = answers.drop_last();
        let left = panes.skip(fewer.len() as int);
        lemma_clearing_goes_on(state, panes, afterwards, fewer);
        assert(command_answers(answers).drop_last() =~= command_answers(fewer));
        assert(left.drop_first() =~= panes.skip(answers.len() as int));
    }
}

} // verus!
