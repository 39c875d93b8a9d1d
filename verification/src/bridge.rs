//! The bridge between Don't Speak and Herdr: it mirrors the voice status of each
//! pane into Herdr's metadata, and opens the popup for the dictation that may be
//! shown there. It observes only, and never takes the presentation itself.

use vstd::prelude::*;

use crate::command::Output;
use crate::dictation::said;
use crate::dontspeak::ClientError;
use crate::model::{metadata, DictationView, SnapshotView, StatusSnapshot};
use crate::ordered::{keys, lookup, Row, Rows};
use crate::text::{joined, same};

verus! {

/// The name under which metadata is reported.
pub const SOURCE: &'static str = "plugin:dontspeak-voice";

/// The name of the label that a pane gets.
pub const TOKEN: &'static str = "dontspeak_voice";

/// The name of the plugin.
pub const PLUGIN_ID: &'static str = "dontspeak.voice";

/// The name of the popup among the plugin's panes.
pub const POPUP_ENTRYPOINT: &'static str = "dictation";

/// The variable that tells the popup which session it is for.
pub const EXPECTED_SESSION_ENV: &'static str = "DONTSPEAK_DICTATION_SESSION";

/// When a popup that did not take over is opened again, in nanoseconds.
pub const POPUP_RETRY_INTERVAL_NS: u128 = 5_000_000_000;

/// How long reported metadata lasts, in milliseconds.
pub const METADATA_TTL_MS: &'static str = "5000";

/// The pause after Don't Speak gave no status, in milliseconds.
pub const FAILURE_BACKOFF_MS: u64 = 2_000;

/// How long a command to Herdr may take, in milliseconds.
pub const HERDR_COMMAND_TIMEOUT_MS: u64 = 4_000;

/// How often Herdr is probed, in nanoseconds.
pub const HERDR_PROBE_INTERVAL_NS: u128 = 5_000_000_000;

/// How many failures in a row end the bridge.
pub const MAX_HERDR_FAILURES: usize = 3;

/// The session that a terminal may show.
pub fn presentable_session(snapshot: &StatusSnapshot) -> (r: Option<&str>)
    ensures
        r.deep_view() == snapshot@.dictation.presentable_session(),
{
    if snapshot.dictation.presentable() {
        snapshot.dictation.valid_session_id()
    } else {
        None
    }
}

/// The session whose popup is to be opened: the one that may be shown, while
/// Herdr has the focus and nothing else shows it. One that was opened already
/// is opened again only after a while.
pub open spec fn popup_candidate(
    dictation: DictationView,
    opened_session: Option<Seq<char>>,
    opened_at: Option<u128>,
    now: u128,
    foreground_eligible: bool,
) -> Option<Seq<char>> {
    match dictation.presentable_session() {
        Some(session) if foreground_eligible && !dictation.external_ui_active && (opened_session
            != Some(session) || (opened_at matches Some(at) && now - at
            >= POPUP_RETRY_INTERVAL_NS)) => Some(session),
        _ => None,
    }
}

/// The session whose popup is to be opened. Times are in nanoseconds, from any
/// one start.
pub fn popup_open_candidate<'a>(
    snapshot: &'a StatusSnapshot,
    opened_session: Option<&str>,
    opened_at: Option<u128>,
    now: u128,
    foreground_eligible: bool,
) -> (r: Option<&'a str>)
    ensures
        r.deep_view() == popup_candidate(
            snapshot@.dictation,
            opened_session.deep_view(),
            opened_at,
            now,
            foreground_eligible,
        ),
{
    match presentable_session(snapshot) {
        Some(session_id) => {
            if !foreground_eligible || snapshot.dictation.external_ui_active {
                return None;
            }
            let already_opened: bool = match opened_session {
                Some(opened) => same(opened, session_id),
                None => false,
            };
            let retry_due: bool = match opened_at {
                Some(at) => now >= at && now - at >= POPUP_RETRY_INTERVAL_NS,
                None => false,
            };
            if !already_opened || retry_due {
                Some(session_id)
            } else {
                None
            }
        },
        None => None,
    }
}

/// A command that the bridge gives Herdr.
#[derive(Debug, PartialEq, Eq)]
pub enum HerdrCommand {
    /// List the panes.
    PaneList,
    /// List this plugin.
    PluginList,
    /// Set a pane's label, or clear it.
    Report { pane_id: String, value: Option<String> },
    /// Open the popup for a session.
    OpenPopup { session_id: String },
}

/// The contents of a [`HerdrCommand`].
pub enum HerdrCommandView {
    PaneList,
    PluginList,
    Report { pane_id: Seq<char>, value: Option<Seq<char>> },
    OpenPopup { session_id: Seq<char> },
}

impl View for HerdrCommand {
    type V = HerdrCommandView;

    open spec fn view(&self) -> HerdrCommandView {
        match self {
            HerdrCommand::PaneList => HerdrCommandView::PaneList,
            HerdrCommand::PluginList => HerdrCommandView::PluginList,
            HerdrCommand::Report { pane_id, value } => HerdrCommandView::Report {
                pane_id: pane_id@,
                value: value.deep_view(),
            },
            HerdrCommand::OpenPopup { session_id } => HerdrCommandView::OpenPopup {
                session_id: session_id@,
            },
        }
    }
}

/// The arguments that report a pane's label. The label is one argument,
/// whatever it holds.
pub open spec fn report_metadata_argv(pane_id: Seq<char>, value: Option<Seq<char>>) -> Seq<
    Seq<char>,
> {
    let args = seq![
        "pane"@,
        "report-metadata"@,
        pane_id,
        "--source"@,
        SOURCE@,
        "--ttl-ms"@,
        METADATA_TTL_MS@,
    ];
    match value {
        Some(value) => args + seq!["--token"@, TOKEN@ + "="@ + value],
        None => args + seq!["--clear-token"@, TOKEN@],
    }
}

/// The arguments that report a pane's label.
pub fn report_metadata(pane_id: &str, value: Option<&str>) -> (r: Vec<String>)
    ensures
        r.deep_view() == report_metadata_argv(pane_id@, value.deep_view()),
{
    let mut args: Vec<String> = vec![
        "pane".to_string(),
        "report-metadata".to_string(),
        pane_id.to_string(),
        "--source".to_string(),
        SOURCE.to_string(),
        "--ttl-ms".to_string(),
        METADATA_TTL_MS.to_string(),
    ];
    match value {
        Some(value) => {
            args.push("--token".to_string());
            args.push(joined(TOKEN, "=").concat(value));
        },
        None => {
            args.push("--clear-token".to_string());
            args.push(TOKEN.to_string());
        },
    }
    assert(args.deep_view() =~= report_metadata_argv(pane_id@, value.deep_view()));
    args
}

/// The arguments that open the popup for a session, without giving it the focus.
pub open spec fn open_dictation_popup_argv(session_id: Seq<char>) -> Seq<Seq<char>> {
    seq![
        "plugin"@,
        "pane"@,
        "open"@,
        "--plugin"@,
        PLUGIN_ID@,
        "--entrypoint"@,
        POPUP_ENTRYPOINT@,
        "--placement"@,
        "popup"@,
        "--env"@,
        EXPECTED_SESSION_ENV@ + "="@ + session_id,
        "--no-focus"@,
    ]
}

/// The arguments that open the popup for a session.
pub fn open_dictation_popup(session_id: &str) -> (r: Vec<String>)
    ensures
        r.deep_view() == open_dictation_popup_argv(session_id@),
{
    let args: Vec<String> = vec![
        "plugin".to_string(),
        "pane".to_string(),
        "open".to_string(),
        "--plugin".to_string(),
        PLUGIN_ID.to_string(),
        "--entrypoint".to_string(),
        POPUP_ENTRYPOINT.to_string(),
        "--placement".to_string(),
        "popup".to_string(),
        "--env".to_string(),
        joined(EXPECTED_SESSION_ENV, "=").concat(session_id),
        "--no-focus".to_string(),
    ];
    assert(args.deep_view() =~= open_dictation_popup_argv(session_id@));
    args
}

impl HerdrCommandView {
    /// The arguments of the command.
    pub open spec fn argv(self) -> Seq<Seq<char>> {
        match self {
            HerdrCommandView::PaneList => seq!["pane"@, "list"@, "--json"@],
            HerdrCommandView::PluginList => seq![
                "plugin"@,
                "list"@,
                "--plugin"@,
                PLUGIN_ID@,
                "--json"@,
            ],
            HerdrCommandView::Report { pane_id, value } => report_metadata_argv(pane_id, value),
            HerdrCommandView::OpenPopup { session_id } => open_dictation_popup_argv(session_id),
        }
    }
}

impl HerdrCommand {
    /// The arguments of the command.
    pub fn args(&self) -> (r: Vec<String>)
        ensures
            r.deep_view() == self@.argv(),
    {
        match self {
            HerdrCommand::PaneList => {
                let args: Vec<String> = vec![
                    "pane".to_string(),
                    "list".to_string(),
                    "--json".to_string(),
                ];
                assert(args.deep_view() =~= self@.argv());
                args
            },
            HerdrCommand::PluginList => {
                let args: Vec<String> = vec![
                    "plugin".to_string(),
                    "list".to_string(),
                    "--plugin".to_string(),
                    PLUGIN_ID.to_string(),
                    "--json".to_string(),
                ];
                assert(args.deep_view() =~= self@.argv());
                args
            },
            HerdrCommand::Report { pane_id, value } => report_metadata(
                pane_id.as_str(),
                match value {
                    Some(value) => Some(value.as_str()),
                    None => None,
                },
            ),
            HerdrCommand::OpenPopup { session_id } => open_dictation_popup(session_id.as_str()),
        }
    }

    /// The same command once more.
    pub fn copied(&self) -> (r: HerdrCommand)
        ensures
            r@ == self@,
    {
        match self {
            HerdrCommand::PaneList => HerdrCommand::PaneList,
            HerdrCommand::PluginList => HerdrCommand::PluginList,
            HerdrCommand::Report { pane_id, value } => HerdrCommand::Report {
                pane_id: pane_id.clone(),
                value: match value {
                    Some(value) => Some(value.clone()),
                    None => None,
                },
            },
            HerdrCommand::OpenPopup { session_id } => HerdrCommand::OpenPopup {
                session_id: session_id.clone(),
            },
        }
    }
}

/// Whether a command to Herdr ended in time and succeeded.
pub fn command_succeeded<E>(output: &Result<Output, E>) -> (r: bool)
    ensures
        r == (output matches Ok(output) && output.ok()),
{
    match output {
        Ok(output) => output.success(),
        Err(_) => false,
    }
}

/// Herdr's answer to the question for this plugin.
#[derive(Debug)]
pub struct PluginListResponse {
    pub result: PluginListResult,
}

/// The result in that answer.
#[derive(Debug)]
pub struct PluginListResult {
    pub plugins: Vec<PluginSummary>,
}

/// What is said of a plugin.
#[derive(Debug)]
pub struct PluginSummary {
    pub plugin_id: String,
    pub enabled: bool,
}

impl PluginListResponse {
    /// This plugin is listed as enabled.
    pub open spec fn enabled(self) -> bool {
        exists|i: int|
            0 <= i < self.result.plugins@.len() && (#[trigger] self.result.plugins@[i]).plugin_id@
                == PLUGIN_ID@ && self.result.plugins@[i].enabled
    }
}

/// Whether this plugin is enabled, as far as the answer could be read.
pub fn plugin_enabled(parsed: Option<&PluginListResponse>) -> (r: Option<bool>)
    ensures
        r == match parsed {
            Some(response) => Some(response.enabled()),
            None => None,
        },
{
    match parsed {
        Some(response) => {
            for i in 0..response.result.plugins.len()
                invariant
                    parsed == Some(response),
                    forall|j: int|
                        0 <= j < i ==> !((#[trigger] response.result.plugins@[j]).plugin_id@
                            == PLUGIN_ID@ && response.result.plugins@[j].enabled),
            {
                let plugin: &PluginSummary = &response.result.plugins[i];
                if same(plugin.plugin_id.as_str(), PLUGIN_ID) && plugin.enabled {
                    return Some(true);
                }
            }
            Some(false)
        },
        None => None,
    }
}

/// What a probe of Herdr found.
#[derive(Debug, Clone, Copy, PartialEq, Eq, Structural)]
pub enum HerdrProbe {
    Ready,
    PluginUnavailable,
    ServerUnavailable,
}

/// What the answers to a probe say: whether the panes could be listed, and
/// whether the plugin is enabled, as far as that is known.
pub open spec fn probed(panes_listed: bool, enabled: Option<bool>) -> HerdrProbe {
    match enabled {
        Some(enabled) if panes_listed => if enabled {
            HerdrProbe::Ready
        } else {
            HerdrProbe::PluginUnavailable
        },
        _ => HerdrProbe::ServerUnavailable,
    }
}

/// What the answers to a probe say.
pub fn probe_herdr(panes_listed: bool, enabled: Option<bool>) -> (r: HerdrProbe)
    ensures
        r == probed(panes_listed, enabled),
{
    if !panes_listed {
        return HerdrProbe::ServerUnavailable;
    }
    match enabled {
        Some(true) => HerdrProbe::Ready,
        Some(false) => HerdrProbe::PluginUnavailable,
        None => HerdrProbe::ServerUnavailable,
    }
}

/// The command that sets a pane's label.
pub open spec fn set_command(row: Row) -> HerdrCommandView {
    HerdrCommandView::Report { pane_id: row.0, value: Some(row.1) }
}

/// The command that clears a pane's label.
pub open spec fn clear_command(pane_id: Seq<char>) -> HerdrCommandView {
    HerdrCommandView::Report { pane_id, value: None }
}

/// The commands that set the labels of the rows.
pub open spec fn set_commands(rows: Seq<Row>) -> Seq<HerdrCommandView> {
    rows.map_values(|row: Row| set_command(row))
}

/// The commands that clear the labels of the panes.
pub open spec fn clear_commands(panes: Seq<Seq<char>>) -> Seq<HerdrCommandView> {
    panes.map_values(|pane: Seq<char>| clear_command(pane))
}

/// The panes that had a label and have none now.
pub open spec fn dropped(rows: Seq<Row>, seen: Seq<Seq<char>>) -> Seq<Seq<char>> {
    seen.filter(|pane: Seq<char>| lookup(rows, pane) is None)
}

/// The commands that bring Herdr's labels from those of the panes seen to those of
/// the rows: each row is set, and each pane that was dropped is cleared.
pub open spec fn reconciling(rows: Seq<Row>, seen: Seq<Seq<char>>) -> Seq<HerdrCommandView> {
    set_commands(rows) + clear_commands(dropped(rows, seen))
}

/// The contents of a list of commands.
pub open spec fn commands_view(commands: Seq<HerdrCommand>) -> Seq<HerdrCommandView> {
    commands.map_values(|command: HerdrCommand| command@)
}

/// What a snapshot asks of Herdr's metadata.
#[derive(Debug)]
pub struct Reconciliation {
    /// The commands, in the order in which they are given.
    pub commands: Vec<HerdrCommand>,
    /// The panes that have a label then.
    pub seen: Vec<String>,
}

proof fn lemma_filter_one_more<A>(s: Seq<A>, i: int, keep: spec_fn(A) -> bool)
    requires
        0 <= i < s.len(),
    ensures
        s.take(i + 1).filter(keep) == if keep(s[i]) {
            s.take(i).filter(keep).push(s[i])
        } else {
            s.take(i).filter(keep)
        },
{
    reveal(Seq::filter);
    assert(s.take(i + 1).drop_last() =~= s.take(i));
}

/// How many commands were not taken, by what came of each.
pub open spec fn failures(results: Seq<bool>) -> nat
    decreases results.len(),
{
    if results.len() == 0 {
        0
    } else if results.last() {
        failures(results.drop_last())
    } else {
        failures(results.drop_last()) + 1
    }
}

/// How many commands were not taken, by what came of each.
pub fn count_failures(results: &Vec<bool>) -> (r: usize)
    ensures
        r == failures(results@),
{
    let mut count: usize = 0;
    assert(results@.take(0) =~= seq![]);
    for i in 0..results.len()
        invariant
            count == failures(results@.take(i as int)),
            count <= i,
    {
        assert(results@.take(i + 1).drop_last() =~= results@.take(i as int));
        if !results[i] {
            count = count + 1;
        }
    }
    assert(results@.take(results@.len() as int) =~= results@);
    count
}

/// What a snapshot asks of Herdr's metadata, given the panes that have a label.
pub fn reconcile_metadata(snapshot: &StatusSnapshot, seen: &Vec<String>) -> (r: Reconciliation)
    ensures
        commands_view(r.commands@) == reconciling(snapshot@.metadata(), seen.deep_view()),
        r.seen.deep_view() == keys(snapshot@.metadata()),
{
    let current: Rows = metadata(snapshot);
    let ghost rows = current@;
    let ghost sets = set_commands(rows);
    let ghost panes = seen.deep_view();
    let ghost gone = |pane: Seq<char>| lookup(rows, pane) is None;
    let mut commands: Vec<HerdrCommand> = Vec::new();
    let mut current_ids: Vec<String> = Vec::new();
    assert(commands_view(commands@) =~= sets.take(0));
    assert(current_ids.deep_view() =~= keys(rows).take(0));
    for i in 0..current.rows.len()
        invariant
            rows == current@,
            sets == set_commands(rows),
            commands_view(commands@) == sets.take(i as int),
            current_ids.deep_view() == keys(rows).take(i as int),
    {
        let row: &(String, String) = &current.rows[i];
        assert(rows[i as int] == (row.0@, row.1@));
        let ghost so_far = commands_view(commands@);
        let ghost ids = current_ids.deep_view();
        commands.push(
            HerdrCommand::Report { pane_id: row.0.clone(), value: Some(row.1.clone()) },
        );
        current_ids.push(row.0.clone());
        assert(commands_view(commands@) =~= so_far.push(set_command(rows[i as int])));
        assert(sets.take(i + 1) =~= sets.take(i as int).push(sets[i as int]));
        assert(current_ids.deep_view() =~= ids.push(rows[i as int].0));
        assert(current_ids.deep_view() =~= keys(rows).take(i + 1));
    }
    assert(sets.take(rows.len() as int) =~= sets);
    assert(keys(rows).take(rows.len() as int) =~= keys(rows));
    assert(panes.take(0) =~= seq![]);
    assert(panes.take(0).filter(gone) =~= seq![]) by {
        reveal(Seq::filter);
    }
    assert(commands_view(commands@) =~= sets + clear_commands(panes.take(0).filter(gone)));
    for i in 0..seen.len()
        invariant
            rows == current@,
            panes == seen.deep_view(),
            gone == (|pane: Seq<char>| lookup(rows, pane) is None),
            commands_view(commands@) == sets + clear_commands(panes.take(i as int).filter(gone)),
    {
        let pane: &String = &seen[i];
        let ghost kept = panes.take(i as int).filter(gone);
        proof {
            lemma_filter_one_more(panes, i as int, gone);
            assert(panes[i as int] == pane@);
        }
        if current.get(pane.as_str()).is_none() {
            let ghost so_far = commands_view(commands@);
            commands.push(HerdrCommand::Report { pane_id: pane.clone(), value: None });
            assert(commands_view(commands@) =~= so_far.push(clear_command(pane@)));
            assert(clear_commands(kept.push(pane@)) =~= clear_commands(kept).push(
                clear_command(pane@),
            ));
            assert(commands_view(commands@) =~= sets + clear_commands(kept.push(pane@)));
        }
    }
    assert(panes.take(panes.len() as int) =~= panes);
    Reconciliation { commands, seen: current_ids }
}

/// How far the request to open the current dictation has got.
#[derive(Debug)]
pub enum OpenState {
    /// The status is asked for.
    Asking,
    /// A session may be shown. Herdr is to have the focus.
    Checking { session_id: String },
    /// The popup is opened.
    Opening { session_id: String },
    /// The request is over.
    Finished { outcome: OpenOutcome },
}

/// What came of the request.
#[derive(Debug, Clone, Copy, PartialEq, Eq, Structural)]
pub enum OpenOutcome {
    /// The popup is open, or nothing was to be opened.
    Done,
    /// There is no status.
    StatusUnreadable(ClientError),
    /// Herdr did not open the popup.
    PopupRejected,
}

impl OpenOutcome {
    /// What is said of the outcome, where it is an error.
    pub open spec fn text(self) -> Result<(), Seq<char>> {
        match self {
            OpenOutcome::Done => Ok(()),
            OpenOutcome::StatusUnreadable(error) => Err(
                "cannot read dictation status: "@ + error.text(),
            ),
            OpenOutcome::PopupRejected => Err("Herdr could not open the dictation popup"@),
        }
    }

    /// What is said of the outcome, where it is an error.
    pub fn result(&self) -> (r: Result<(), String>)
        ensures
            said(r) == self.text(),
    {
        match self {
            OpenOutcome::Done => Ok(()),
            OpenOutcome::StatusUnreadable(error) => Err(
                joined("cannot read dictation status: ", error.message().as_str()),
            ),
            OpenOutcome::PopupRejected => Err(
                "Herdr could not open the dictation popup".to_string(),
            ),
        }
    }
}

/// The contents of an [`OpenState`].
pub enum OpenModel {
    Asking,
    Checking { session_id: Seq<char> },
    Opening { session_id: Seq<char> },
    Finished { outcome: OpenOutcome },
}

impl View for OpenState {
    type V = OpenModel;

    open spec fn view(&self) -> OpenModel {
        match self {
            OpenState::Asking => OpenModel::Asking,
            OpenState::Checking { session_id } => OpenModel::Checking { session_id: session_id@ },
            OpenState::Opening { session_id } => OpenModel::Opening { session_id: session_id@ },
            OpenState::Finished { outcome } => OpenModel::Finished { outcome: *outcome },
        }
    }
}

/// What the request is to do next.
#[derive(Debug, PartialEq, Eq)]
pub enum OpenAction {
    /// Ask for the present status.
    NextStatus,
    /// Ask whether Herdr has the focus.
    CheckForeground,
    /// Give Herdr a command.
    Herdr(HerdrCommand),
    /// End.
    Exit(OpenOutcome),
}

/// The contents of an [`OpenAction`].
pub enum OpenActionView {
    NextStatus,
    CheckForeground,
    Herdr(HerdrCommandView),
    Exit(OpenOutcome),
}

impl View for OpenAction {
    type V = OpenActionView;

    open spec fn view(&self) -> OpenActionView {
        match self {
            OpenAction::NextStatus => OpenActionView::NextStatus,
            OpenAction::CheckForeground => OpenActionView::CheckForeground,
            OpenAction::Herdr(command) => OpenActionView::Herdr(command@),
            OpenAction::Exit(outcome) => OpenActionView::Exit(*outcome),
        }
    }
}

/// What came of the request's last action.
#[derive(Debug)]
pub enum OpenEvent {
    /// The status, or why there is none.
    Status(Result<StatusSnapshot, ClientError>),
    /// Whether Herdr is known to have the focus.
    Foreground(bool),
    /// Whether Herdr took a command.
    Command(bool),
}

/// The contents of an [`OpenEvent`].
pub enum OpenEventView {
    Status(Result<SnapshotView, ClientError>),
    Foreground(bool),
    Command(bool),
}

impl View for OpenEvent {
    type V = OpenEventView;

    open spec fn view(&self) -> OpenEventView {
        match self {
            OpenEvent::Status(Ok(snapshot)) => OpenEventView::Status(Ok(snapshot@)),
            OpenEvent::Status(Err(error)) => OpenEventView::Status(Err(*error)),
            OpenEvent::Foreground(focus) => OpenEventView::Foreground(*focus),
            OpenEvent::Command(success) => OpenEventView::Command(*success),
        }
    }
}

impl OpenModel {
    /// What is to be done next.
    pub open spec fn asks(self) -> OpenActionView {
        match self {
            OpenModel::Asking => OpenActionView::NextStatus,
            OpenModel::Checking { .. } => OpenActionView::CheckForeground,
            OpenModel::Opening { session_id } => OpenActionView::Herdr(
                HerdrCommandView::OpenPopup { session_id },
            ),
            OpenModel::Finished { outcome } => OpenActionView::Exit(outcome),
        }
    }

    /// The state after an event. An event that was not asked for changes nothing.
    pub open spec fn after(self, event: OpenEventView) -> OpenModel {
        match (self, event) {
            (OpenModel::Asking, OpenEventView::Status(Ok(snapshot))) => {
                match snapshot.dictation.presentable_session() {
                    Some(session_id) => OpenModel::Checking { session_id },
                    None => OpenModel::Finished { outcome: OpenOutcome::Done },
                }
            },
            (OpenModel::Asking, OpenEventView::Status(Err(error))) => OpenModel::Finished {
                outcome: OpenOutcome::StatusUnreadable(error),
            },
            (OpenModel::Checking { session_id }, OpenEventView::Foreground(focus)) => if focus {
                OpenModel::Opening { session_id }
            } else {
                OpenModel::Finished { outcome: OpenOutcome::Done }
            },
            (OpenModel::Opening { .. }, OpenEventView::Command(success)) => OpenModel::Finished {
                outcome: if success {
                    OpenOutcome::Done
                } else {
                    OpenOutcome::PopupRejected
                },
            },
            _ => self,
        }
    }
}

impl OpenState {
    /// What is to be done next.
    pub fn action(&self) -> (r: OpenAction)
        ensures
            r@ == self@.asks(),
    {
        match self {
            OpenState::Asking => OpenAction::NextStatus,
            OpenState::Checking { .. } => OpenAction::CheckForeground,
            OpenState::Opening { session_id } => OpenAction::Herdr(
                HerdrCommand::OpenPopup { session_id: session_id.clone() },
            ),
            OpenState::Finished { outcome } => OpenAction::Exit(*outcome),
        }
    }
}

/// Takes in what came of the last action of a request to open the current dictation.
pub fn open_current_dictation(state: OpenState, event: OpenEvent) -> (r: OpenState)
    ensures
        r@ == state@.after(event@),
{
    match (state, event) {
        (OpenState::Asking, OpenEvent::Status(Ok(snapshot))) => {
            match presentable_session(&snapshot) {
                Some(session_id) => OpenState::Checking { session_id: session_id.to_string() },
                None => OpenState::Finished { outcome: OpenOutcome::Done },
            }
        },
        (OpenState::Asking, OpenEvent::Status(Err(error))) => OpenState::Finished {
            outcome: OpenOutcome::StatusUnreadable(error),
        },
        (OpenState::Checking { session_id }, OpenEvent::Foreground(focus)) => {
            if focus {
                OpenState::Opening { session_id }
            } else {
                OpenState::Finished { outcome: OpenOutcome::Done }
            }
        },
        (OpenState::Opening { .. }, OpenEvent::Command(success)) => OpenState::Finished {
            outcome: if success {
                OpenOutcome::Done
            } else {
                OpenOutcome::PopupRejected
            },
        },
        (state, _) => state,
    }
}

} // verus!
