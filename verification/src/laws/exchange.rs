//! Laws of what is said to Don't Speak and Herdr, and of what their answers mean.

use vstd::prelude::*;

use crate::bridge::{
    command_succeeded, plugin_enabled, popup_candidate, probed, HerdrCommandView, HerdrProbe,
    OpenOutcome, PluginListResponse,
};
use crate::bridge_loop::{BridgeStop, LogLine};
use crate::command::{join_reader, Captured, Output, Reader, ReaderError};
use crate::dictation::{flush_error, render_error, PRESENTER_TTL_MS};
use crate::dontspeak::{
    checked_output, next_status, presenter_acquire, presenter_acquire_args, presenter_lease_args,
    presenter_lease_argv, status_argv, validate_opaque_id, validate_presenter_id, ClientError,
    LeaseResponse, LeaseView, PresenterCommand, PresenterCommandView, PresenterLease,
    STATUS_COMMAND_TIMEOUT_MS, STATUS_LONG_POLL_MS,
};
use crate::herdr::{
    snapshot_foreground_eligible, usable_stdout, SnapshotResponse, SNAPSHOT_TIMEOUT_MS,
};
use crate::instance::{entrypoint, log_is_full, BinaryStamp, Entrypoint};
use crate::laws::process::{law_decimal_reads_back, number};
use crate::laws::status::{law_opaque_ids_are_plain, plain_id};
use crate::model::{DictationView, StatusSnapshot};
use crate::text::decimal;

verus! {

/// A session's popup is due exactly if the session may be shown, Herdr has the focus and
/// nothing else shows it, and it was not opened before, or not less than five seconds
/// before.
pub proof fn law_popup_is_due(
    dictation: DictationView,
    opened: Option<Seq<char>>,
    at: Option<u128>,
    now: u128,
    focus: bool,
    session_id: Seq<char>,
)
    ensures
        popup_candidate(dictation, opened, at, now, focus) == Some(session_id) <==> {
            &&& dictation.presentable_session() == Some(session_id)
            &&& focus
            &&& !dictation.external_ui_active
            &&& opened == Some(session_id) ==> at is Some && now >= at->0 + 5_000_000_000
        },
{
}

/// A popup that is due stays due, as long as nothing but the time changes.
pub proof fn law_popup_stays_due(
    dictation: DictationView,
    session: Option<Seq<char>>,
    at: Option<u128>,
    now: u128,
    later: u128,
    focus: bool,
)
    requires
        now <= later,
        popup_candidate(dictation, session, at, now, focus) is Some,
    ensures
        popup_candidate(dictation, session, at, later, focus) == popup_candidate(
            dictation,
            session,
            at,
            now,
            focus,
        ),
{
}

/// Herdr is ready exactly if its panes could be listed and the plugin is known to be enabled.
/// Only a plugin that is known not to be enabled counts as such, and all else as no Herdr.
pub proof fn law_probe_means(panes_listed: bool, enabled: Option<bool>)
    ensures
        probed(panes_listed, enabled) == HerdrProbe::Ready <==> panes_listed && enabled == Some(
            true,
        ),
        probed(panes_listed, enabled) == HerdrProbe::PluginUnavailable <==> panes_listed && enabled
            == Some(false),
        probed(panes_listed, enabled) == HerdrProbe::ServerUnavailable <==> !panes_listed
            || enabled is None,
{
}

/// The plugin counts as enabled exactly if it is listed under its name as enabled, wherever in
/// the list and whatever else is listed. Of an answer that could not be read nothing is
/// known.
pub proof fn law_enabled_plugin_is_listed(parsed: Option<&PluginListResponse>, r: Option<bool>)
    requires
        call_ensures(plugin_enabled, (parsed,), r),
    ensures
        parsed is None <==> r is None,
        parsed matches Some(response) ==> (r == Some(true) <==> exists|i: int|
            0 <= i < response.result.plugins@.len() && (
            #[trigger] response.result.plugins@[i]).plugin_id@ == "dontspeak.voice"@
                && response.result.plugins@[i].enabled),
{
}

/// A command to Herdr counts as taken exactly if it could be run, ended in time and exited
/// with code zero, whatever it wrote.
pub proof fn law_taken_commands<E>(output: Result<Output, E>, r: bool)
    requires
        call_ensures(command_succeeded::<E>, (&output,), r),
    ensures
        r <==> (output matches Ok(output) && !output.timed_out && output.status.code == Some(0i32)),
{
}

/// An answer is used exactly if the command ended in time and with code zero and was kept
/// whole, and then all of it.
pub proof fn law_used_answers<E>(output: Result<Output, E>, r: Option<Vec<u8>>)
    requires
        call_ensures(usable_stdout::<E>, (output,), r),
    ensures
        r is Some <==> (output matches Ok(output) && !output.timed_out && output.status.code
            == Some(0i32) && !output.stdout_truncated),
        r is Some ==> r == Some(output->Ok_0.stdout),
{
}

/// Herdr has the focus exactly if a session snapshot was read and says so.
pub proof fn law_focus_is_explicit(parsed: Option<&SnapshotResponse>, r: bool)
    requires
        call_ensures(snapshot_foreground_eligible, (parsed,), r),
    ensures
        r <==> (parsed matches Some(response) && response.result.response_type@
            == "session_snapshot"@ && response.result.snapshot.outer_terminal_focus == Some(true)),
{
}

/// An output of Don't Speak is accepted as it is, exactly if the command could be run, ended in
/// time, exited with code zero and was kept whole. The first of these that fails names the
/// error.
pub proof fn law_accepted_outputs<E>(
    output: Result<Output, E>,
    r: Result<Output, ClientError>,
    code: Option<i32>,
)
    requires
        call_ensures(checked_output::<E>, (output,), r),
    ensures
        r is Ok ==> (output matches Ok(given) && r == Ok::<_, ClientError>(given)),
        r == Err::<Output, _>(ClientError::Unavailable) <==> output is Err,
        r == Err::<Output, _>(ClientError::Timeout) <==> (output matches Ok(given)
            && given.timed_out),
        r == Err::<Output, _>(ClientError::Rejected(code)) <==> (output matches Ok(given)
            && !given.timed_out && given.status.code == code && code != Some(0i32)),
        r == Err::<Output, _>(ClientError::Oversized) <==> (output matches Ok(given)
            && !given.timed_out && given.status.code == Some(0i32) && given.stdout_truncated),
        r != Err::<Output, _>(ClientError::Invalid),
{
}

/// A status that was read is handed on, and one that was not is invalid.
pub proof fn law_read_status_is_handed_on(
    parsed: Option<StatusSnapshot>,
    r: Result<StatusSnapshot, ClientError>,
)
    requires
        call_ensures(next_status, (parsed,), r),
    ensures
        r == match parsed {
            Some(snapshot) => Ok(snapshot),
            None => Err(ClientError::Invalid),
        },
{
}

/// A lease is accepted exactly if it was read, has an identifier of 1 to 120 plain characters
/// and lasts, and it is the one in the answer, wrapped or not. All else is invalid.
pub proof fn law_accepted_leases(
    parsed: Option<LeaseResponse>,
    r: Result<PresenterLease, ClientError>,
)
    requires
        call_ensures(presenter_acquire, (parsed,), r),
    ensures
        ({
            let (lease_id, ttl_ms) = match parsed {
                Some(LeaseResponse::Direct(payload)) => (payload.lease_id@, payload.ttl_ms),
                Some(LeaseResponse::Wrapped { result }) => (result.lease_id@, result.ttl_ms),
                None => (seq![], 0u64),
            };
            &&& r is Ok <==> ttl_ms > 0 && plain_id(lease_id)
            &&& r matches Ok(lease) ==> lease@ == (LeaseView { lease_id, ttl_ms })
            &&& r matches Err(error) ==> error == ClientError::Invalid
        }),
{
    if let Some(response) = parsed {
        law_opaque_ids_are_plain(response.lease().lease_id);
    }
}

/// What was read from a pipe is handed on, nothing where there was no pipe, and each failure as
/// what it is.
pub proof fn law_pipes_are_handed_on<E>(reader: Reader<E>, r: Result<Captured, ReaderError<E>>)
    requires
        call_ensures(join_reader::<E>, (reader,), r),
    ensures
        match reader {
            Reader::Absent => r matches Ok(captured) && captured.bytes@.len() == 0
                && !captured.truncated,
            Reader::Panicked => r == Err::<Captured, _>(ReaderError::<E>::Panicked),
            Reader::Finished(Ok(captured)) => r == Ok::<_, ReaderError<E>>(captured),
            Reader::Finished(Err(error)) => r == Err::<Captured, _>(ReaderError::Failed(error)),
        },
{
}

/// The status is asked for in JSON: at once, or as the one that follows a number, with the time
/// for which that may be waited. The number reads back.
pub proof fn law_status_arguments(since: Option<u64>)
    ensures
        status_argv(since)[0] == "status"@,
        status_argv(since)[1] == "--json"@,
        since is None ==> status_argv(since).len() == 2,
        since matches Some(n) ==> {
            &&& status_argv(since).len() == 6
            &&& status_argv(since)[2] == "--since"@
            &&& number(status_argv(since)[3]) == n
            &&& status_argv(since)[4] == "--timeout-ms"@
            &&& number(status_argv(since)[5]) == 1_000
        },
{
    law_decimal_reads_back(1_000);
    if let Some(n) = since {
        law_decimal_reads_back(n as nat);
    }
}

/// A command of a presenter names what it does, the lease or the presenter, and the session, each
/// as one argument behind its option. The time that a lease is to last comes last, where the
/// command sets one, and reads back.
pub proof fn law_presenter_arguments(command: PresenterCommandView)
    ensures
        ({
            let argv = command.argv();
            let (name, option, id, session, ttl) = match command {
                PresenterCommandView::Acquire { presenter_id, session_id, ttl_ms } => (
                    "acquire"@,
                    "--id"@,
                    presenter_id,
                    session_id,
                    Some(ttl_ms),
                ),
                PresenterCommandView::Ready { lease_id, session_id } => (
                    "ready"@,
                    "--lease"@,
                    lease_id,
                    session_id,
                    None,
                ),
                PresenterCommandView::Renew { lease_id, session_id, ttl_ms } => (
                    "renew"@,
                    "--lease"@,
                    lease_id,
                    session_id,
                    Some(ttl_ms),
                ),
                PresenterCommandView::Release { lease_id, session_id } => (
                    "release"@,
                    "--lease"@,
                    lease_id,
                    session_id,
                    None,
                ),
            };
            &&& argv[0] == "presenter"@ && argv[1] == name
            &&& argv[2] == option && argv[3] == id
            &&& argv[4] == "--session"@ && argv[5] == session
            &&& match ttl {
                Some(ms) => argv.len() == 8 && argv[6] == "--ttl-ms"@ && number(argv[7]) == ms,
                None => argv.len() == 6,
            }
            &&& command.valid() <==> plain_id(id) && plain_id(session)
        }),
{
    match command {
        PresenterCommandView::Acquire { presenter_id, session_id, ttl_ms } => {
            law_opaque_ids_are_plain(presenter_id);
            law_opaque_ids_are_plain(session_id);
            law_decimal_reads_back(ttl_ms as nat);
        },
        PresenterCommandView::Ready { lease_id, session_id } => {
            law_opaque_ids_are_plain(lease_id);
            law_opaque_ids_are_plain(session_id);
        },
        PresenterCommandView::Renew { lease_id, session_id, ttl_ms } => {
            law_opaque_ids_are_plain(lease_id);
            law_opaque_ids_are_plain(session_id);
            law_decimal_reads_back(ttl_ms as nat);
        },
        PresenterCommandView::Release { lease_id, session_id } => {
            law_opaque_ids_are_plain(lease_id);
            law_opaque_ids_are_plain(session_id);
        },
    }
}

/// A command on a lease, whatever its name, has the same arguments but for the name.
pub proof fn law_lease_arguments(
    name: Seq<char>,
    lease_id: Seq<char>,
    session_id: Seq<char>,
    ttl_ms: Option<u64>,
)
    ensures
        ({
            let argv = presenter_lease_argv(name, lease_id, session_id, ttl_ms);
            &&& argv[0] == "presenter"@ && argv[1] == name
            &&& argv[2] == "--lease"@ && argv[3] == lease_id
            &&& argv[4] == "--session"@ && argv[5] == session_id
            &&& match ttl_ms {
                Some(ms) => argv.len() == 8 && argv[6] == "--ttl-ms"@ && number(argv[7]) == ms,
                None => argv.len() == 6,
            }
        }),
{
    if let Some(ms) = ttl_ms {
        law_decimal_reads_back(ms as nat);
    }
}

/// A command of a presenter has arguments exactly if its identifiers are well formed, whatever
/// its name and however long the lease is to last.
pub proof fn law_well_formed_commands_have_arguments(
    name: &str,
    id: &str,
    session: &str,
    acquire_ms: u64,
    lease_ms: Option<u64>,
    acquire: Result<Vec<String>, ClientError>,
    lease: Result<Vec<String>, ClientError>,
)
    requires
        call_ensures(presenter_acquire_args, (id, session, acquire_ms), acquire),
        call_ensures(presenter_lease_args, (name, id, session, lease_ms), lease),
    ensures
        acquire is Ok <==> plain_id(id@) && plain_id(session@),
        lease is Ok <==> plain_id(id@) && plain_id(session@),
        acquire matches Err(error) ==> error == ClientError::Invalid,
        lease matches Err(error) ==> error == ClientError::Invalid,
        acquire matches Ok(args) ==> args.deep_view() == (PresenterCommandView::Acquire {
            presenter_id: id@,
            session_id: session@,
            ttl_ms: acquire_ms,
        }).argv(),
        lease matches Ok(args) ==> args.deep_view() == presenter_lease_argv(
            name@,
            id@,
            session@,
            lease_ms,
        ),
{
    law_opaque_ids_are_plain(id@);
    law_opaque_ids_are_plain(session@);
}

/// Presenters, leases and sessions are named by the same identifiers.
pub proof fn law_identifiers_are_alike(
    value: &str,
    presenter: Result<(), ClientError>,
    opaque: Result<(), ClientError>,
)
    requires
        call_ensures(validate_presenter_id, (value,), presenter),
        call_ensures(validate_opaque_id, (value,), opaque),
    ensures
        presenter == opaque,
        presenter is Ok <==> plain_id(value@),
        presenter matches Err(error) ==> error == ClientError::Invalid,
{
    law_opaque_ids_are_plain(value@);
}

/// A command gives the arguments of what it is, if its identifiers are well formed.
pub proof fn law_commands_give_their_arguments(
    command: PresenterCommand,
    r: Result<Vec<String>, ClientError>,
)
    requires
        call_ensures(PresenterCommand::args, (&command,), r),
    ensures
        r is Ok <==> command@.valid(),
        r matches Ok(args) ==> args.deep_view() == command@.argv(),
        r matches Err(error) ==> error == ClientError::Invalid,
{
}

/// A label is reported for its pane, from one source and for five seconds. It stands in one
/// argument behind the token's name, whatever it holds, and without a label the token is
/// cleared.
pub proof fn law_report_arguments(pane_id: Seq<char>, value: Option<Seq<char>>)
    ensures
        ({
            let argv = (HerdrCommandView::Report { pane_id, value }).argv();
            &&& argv.len() == 9
            &&& argv[0] == "pane"@ && argv[1] == "report-metadata"@ && argv[2] == pane_id
            &&& argv[3] == "--source"@ && argv[4] == "plugin:dontspeak-voice"@
            &&& argv[5] == "--ttl-ms"@ && argv[6] == "5000"@
            &&& match value {
                Some(value) => argv[7] == "--token"@ && argv[8] == "dontspeak_voice"@ + "="@
                    + value,
                None => argv[7] == "--clear-token"@ && argv[8] == "dontspeak_voice"@,
            }
        }),
{
}

/// The popup is opened as this plugin's dictation pane, without the focus, and the session is
/// handed to it in its environment.
pub proof fn law_popup_arguments(session_id: Seq<char>)
    ensures
        ({
            let argv = (HerdrCommandView::OpenPopup { session_id }).argv();
            &&& argv.len() == 12
            &&& argv[0] == "plugin"@ && argv[1] == "pane"@ && argv[2] == "open"@
            &&& argv[3] == "--plugin"@ && argv[4] == "dontspeak.voice"@
            &&& argv[5] == "--entrypoint"@ && argv[6] == "dictation"@
            &&& argv[7] == "--placement"@ && argv[8] == "popup"@
            &&& argv[9] == "--env"@ && argv[10] == "DONTSPEAK_DICTATION_SESSION"@ + "="@
                + session_id
            &&& argv[11] == "--no-focus"@
        }),
{
}

/// What is said of an exit code ends with the code, which reads back.
pub proof fn law_error_names_its_code(code: i32)
    ensures
        ({
            let text = ClientError::Rejected(Some(code)).text();
            let words = "Don’t Speak command exited with code "@;
            let said = text.skip(words.len() as int);
            &&& text.len() > words.len() && text.take(words.len() as int) == words
            &&& code >= 0 ==> number(said) == code && said[0] != '-'
            &&& code < 0 ==> said[0] == '-' && number(said.drop_first()) == -code
        }),
{
    let text = ClientError::Rejected(Some(code)).text();
    let words = "Don’t Speak command exited with code "@;
    let said = text.skip(words.len() as int);
    let size = if code < 0 {
        (-code) as nat
    } else {
        code as nat
    };
    law_decimal_reads_back(size);
    reveal_strlit("-");
    assert(text.take(words.len() as int) =~= words);
    if code < 0 {
        assert(said =~= "-"@ + decimal(size));
        assert(said.drop_first() =~= decimal(size));
    } else {
        assert(said =~= decimal(size));
    }
}

/// What is said where there is no status names the error, in the log as on request. A bridge that
/// ends because it is not needed says nothing.
pub proof fn law_errors_are_handed_on(error: ClientError, stop: BridgeStop)
    ensures
        OpenOutcome::StatusUnreadable(error).text() == Err::<(), _>(
            "cannot read dictation status: "@ + error.text(),
        ),
        OpenOutcome::Done.text() is Ok,
        OpenOutcome::PopupRejected.text() is Err,
        LogLine::Unavailable(error).text() == "dontspeak-voice: "@ + error.text() + "; retrying"@,
        stop.text() is Ok <==> stop == BridgeStop::Replaced || stop
            == BridgeStop::PluginUnavailable,
{
}

/// What is said of a screen that was not written or not flushed ends with the error.
pub proof fn law_screen_errors_are_handed_on(error: &str, rendering: String, flushing: String)
    requires
        call_ensures(render_error, (error,), rendering),
        call_ensures(flush_error, (error,), flushing),
    ensures
        rendering@ == "could not render dictation: "@ + error@,
        flushing@ == "could not flush dictation: "@ + error@,
{
}

/// A status that is waited for comes before the command for it is given up. That and a look at
/// the focus take less time than a lease lasts.
pub proof fn law_times_fit()
    ensures
        STATUS_LONG_POLL_MS < STATUS_COMMAND_TIMEOUT_MS,
        STATUS_COMMAND_TIMEOUT_MS + SNAPSHOT_TIMEOUT_MS < PRESENTER_TTL_MS,
{
}

/// The program that runs is the current one exactly if it is found with the same size and the
/// same time of writing, known or not.
pub proof fn law_current_program(stamp: BinaryStamp, found: Option<BinaryStamp>, r: bool)
    requires
        call_ensures(BinaryStamp::is_current, (&stamp, found), r),
    ensures
        r <==> (found matches Some(found) && found.len == stamp.len && found.modified
            == stamp.modified),
{
}

/// A log is started anew exactly if there is one of more than 262144 bytes.
pub proof fn law_full_log(len: Option<u64>, r: bool)
    requires
        call_ensures(log_is_full, (len,), r),
    ensures
        r <==> (len matches Some(len) && len > 262_144),
{
}

/// The program is started for what its only argument names, and for nothing with no argument or
/// with more.
pub proof fn law_only_argument_counts(
    first: Option<&str>,
    second: Option<&str>,
    r: Option<Entrypoint>,
)
    requires
        call_ensures(entrypoint, (first, second), r),
    ensures
        second is Some || first is None ==> r is None,
        r == Some(Entrypoint::Startup) ==> first is Some && first->0@ == "startup"@,
        r == Some(Entrypoint::Bridge) ==> first is Some && first->0@ == "bridge"@,
        r == Some(Entrypoint::Open) ==> first is Some && first->0@ == "open"@,
        r == Some(Entrypoint::Dictation) ==> first is Some && first->0@ == "dictation"@,
        second is None && first is Some && (first->0@ == "startup"@ || first->0@ == "bridge"@
            || first->0@ == "open"@ || first->0@ == "dictation"@) ==> r is Some,
{
}

} // verus!
