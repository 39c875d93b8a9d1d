//! What Herdr answers of itself: whether its terminal has the focus.

use vstd::prelude::*;

use crate::command::Output;
use crate::text::same;

verus! {

/// How long Herdr may take for its snapshot, in milliseconds.
pub const SNAPSHOT_TIMEOUT_MS: u64 = 1_000;

/// The arguments that ask Herdr for a snapshot of its session.
pub open spec fn snapshot_argv() -> Seq<Seq<char>> {
    seq!["api"@, "snapshot"@]
}

/// The arguments that ask Herdr for a snapshot of its session.
pub fn snapshot_args() -> (r: Vec<String>)
    ensures
        r.deep_view() == snapshot_argv(),
{
    let args: Vec<String> = vec!["api".to_string(), "snapshot".to_string()];
    assert(args.deep_view() =~= snapshot_argv());
    args
}

/// The answer of a command that ended in time, succeeded and was kept whole.
pub fn usable_stdout<E>(output: Result<Output, E>) -> (r: Option<Vec<u8>>)
    ensures
        r == match output {
            Ok(output) if output.ok() && !output.stdout_truncated => Some(output.stdout),
            _ => None,
        },
{
    match output {
        Ok(output) => {
            if output.success() && !output.stdout_truncated {
                Some(output.stdout)
            } else {
                None
            }
        },
        Err(_) => None,
    }
}

/// Herdr's answer to the question for a snapshot.
#[derive(Debug)]
pub struct SnapshotResponse {
    pub result: SnapshotResult,
}

/// The result in that answer, with the name of its kind.
#[derive(Debug)]
pub struct SnapshotResult {
    pub response_type: String,
    pub snapshot: Snapshot,
}

/// Whether the terminal around Herdr has the focus, where that is known.
#[derive(Debug, Clone, Copy, PartialEq, Eq, Structural)]
pub struct Snapshot {
    pub outer_terminal_focus: Option<bool>,
}

/// Whether Herdr is known to have the focus: a session snapshot says so. An
/// answer that could not be read, or that leaves it open, says nothing.
pub fn snapshot_foreground_eligible(parsed: Option<&SnapshotResponse>) -> (r: bool)
    ensures
        r == (parsed matches Some(response) && response.result.response_type@
            == "session_snapshot"@ && response.result.snapshot.outer_terminal_focus == Some(true)),
{
    match parsed {
        Some(response) => {
            if same(response.result.response_type.as_str(), "session_snapshot") {
                match response.result.snapshot.outer_terminal_focus {
                    Some(focus) => focus,
                    None => false,
                }
            } else {
                false
            }
        },
        None => false,
    }
}

} // verus!
