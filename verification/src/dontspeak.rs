//! The command line of Don't Speak: what its commands are called with, and which
//! of their answers are accepted.

use vstd::prelude::*;

use crate::command::Output;
use crate::model::{opaque_id, valid_opaque_id, StatusSnapshot};
use crate::text::{decimal, decimal_string, joined};

verus! {

/// How long a status command may hold its answer back, in milliseconds.
pub const STATUS_LONG_POLL_MS: u64 = 1_000;

/// How long a status command may take, in milliseconds.
pub const STATUS_COMMAND_TIMEOUT_MS: u64 = 2_000;

/// How long a presenter command may take, in milliseconds.
pub const PRESENTER_COMMAND_TIMEOUT_MS: u64 = 3_000;

/// Why Don't Speak gave no answer.
#[derive(Debug, Clone, Copy, PartialEq, Eq, Structural)]
pub enum ClientError {
    /// The command could not be run.
    Unavailable,
    /// The command took too long.
    Timeout,
    /// The command failed, with its exit code if it had one.
    Rejected(Option<i32>),
    /// The answer was longer than what is kept of it.
    Oversized,
    /// The answer, or what was asked, is not well formed.
    Invalid,
}

/// A number in decimal, with a minus sign where it is negative.
pub open spec fn signed_decimal(n: int) -> Seq<char> {
    if n < 0 {
        "-"@ + decimal((-n) as nat)
    } else {
        decimal(n as nat)
    }
}

impl ClientError {
    /// What is said of the error. Nothing of an answer is in it.
    pub open spec fn text(self) -> Seq<char> {
        match self {
            ClientError::Unavailable => "Don’t Speak is unavailable"@,
            ClientError::Timeout => "Don’t Speak command timed out"@,
            ClientError::Rejected(Some(code)) => "Don’t Speak command exited with code "@
                + signed_decimal(code as int),
            ClientError::Rejected(None) => "Don’t Speak command was terminated"@,
            ClientError::Oversized => "Don’t Speak response exceeded the size limit"@,
            ClientError::Invalid => "Don’t Speak returned an invalid response"@,
        }
    }

    /// What is said of the error.
    pub fn message(&self) -> (r: String)
        ensures
            r@ == self.text(),
    {
        match self {
            ClientError::Unavailable => "Don’t Speak is unavailable".to_string(),
            ClientError::Timeout => "Don’t Speak command timed out".to_string(),
            ClientError::Rejected(Some(code)) => {
                let code: i64 = *code as i64;
                let digits: String = if code < 0 {
                    joined("-", decimal_string((-code) as u64).as_str())
                } else {
                    decimal_string(code as u64)
                };
                joined("Don’t Speak command exited with code ", digits.as_str())
            },
            ClientError::Rejected(None) => "Don’t Speak command was terminated".to_string(),
            ClientError::Oversized => "Don’t Speak response exceeded the size limit".to_string(),
            ClientError::Invalid => "Don’t Speak returned an invalid response".to_string(),
        }
    }
}

/// The answer of a command that ended in time, succeeded and was kept whole.
pub fn checked_output<E>(output: Result<Output, E>) -> (r: Result<Output, ClientError>)
    ensures
        r == match output {
            Err(_) => Err(ClientError::Unavailable),
            Ok(output) => if output.timed_out {
                Err(ClientError::Timeout)
            } else if !output.status.ok() {
                Err(ClientError::Rejected(output.status.code))
            } else if output.stdout_truncated {
                Err(ClientError::Oversized)
            } else {
                Ok(output)
            },
        },
{
    match output {
        Err(_) => Err(ClientError::Unavailable),
        Ok(output) => {
            if output.timed_out {
                return Err(ClientError::Timeout);
            }
            if !output.success() {
                return Err(ClientError::Rejected(output.status.code));
            }
            if output.stdout_truncated {
                return Err(ClientError::Oversized);
            }
            Ok(output)
        },
    }
}

/// The arguments that ask for the status: for the next one after `since`, or for
/// the present one.
pub open spec fn status_argv(since: Option<u64>) -> Seq<Seq<char>> {
    match since {
        Some(since) => seq![
            "status"@,
            "--json"@,
            "--since"@,
            decimal(since as nat),
            "--timeout-ms"@,
            decimal(STATUS_LONG_POLL_MS as nat),
        ],
        None => seq!["status"@, "--json"@],
    }
}

/// The arguments that ask for the status.
pub fn status_args(since: Option<u64>) -> (r: Vec<String>)
    ensures
        r.deep_view() == status_argv(since),
{
    let mut args: Vec<String> = vec!["status".to_string(), "--json".to_string()];
    if let Some(since) = since {
        args.push("--since".to_string());
        args.push(decimal_string(since));
        args.push("--timeout-ms".to_string());
        args.push(decimal_string(STATUS_LONG_POLL_MS));
    }
    assert(args.deep_view() =~= status_argv(since));
    args
}

/// The status that the answer held. An answer that is not a whole snapshot is
/// rejected, with whatever of it could be read.
pub fn next_status(parsed: Option<StatusSnapshot>) -> (r: Result<StatusSnapshot, ClientError>)
    ensures
        r == match parsed {
            Some(snapshot) => Ok(snapshot),
            None => Err(ClientError::Invalid),
        },
{
    match parsed {
        Some(snapshot) => Ok(snapshot),
        None => Err(ClientError::Invalid),
    }
}

/// Accepts the identifier of a presenter.
pub fn validate_presenter_id(value: &str) -> (r: Result<(), ClientError>)
    ensures
        r == if opaque_id(value@) {
            Ok(())
        } else {
            Err(ClientError::Invalid)
        },
{
    if valid_opaque_id(value) {
        Ok(())
    } else {
        Err(ClientError::Invalid)
    }
}

/// Accepts an opaque identifier.
pub fn validate_opaque_id(value: &str) -> (r: Result<(), ClientError>)
    ensures
        r == if opaque_id(value@) {
            Ok(())
        } else {
            Err(ClientError::Invalid)
        },
{
    if valid_opaque_id(value) {
        Ok(())
    } else {
        Err(ClientError::Invalid)
    }
}

/// The right to present a dictation.
#[derive(Debug, Clone, PartialEq, Eq)]
pub struct PresenterLease {
    pub lease_id: String,
    pub ttl_ms: u64,
}

/// The contents of a [`PresenterLease`].
pub struct LeaseView {
    pub lease_id: Seq<char>,
    pub ttl_ms: u64,
}

impl View for PresenterLease {
    type V = LeaseView;

    open spec fn view(&self) -> LeaseView {
        LeaseView { lease_id: self.lease_id@, ttl_ms: self.ttl_ms }
    }
}

/// A lease as Don't Speak writes it.
#[derive(Debug)]
pub struct LeasePayload {
    pub lease_id: String,
    pub ttl_ms: u64,
}

/// An answer that holds a lease, by itself or as the result of a call.
#[derive(Debug)]
pub enum LeaseResponse {
    Direct(LeasePayload),
    Wrapped { result: LeasePayload },
}

impl LeaseResponse {
    /// The lease in the answer, however it is wrapped.
    pub open spec fn lease(self) -> LeaseView {
        match self {
            LeaseResponse::Direct(payload) => LeaseView {
                lease_id: payload.lease_id@,
                ttl_ms: payload.ttl_ms,
            },
            LeaseResponse::Wrapped { result } => LeaseView {
                lease_id: result.lease_id@,
                ttl_ms: result.ttl_ms,
            },
        }
    }

    /// The lease in the answer.
    pub fn into_lease(self) -> (r: PresenterLease)
        ensures
            r@ == self.lease(),
    {
        let payload: LeasePayload = match self {
            LeaseResponse::Direct(payload) => payload,
            LeaseResponse::Wrapped { result } => result,
        };
        PresenterLease { lease_id: payload.lease_id, ttl_ms: payload.ttl_ms }
    }
}

/// A lease that can be used: its identifier is well formed, and it lasts.
pub open spec fn usable_lease(lease: LeaseView) -> bool {
    opaque_id(lease.lease_id) && lease.ttl_ms > 0
}

/// The lease that was acquired. An answer that could not be read, or that holds a
/// lease that cannot be used, is rejected.
pub fn presenter_acquire(parsed: Option<LeaseResponse>) -> (r: Result<PresenterLease, ClientError>)
    ensures
        match parsed {
            Some(response) if usable_lease(response.lease()) => r is Ok && r->Ok_0@
                == response.lease(),
            _ => r == Err::<PresenterLease, _>(ClientError::Invalid),
        },
{
    match parsed {
        Some(response) => {
            let lease: PresenterLease = response.into_lease();
            if !valid_opaque_id(lease.lease_id.as_str()) || lease.ttl_ms == 0 {
                return Err(ClientError::Invalid);
            }
            Ok(lease)
        },
        None => Err(ClientError::Invalid),
    }
}

/// The arguments that ask for a lease.
pub open spec fn presenter_acquire_argv(
    presenter_id: Seq<char>,
    session_id: Seq<char>,
    ttl_ms: u64,
) -> Seq<Seq<char>> {
    seq![
        "presenter"@,
        "acquire"@,
        "--id"@,
        presenter_id,
        "--session"@,
        session_id,
        "--ttl-ms"@,
        decimal(ttl_ms as nat),
    ]
}

/// The arguments that ask for a lease. Both identifiers are to be well formed.
pub fn presenter_acquire_args(presenter_id: &str, session_id: &str, ttl_ms: u64) -> (r: Result<
    Vec<String>,
    ClientError,
>)
    ensures
        if opaque_id(presenter_id@) && opaque_id(session_id@) {
            r is Ok && r->Ok_0.deep_view() == presenter_acquire_argv(
                presenter_id@,
                session_id@,
                ttl_ms,
            )
        } else {
            r == Err::<Vec<String>, _>(ClientError::Invalid)
        },
{
    if validate_presenter_id(presenter_id).is_err() || validate_opaque_id(session_id).is_err() {
        return Err(ClientError::Invalid);
    }
    let args: Vec<String> = vec![
        "presenter".to_string(),
        "acquire".to_string(),
        "--id".to_string(),
        presenter_id.to_string(),
        "--session".to_string(),
        session_id.to_string(),
        "--ttl-ms".to_string(),
        decimal_string(ttl_ms),
    ];
    assert(args.deep_view() =~= presenter_acquire_argv(presenter_id@, session_id@, ttl_ms));
    Ok(args)
}

/// The arguments of a command on a lease.
pub open spec fn presenter_lease_argv(
    command_name: Seq<char>,
    lease_id: Seq<char>,
    session_id: Seq<char>,
    ttl_ms: Option<u64>,
) -> Seq<Seq<char>> {
    let args = seq![
        "presenter"@,
        command_name,
        "--lease"@,
        lease_id,
        "--session"@,
        session_id,
    ];
    match ttl_ms {
        Some(ttl_ms) => args + seq!["--ttl-ms"@, decimal(ttl_ms as nat)],
        None => args,
    }
}

/// The arguments of a command on a lease. Both identifiers are to be well formed.
pub fn presenter_lease_args(
    command_name: &str,
    lease_id: &str,
    session_id: &str,
    ttl_ms: Option<u64>,
) -> (r: Result<Vec<String>, ClientError>)
    ensures
        if opaque_id(lease_id@) && opaque_id(session_id@) {
            r is Ok && r->Ok_0.deep_view() == presenter_lease_argv(
                command_name@,
                lease_id@,
                session_id@,
                ttl_ms,
            )
        } else {
            r == Err::<Vec<String>, _>(ClientError::Invalid)
        },
{
    if validate_opaque_id(lease_id).is_err() || validate_opaque_id(session_id).is_err() {
        return Err(ClientError::Invalid);
    }
    let mut args: Vec<String> = vec![
        "presenter".to_string(),
        command_name.to_string(),
        "--lease".to_string(),
        lease_id.to_string(),
        "--session".to_string(),
        session_id.to_string(),
    ];
    if let Some(ttl_ms) = ttl_ms {
        args.push("--ttl-ms".to_string());
        args.push(decimal_string(ttl_ms));
    }
    assert(args.deep_view() =~= presenter_lease_argv(command_name@, lease_id@, session_id@, ttl_ms));
    Ok(args)
}

/// A command by which a presenter deals with its lease.
#[derive(Debug, PartialEq, Eq)]
pub enum PresenterCommand {
    Acquire { presenter_id: String, session_id: String, ttl_ms: u64 },
    Ready { lease_id: String, session_id: String },
    Renew { lease_id: String, session_id: String, ttl_ms: u64 },
    Release { lease_id: String, session_id: String },
}

/// The contents of a [`PresenterCommand`].
pub enum PresenterCommandView {
    Acquire { presenter_id: Seq<char>, session_id: Seq<char>, ttl_ms: u64 },
    Ready { lease_id: Seq<char>, session_id: Seq<char> },
    Renew { lease_id: Seq<char>, session_id: Seq<char>, ttl_ms: u64 },
    Release { lease_id: Seq<char>, session_id: Seq<char> },
}

impl View for PresenterCommand {
    type V = PresenterCommandView;

    open spec fn view(&self) -> PresenterCommandView {
        match self {
            PresenterCommand::Acquire {
                presenter_id,
                session_id,
                ttl_ms,
            } => PresenterCommandView::Acquire {
                presenter_id: presenter_id@,
                session_id: session_id@,
                ttl_ms: *ttl_ms,
            },
            PresenterCommand::Ready { lease_id, session_id } => PresenterCommandView::Ready {
                lease_id: lease_id@,
                session_id: session_id@,
            },
            PresenterCommand::Renew { lease_id, session_id, ttl_ms } => PresenterCommandView::Renew {
                lease_id: lease_id@,
                session_id: session_id@,
                ttl_ms: *ttl_ms,
            },
            PresenterCommand::Release { lease_id, session_id } => PresenterCommandView::Release {
                lease_id: lease_id@,
                session_id: session_id@,
            },
        }
    }
}

impl PresenterCommandView {
    /// The identifiers of the command are well formed.
    pub open spec fn valid(self) -> bool {
        match self {
            PresenterCommandView::Acquire { presenter_id, session_id, .. } => opaque_id(
                presenter_id,
            ) && opaque_id(session_id),
            PresenterCommandView::Ready { lease_id, session_id } => opaque_id(lease_id)
                && opaque_id(session_id),
            PresenterCommandView::Renew { lease_id, session_id, .. } => opaque_id(lease_id)
                && opaque_id(session_id),
            PresenterCommandView::Release { lease_id, session_id } => opaque_id(lease_id)
                && opaque_id(session_id),
        }
    }

    /// The arguments of the command.
    pub open spec fn argv(self) -> Seq<Seq<char>> {
        match self {
            PresenterCommandView::Acquire {
                presenter_id,
                session_id,
                ttl_ms,
            } => presenter_acquire_argv(presenter_id, session_id, ttl_ms),
            PresenterCommandView::Ready { lease_id, session_id } => presenter_lease_argv(
                "ready"@,
                lease_id,
                session_id,
                None,
            ),
            PresenterCommandView::Renew { lease_id, session_id, ttl_ms } => presenter_lease_argv(
                "renew"@,
                lease_id,
                session_id,
                Some(ttl_ms),
            ),
            PresenterCommandView::Release { lease_id, session_id } => presenter_lease_argv(
                "release"@,
                lease_id,
                session_id,
                None,
            ),
        }
    }
}

impl PresenterCommand {
    /// The arguments of the command, if its identifiers are well formed.
    pub fn args(&self) -> (r: Result<Vec<String>, ClientError>)
        ensures
            if self@.valid() {
                r is Ok && r->Ok_0.deep_view() == self@.argv()
            } else {
                r == Err::<Vec<String>, _>(ClientError::Invalid)
            },
    {
        match self {
            PresenterCommand::Acquire {
                presenter_id,
                session_id,
                ttl_ms,
            } => presenter_acquire_args(presenter_id.as_str(), session_id.as_str(), *ttl_ms),
            PresenterCommand::Ready { lease_id, session_id } => presenter_lease_args(
                "ready",
                lease_id.as_str(),
                session_id.as_str(),
                None,
            ),
            PresenterCommand::Renew { lease_id, session_id, ttl_ms } => presenter_lease_args(
                "renew",
                lease_id.as_str(),
                session_id.as_str(),
                Some(*ttl_ms),
            ),
            PresenterCommand::Release { lease_id, session_id } => presenter_lease_args(
                "release",
                lease_id.as_str(),
                session_id.as_str(),
                None,
            ),
        }
    }
}

} // verus!
