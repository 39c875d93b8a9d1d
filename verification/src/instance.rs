//! The bridge as a process: the lock that keeps it single, the stamp that tells
//! when its program was replaced, the size of its log, and the entry points of
//! the program.

use vstd::prelude::*;

use crate::text::{hexadecimal, hexadecimal_string, joined, same};

verus! {

/// The pause before the lock is tried again, in milliseconds.
pub const LOCK_RETRY_INTERVAL_MS: u64 = 500;

/// How often the lock is tried.
pub const LOCK_RETRY_COUNT: usize = 40;

/// The size up to which the log grows, in bytes.
pub const BRIDGE_LOG_MAX_BYTES: u64 = 256 * 1024;

/// The name of the lock for a Herdr socket, by the hash of the socket's path.
pub open spec fn lock_name(socket_hash: u64) -> Seq<char> {
    "bridge-"@ + hexadecimal(socket_hash as nat, 16) + ".lock"@
}

/// The name of the lock for a Herdr socket, by the hash of the socket's path.
pub fn lock_file_name(socket_hash: u64) -> (r: String)
    ensures
        r@ == lock_name(socket_hash),
{
    joined("bridge-", hexadecimal_string(socket_hash).as_str()).concat(".lock")
}

/// What follows a try to take the lock.
#[derive(Debug, PartialEq, Eq)]
pub enum LockStep<L, E> {
    /// The lock is taken.
    Hold(L),
    /// Another bridge holds it: try again after a pause, as this attempt.
    Retry { attempt: usize },
    /// Another bridge held it all the time.
    GiveUp,
    /// The lock could not be tried.
    Fail(E),
}

/// What follows the try that was the given attempt, counted from zero.
pub open spec fn lock_step<L, E>(attempt: usize, tried: Result<Option<L>, E>) -> LockStep<L, E> {
    match tried {
        Ok(Some(lock)) => LockStep::Hold(lock),
        Ok(None) => if attempt + 1 < LOCK_RETRY_COUNT {
            LockStep::Retry { attempt: (attempt + 1) as usize }
        } else {
            LockStep::GiveUp
        },
        Err(error) => LockStep::Fail(error),
    }
}

/// What follows the try that was the given attempt, counted from zero. A try gives the
/// lock, or nothing where another bridge holds it.
pub fn acquire_bridge_lock_with_retry<L, E>(attempt: usize, tried: Result<Option<L>, E>) -> (r:
    LockStep<L, E>)
    ensures
        r == lock_step(attempt, tried),
{
    match tried {
        Ok(Some(lock)) => LockStep::Hold(lock),
        Ok(None) => {
            if attempt < LOCK_RETRY_COUNT - 1 {
                LockStep::Retry { attempt: attempt + 1 }
            } else {
                LockStep::GiveUp
            }
        },
        Err(error) => LockStep::Fail(error),
    }
}

/// A point in time, by its distance from the epoch.
#[derive(Debug, Clone, Copy, PartialEq, Eq, Structural)]
pub struct FileTime {
    pub before_epoch: bool,
    pub secs: u64,
    pub nanos: u32,
}

/// What tells one build of the program from another: its size, and when it was
/// written, where that is known.
#[derive(Debug, Clone, Copy, PartialEq, Eq, Structural)]
pub struct BinaryStamp {
    pub len: u64,
    pub modified: Option<FileTime>,
}

fn same_time(a: Option<FileTime>, b: Option<FileTime>) -> (r: bool)
    ensures
        r == (a == b),
{
    match (a, b) {
        (Some(a), Some(b)) => a == b,
        (None, None) => true,
        _ => false,
    }
}

impl BinaryStamp {
    /// Whether the program that is found has the same stamp. Where none is found,
    /// it was replaced.
    pub fn is_current(&self, found: Option<BinaryStamp>) -> (r: bool)
        ensures
            r == (found == Some(*self)),
    {
        match found {
            Some(found) => found.len == self.len && same_time(found.modified, self.modified),
            None => false,
        }
    }
}

/// Whether a log of that size is to be started anew. Where there is no log, it is not.
pub fn log_is_full(len: Option<u64>) -> (r: bool)
    ensures
        r == (len matches Some(len) && len > BRIDGE_LOG_MAX_BYTES),
{
    match len {
        Some(len) => len > BRIDGE_LOG_MAX_BYTES,
        None => false,
    }
}

/// What the program is started for.
#[derive(Debug, Clone, Copy, PartialEq, Eq, Structural)]
pub enum Entrypoint {
    /// Start the bridge, and leave it running.
    Startup,
    /// Be the bridge.
    Bridge,
    /// Open the popup for the current dictation.
    Open,
    /// Be the popup.
    Dictation,
}

/// The entry point of a name.
pub open spec fn named(name: Seq<char>) -> Option<Entrypoint> {
    if name == "startup"@ {
        Some(Entrypoint::Startup)
    } else if name == "bridge"@ {
        Some(Entrypoint::Bridge)
    } else if name == "open"@ {
        Some(Entrypoint::Open)
    } else if name == "dictation"@ {
        Some(Entrypoint::Dictation)
    } else {
        None
    }
}

/// The entry point that the program's arguments name: there is to be one argument.
pub fn entrypoint(first: Option<&str>, second: Option<&str>) -> (r: Option<Entrypoint>)
    ensures
        r == match (first, second) {
            (Some(name), None) => named(name@),
            _ => None,
        },
{
    match (first, second) {
        (Some(name), None) => {
            if same(name, "startup") {
                Some(Entrypoint::Startup)
            } else if same(name, "bridge") {
                Some(Entrypoint::Bridge)
            } else if same(name, "open") {
                Some(Entrypoint::Open)
            } else if same(name, "dictation") {
                Some(Entrypoint::Dictation)
            } else {
                None
            }
        },
        _ => None,
    }
}

} // verus!
