//! The records that the pool keeps, and what its operations answer.

use vstd::prelude::*;

verus! {

/// A connection that waits in the idle stack.
#[derive(Clone, Copy, Debug, PartialEq, Eq, Structural)]
pub struct IdleEntry {
    pub id: u64,
    /// When the connection was opened.
    pub created_at: u64,
    /// When it was last put back.
    pub idle_since: u64,
}

/// A connection that a caller holds.
#[derive(Clone, Copy, Debug, PartialEq, Eq, Structural)]
pub struct Lease {
    pub id: u64,
    /// When the connection was opened.
    pub created_at: u64,
}

/// A caller that waits for a connection.
#[derive(Clone, Copy, Debug, PartialEq, Eq, Structural)]
pub struct Waiter {
    pub ticket: u64,
    /// The instant from which the wait counts as timed out.
    pub deadline: u64,
}

/// How an acquisition begins.
#[derive(Clone, Copy, Debug, PartialEq, Eq, Structural)]
pub enum Acquire {
    /// The idle connection `id` is lent to the caller.
    Ready { id: u64 },
    /// The caller waits under `ticket`. With `connect` set, a connection has
    /// to be opened now and its result reported.
    Queued { ticket: u64, deadline: u64, connect: bool },
}

/// What an acquisition answers: how it begins, and the idle connections
/// that it found stale, which have to be closed.
#[derive(Debug)]
pub struct Acquired {
    pub outcome: Acquire,
    pub closed: Vec<u64>,
}

/// What becomes of a connection that was opened.
#[derive(Clone, Copy, Debug, PartialEq, Eq, Structural)]
pub enum Connected {
    /// No connection attempt was pending; nothing changed.
    Unexpected,
    /// The new connection `id` goes to the caller that waits under `ticket`.
    Granted { ticket: u64, id: u64 },
    /// The new connection `id` is idle.
    Idle { id: u64 },
}

/// What follows a failed connection attempt.
#[derive(Clone, Copy, Debug, PartialEq, Eq, Structural)]
pub enum ConnectFailure {
    /// No connection attempt was pending; nothing changed.
    Unexpected,
    /// Try again as attempt number `attempt`, after waiting `delay`.
    Retry { attempt: u32, delay: u64 },
    /// The attempt is abandoned. The caller that waits under `failed`, if
    /// any, gets a connect failure. With `connect` set, a new series of
    /// attempts has to begin for the callers that still wait.
    GaveUp { failed: Option<u64>, connect: bool },
}

/// What becomes of a connection that is given back.
#[derive(Clone, Copy, Debug, PartialEq, Eq, Structural)]
pub enum Released {
    /// The pool has not lent this connection; nothing changed.
    Unknown,
    /// The connection is idle again.
    Idle,
    /// The connection passes on to the caller that waits under `ticket`.
    Granted { ticket: u64 },
    /// The connection has to be closed. With `connect` set, a connection has
    /// to be opened in its place for a caller that waits.
    Closed { connect: bool },
}

/// What follows a failed liveness probe of a lent connection.
#[derive(Debug)]
pub enum Revalidated {
    /// The pool has not lent this connection; nothing changed.
    Unknown,
    /// The connection has to be closed and the acquisition begins again, as
    /// attempt number `attempt` and as `acquired` says. With `replace` set, a
    /// connection has to be opened for a caller that already waited.
    Retry { attempt: u32, replace: bool, acquired: Acquired },
    /// The connection has to be closed and the acquisition fails.
    Failed { replace: bool },
}

/// What a timer finds when it fires for a waiting caller.
#[derive(Clone, Copy, Debug, PartialEq, Eq, Structural)]
pub enum Timeout {
    /// The deadline has passed: the caller left the queue and times out.
    Expired,
    /// The caller still waits; its deadline lies ahead.
    Pending { deadline: u64 },
    /// Nobody waits under this ticket.
    Gone,
}

/// The next step for a connection outside the pool.
#[derive(Clone, Copy, Debug, PartialEq, Eq, Structural)]
pub enum Dedicated {
    /// The connection is open and belongs to the caller alone.
    Opened,
    /// Try again as attempt number `attempt`, after waiting `delay`.
    Retry { attempt: u32, delay: u64 },
    /// The retry bound is reached: a connect failure.
    Failed,
}

/// A snapshot of the pool's counters.
#[derive(Clone, Copy, Debug, PartialEq, Eq, Structural)]
pub struct State {
    /// Live connections: idle, lent, and being opened.
    pub connections: u32,
    /// Idle connections.
    pub idle_connections: u32,
}

} // verus!
