//! The mathematical model of the pool and of each of its operations.

use vstd::prelude::*;
use crate::config::{Configuration, Retry};
use crate::entry::{
    Acquire, ConnectFailure, Connected, Dedicated, IdleEntry, Lease, Released, State, Timeout,
    Waiter,
};

verus! {

/// The pool as plain values. The idle connections form a stack whose top is
/// the last element; the waiting callers form a queue whose head is the
/// first element.
pub struct PoolView {
    pub config: Configuration,
    pub idle: Seq<IdleEntry>,
    pub leased: Seq<Lease>,
    /// Connection attempts in progress.
    pub connecting: nat,
    pub waiters: Seq<Waiter>,
    /// The identifier that the next opened connection gets.
    pub next_id: nat,
    /// The ticket that the next waiting caller gets.
    pub next_ticket: nat,
    /// Connections opened outside the pool, for diagnosis.
    pub dedicated: nat,
}

/// What can happen to a pool.
pub enum Event {
    /// A caller asks for a connection.
    Acquire { now: u64 },
    /// A connection attempt succeeded.
    ConnectSucceeded { now: u64 },
    /// Connection attempt number `attempt` failed.
    ConnectFailed { attempt: u32 },
    /// A caller gives connection `id` back.
    Release { id: u64, now: u64, broken: bool },
    /// The liveness probe of the lent connection `id` failed.
    ValidationFailed { id: u64, now: u64, attempt: u32 },
    /// The caller with `ticket` stops waiting.
    Cancel { ticket: u64 },
    /// The timer of the caller with `ticket` fires.
    TimeOut { ticket: u64, now: u64 },
    /// An attempt at a connection outside the pool ended.
    Dedicated { connected: bool },
}

/// Whether an idle connection may still be lent at `now`.
pub open spec fn fresh(config: Configuration, e: IdleEntry, now: u64) -> bool {
    !config.expired(e.created_at, now) && !config.idled_out(e.idle_since, now)
}

/// How much of the idle stack, counted from the bottom, ends in a fresh
/// connection at `now`: everything above that connection is stale. Zero when
/// nothing is fresh.
pub open spec fn keep_len(config: Configuration, idle: Seq<IdleEntry>, now: u64) -> nat
    decreases idle.len(),
{
    if idle.len() == 0 {
        0
    } else if fresh(config, idle.last(), now) {
        idle.len()
    } else {
        keep_len(config, idle.drop_last(), now)
    }
}

/// The identifiers of idle connections, in stack order.
pub open spec fn ids_of(idle: Seq<IdleEntry>) -> Seq<u64> {
    Seq::new(idle.len(), |i: int| idle[i].id)
}

/// The identifiers of lent connections, in the order of their leases.
pub open spec fn lease_ids(leased: Seq<Lease>) -> Seq<u64> {
    Seq::new(leased.len(), |i: int| leased[i].id)
}

/// The tickets of waiting callers, in queue order.
pub open spec fn tickets_of(waiters: Seq<Waiter>) -> Seq<u64> {
    Seq::new(waiters.len(), |i: int| waiters[i].ticket)
}

impl PoolView {
    /// Connections that are open: idle or lent.
    pub open spec fn established(self) -> nat {
        self.idle.len() + self.leased.len()
    }

    /// Connections that count against `max_size`: idle, lent, or being
    /// opened.
    pub open spec fn total_live(self) -> nat {
        self.idle.len() + self.leased.len() + self.connecting
    }

    /// Whether the connection `id` is idle.
    pub open spec fn is_idle(self, id: u64) -> bool {
        exists|i: int| 0 <= i < self.idle.len() && #[trigger] self.idle[i].id == id
    }

    /// Whether the connection `id` is lent.
    pub open spec fn is_leased(self, id: u64) -> bool {
        exists|i: int| 0 <= i < self.leased.len() && #[trigger] self.leased[i].id == id
    }

    /// Whether the pool holds connection `id`, idle or lent.
    pub open spec fn holds(self, id: u64) -> bool {
        self.is_idle(id) || self.is_leased(id)
    }

    /// Whether a caller waits under `ticket`.
    pub open spec fn is_waiting(self, ticket: u64) -> bool {
        exists|i: int| 0 <= i < self.waiters.len() && #[trigger] self.waiters[i].ticket == ticket
    }

    /// Where the lease of connection `id` stands, if it is lent.
    pub open spec fn lease_index(self, id: u64) -> Option<int> {
        if self.is_leased(id) {
            Some(choose|i: int| 0 <= i < self.leased.len() && #[trigger] self.leased[i].id == id)
        } else {
            None
        }
    }

    /// Where the caller with `ticket` stands in the queue, if it waits.
    pub open spec fn waiter_index(self, ticket: u64) -> Option<int> {
        if self.is_waiting(ticket) {
            Some(
                choose|i: int|
                    0 <= i < self.waiters.len() && #[trigger] self.waiters[i].ticket == ticket,
            )
        } else {
            None
        }
    }

    /// Every connection has one identifier, given out before `next_id`, and
    /// stands in one place.
    pub open spec fn ids_wf(self) -> bool {
        &&& forall|i: int| 0 <= i < self.idle.len() ==> (#[trigger] self.idle[i]).id < self.next_id
        &&& forall|i: int|
            0 <= i < self.leased.len() ==> (#[trigger] self.leased[i]).id < self.next_id
        &&& forall|i: int, j: int|
            0 <= i < j < self.idle.len() ==> (#[trigger] self.idle[i]).id != (
            #[trigger] self.idle[j]).id
        &&& forall|i: int, j: int|
            0 <= i < j < self.leased.len() ==> (#[trigger] self.leased[i]).id != (
            #[trigger] self.leased[j]).id
        &&& forall|i: int, j: int|
            0 <= i < self.idle.len() && 0 <= j < self.leased.len() ==> (
            #[trigger] self.idle[i]).id != (#[trigger] self.leased[j]).id
    }

    /// Every waiting caller has one ticket, given out before `next_ticket`.
    pub open spec fn tickets_wf(self) -> bool {
        &&& forall|i: int|
            0 <= i < self.waiters.len() ==> (#[trigger] self.waiters[i]).ticket < self.next_ticket
        &&& forall|i: int, j: int|
            0 <= i < j < self.waiters.len() ==> (#[trigger] self.waiters[i]).ticket != (
            #[trigger] self.waiters[j]).ticket
    }

    /// The invariant of the pool: the bound on live connections holds;
    /// nobody waits while a connection is idle; whoever waits without a
    /// connection attempt of their own waits because the pool is full; and
    /// the counters fit in a `u64`.
    pub open spec fn wf(self) -> bool {
        &&& self.config.wf()
        &&& self.total_live() <= self.config.max_size
        &&& self.ids_wf()
        &&& self.tickets_wf()
        &&& (self.waiters.len() > 0 ==> self.idle.len() == 0)
        &&& (self.waiters.len() > self.connecting ==> self.total_live() == self.config.max_size)
        &&& self.next_id <= u64::MAX
        &&& self.next_ticket <= u64::MAX
        &&& self.dedicated <= u64::MAX
    }

    /// Whether identifiers for new connections are left.
    pub open spec fn has_ids(self) -> bool {
        self.next_id < u64::MAX
    }

    /// Whether tickets for waiting callers are left.
    pub open spec fn has_tickets(self) -> bool {
        self.next_ticket < u64::MAX
    }

    /// The pool at startup: one connection attempt in progress for each of
    /// the `min_idle` eager connections, and nothing else.
    pub open spec fn initial(config: Configuration) -> PoolView {
        PoolView {
            config,
            idle: Seq::empty(),
            leased: Seq::empty(),
            connecting: config.min_idle as nat,
            waiters: Seq::empty(),
            next_id: 0,
            next_ticket: 0,
            dedicated: 0,
        }
    }

    /// The counters that a snapshot reports.
    pub open spec fn state(self) -> State
        recommends
            self.wf(),
    {
        State {
            connections: self.total_live() as u32,
            idle_connections: self.idle.len() as u32,
        }
    }

    /// How much of the idle stack an acquisition at `now` keeps or lends.
    pub open spec fn keep(self, now: u64) -> nat {
        keep_len(self.config, self.idle, now)
    }

    /// Whether an acquisition that finds nothing to lend at `now` has to
    /// open a connection: there is room, and no attempt in progress is left
    /// for the new caller.
    pub open spec fn acquire_connects(self) -> bool {
        self.waiters.len() + 1 > self.connecting && self.leased.len() + self.connecting
            < self.config.max_size
    }

    /// How an acquisition at `now` begins.
    pub open spec fn acquire_outcome(self, now: u64) -> Acquire {
        let k = self.keep(now);
        if k > 0 {
            Acquire::Ready { id: self.idle[k - 1].id }
        } else {
            Acquire::Queued {
                ticket: self.next_ticket as u64,
                deadline: self.config.deadline_spec(now),
                connect: self.acquire_connects(),
            }
        }
    }

    /// The stale connections that an acquisition at `now` discards.
    pub open spec fn acquire_closed(self, now: u64) -> Seq<u64> {
        ids_of(self.idle.skip(self.keep(now) as int))
    }

    /// The pool after an acquisition at `now`. The stale top of the idle
    /// stack is discarded. The topmost fresh connection is lent; where there
    /// is none, the caller joins the queue.
    pub open spec fn acquire(self, now: u64) -> PoolView {
        let k = self.keep(now);
        if k > 0 {
            let e = self.idle[k - 1];
            PoolView {
                idle: self.idle.take(k - 1),
                leased: self.leased.push(Lease { id: e.id, created_at: e.created_at }),
                ..self
            }
        } else {
            PoolView {
                idle: Seq::empty(),
                waiters: self.waiters.push(
                    Waiter {
                        ticket: self.next_ticket as u64,
                        deadline: self.config.deadline_spec(now),
                    },
                ),
                next_ticket: self.next_ticket + 1,
                connecting: if self.acquire_connects() {
                    self.connecting + 1
                } else {
                    self.connecting
                },
                ..self
            }
        }
    }

    /// What becomes of a connection opened at `now`.
    pub open spec fn connect_succeeded_outcome(self) -> Connected {
        if self.connecting == 0 {
            Connected::Unexpected
        } else if self.waiters.len() > 0 {
            Connected::Granted { ticket: self.waiters[0].ticket, id: self.next_id as u64 }
        } else {
            Connected::Idle { id: self.next_id as u64 }
        }
    }

    /// The pool after a connection was opened at `now`: it goes to the head
    /// of the queue, or to the idle stack where nobody waits.
    pub open spec fn connect_succeeded(self, now: u64) -> PoolView {
        if self.connecting == 0 {
            self
        } else if self.waiters.len() > 0 {
            PoolView {
                connecting: (self.connecting - 1) as nat,
                next_id: self.next_id + 1,
                waiters: self.waiters.drop_first(),
                leased: self.leased.push(Lease { id: self.next_id as u64, created_at: now }),
                ..self
            }
        } else {
            PoolView {
                connecting: (self.connecting - 1) as nat,
                next_id: self.next_id + 1,
                idle: self.idle.push(
                    IdleEntry { id: self.next_id as u64, created_at: now, idle_since: now },
                ),
                ..self
            }
        }
    }

    /// What follows the failure of connection attempt number `attempt`.
    pub open spec fn connect_failed_outcome(self, attempt: u32) -> ConnectFailure {
        if self.connecting == 0 {
            ConnectFailure::Unexpected
        } else {
            match self.config.retry_spec(attempt) {
                Retry::Again { attempt, delay } => ConnectFailure::Retry { attempt, delay },
                Retry::GiveUp => if self.waiters.len() > 0 {
                    ConnectFailure::GaveUp {
                        failed: Some(self.waiters[0].ticket),
                        connect: self.waiters.len() > self.connecting,
                    }
                } else {
                    ConnectFailure::GaveUp { failed: None, connect: false }
                },
            }
        }
    }

    /// The pool after connection attempt number `attempt` failed. Within the
    /// retry bound nothing changes. Beyond it the attempt ends and the head
    /// of the queue leaves with a failure; where callers remain that no other
    /// attempt serves, a new series of attempts takes the place of this one.
    pub open spec fn connect_failed(self, attempt: u32) -> PoolView {
        if self.connecting == 0 {
            self
        } else {
            match self.config.retry_spec(attempt) {
                Retry::Again { .. } => self,
                Retry::GiveUp => if self.waiters.len() > 0 {
                    PoolView {
                        waiters: self.waiters.drop_first(),
                        connecting: if self.waiters.len() > self.connecting {
                            self.connecting
                        } else {
                            (self.connecting - 1) as nat
                        },
                        ..self
                    }
                } else {
                    PoolView { connecting: (self.connecting - 1) as nat, ..self }
                },
            }
        }
    }

    /// Whether connection `id`, lent and given back at `now`, is discarded.
    pub open spec fn discards(self, lease: Lease, now: u64, broken: bool) -> bool {
        broken || self.config.expired(lease.created_at, now)
    }

    /// What becomes of connection `id`, given back at `now`.
    pub open spec fn release_outcome(self, id: u64, now: u64, broken: bool) -> Released {
        match self.lease_index(id) {
            None => Released::Unknown,
            Some(i) => if self.discards(self.leased[i], now, broken) {
                Released::Closed { connect: self.waiters.len() > self.connecting }
            } else if self.waiters.len() > 0 {
                Released::Granted { ticket: self.waiters[0].ticket }
            } else {
                Released::Idle
            },
        }
    }

    /// The pool after connection `id` was given back at `now`. A broken or
    /// expired connection leaves the pool, and where a caller waits that no
    /// attempt serves, an attempt begins in its place. A sound connection
    /// passes to the head of the queue, or to the top of the idle stack where
    /// nobody waits.
    pub open spec fn release(self, id: u64, now: u64, broken: bool) -> PoolView {
        match self.lease_index(id) {
            None => self,
            Some(i) => if self.discards(self.leased[i], now, broken) {
                PoolView {
                    leased: self.leased.remove(i),
                    connecting: if self.waiters.len() > self.connecting {
                        self.connecting + 1
                    } else {
                        self.connecting
                    },
                    ..self
                }
            } else if self.waiters.len() > 0 {
                PoolView { waiters: self.waiters.drop_first(), ..self }
            } else {
                PoolView {
                    leased: self.leased.remove(i),
                    idle: self.idle.push(
                        IdleEntry {
                            id,
                            created_at: self.leased[i].created_at,
                            idle_since: now,
                        },
                    ),
                    ..self
                }
            },
        }
    }

    /// The pool after the caller with `ticket` stopped waiting.
    pub open spec fn cancel(self, ticket: u64) -> PoolView {
        match self.waiter_index(ticket) {
            None => self,
            Some(i) => PoolView { waiters: self.waiters.remove(i), ..self },
        }
    }

    /// What a timer that fires at `now` finds for `ticket`.
    pub open spec fn time_out_outcome(self, ticket: u64, now: u64) -> Timeout {
        match self.waiter_index(ticket) {
            None => Timeout::Gone,
            Some(i) => if now >= self.waiters[i].deadline {
                Timeout::Expired
            } else {
                Timeout::Pending { deadline: self.waiters[i].deadline }
            },
        }
    }

    /// The pool after a timer fired at `now` for `ticket`: the caller leaves
    /// the queue if its deadline has passed.
    pub open spec fn time_out(self, ticket: u64, now: u64) -> PoolView {
        if self.time_out_outcome(ticket, now) == Timeout::Expired {
            self.cancel(ticket)
        } else {
            self
        }
    }

    /// The next step for a connection outside the pool, after attempt number
    /// `attempt` ended.
    pub open spec fn dedicated_outcome(self, connected: bool, attempt: u32) -> Dedicated {
        if connected {
            Dedicated::Opened
        } else {
            match self.config.retry_spec(attempt) {
                Retry::Again { attempt, delay } => Dedicated::Retry { attempt, delay },
                Retry::GiveUp => Dedicated::Failed,
            }
        }
    }

    /// The pool after an attempt at a connection outside the pool: only the
    /// diagnostic counter moves, and it stops at the largest `u64`.
    pub open spec fn dedicated_connection(self, connected: bool) -> PoolView {
        if connected && self.dedicated < u64::MAX {
            PoolView { dedicated: self.dedicated + 1, ..self }
        } else {
            self
        }
    }

    /// The pool after the liveness probe of the lent connection `id` failed
    /// at `now`, in acquisition attempt number `attempt`: the connection is
    /// discarded as broken, and within the retry bound the acquisition
    /// begins again.
    pub open spec fn validation_failed(self, id: u64, now: u64, attempt: u32) -> PoolView {
        if self.lease_index(id).is_none() {
            self
        } else if attempt < self.config.max_retries {
            self.release(id, now, true).acquire(now)
        } else {
            self.release(id, now, true)
        }
    }

    /// Whether the counters leave room for an acquisition at `now`: it
    /// needs a ticket, unless it lends an idle connection.
    pub open spec fn admits_acquire(self, now: u64) -> bool {
        self.has_tickets() || self.acquire_outcome(now) is Ready
    }

    /// Whether the counters leave room for the report of an opened
    /// connection: it needs an identifier, unless no attempt is pending.
    pub open spec fn admits_connect(self) -> bool {
        self.has_ids() || self.connecting == 0
    }

    /// Whether the counters leave room for the report of a failed probe:
    /// where the acquisition begins again, they must admit it.
    pub open spec fn admits_validation_failed(self, id: u64, now: u64, attempt: u32) -> bool {
        self.is_leased(id) && attempt < self.config.max_retries ==> self.release(
            id,
            now,
            true,
        ).admits_acquire(now)
    }

    /// Whether the counters leave room for `event`: an event that queues a
    /// caller needs a ticket, one that adds a connection an identifier.
    pub open spec fn admits(self, event: Event) -> bool {
        match event {
            Event::Acquire { now } => self.admits_acquire(now),
            Event::ValidationFailed { id, now, attempt } => self.admits_validation_failed(
                id,
                now,
                attempt,
            ),
            Event::ConnectSucceeded { .. } => self.admits_connect(),
            _ => true,
        }
    }

    /// The pool after `event`.
    pub open spec fn step(self, event: Event) -> PoolView {
        match event {
            Event::Acquire { now } => self.acquire(now),
            Event::ConnectSucceeded { now } => self.connect_succeeded(now),
            Event::ConnectFailed { attempt } => self.connect_failed(attempt),
            Event::Release { id, now, broken } => self.release(id, now, broken),
            Event::ValidationFailed { id, now, attempt } => self.validation_failed(
                id,
                now,
                attempt,
            ),
            Event::Cancel { ticket } => self.cancel(ticket),
            Event::TimeOut { ticket, now } => self.time_out(ticket, now),
            Event::Dedicated { connected } => self.dedicated_connection(connected),
        }
    }

    /// The pool after the events of `events`, in their order.
    pub open spec fn after(self, events: Seq<Event>) -> PoolView
        decreases events.len(),
    {
        if events.len() == 0 {
            self
        } else {
            self.after(events.drop_last()).step(events.last())
        }
    }

    /// Whether the counters leave room for each event of `events` in turn.
    pub open spec fn admits_all(self, events: Seq<Event>) -> bool
        decreases events.len(),
    {
        events.len() == 0 || (self.admits_all(events.drop_last()) && self.after(
            events.drop_last(),
        ).admits(events.last()))
    }

    /// Whether connection `id` was opened once and has left the pool.
    pub open spec fn retired(self, id: u64) -> bool {
        id < self.next_id && !self.holds(id)
    }

    /// Connections that callers hold or that are being opened.
    pub open spec fn committed(self) -> nat {
        self.leased.len() + self.connecting
    }

    /// Whether an acquisition at `now` is served at once: it is lent a
    /// connection, or a connection attempt begins for it.
    pub open spec fn serves(self, now: u64) -> bool {
        match self.acquire_outcome(now) {
            Acquire::Ready { .. } => true,
            Acquire::Queued { connect, .. } => connect,
        }
    }

    /// The pool after `n` acquisitions at `now`.
    pub open spec fn acquire_many(self, now: u64, n: nat) -> PoolView
        decreases n,
    {
        if n == 0 {
            self
        } else {
            self.acquire_many(now, (n - 1) as nat).acquire(now)
        }
    }

    /// How many of `n` acquisitions at `now` are served at once.
    pub open spec fn served(self, now: u64, n: nat) -> nat
        decreases n,
    {
        if n == 0 {
            0
        } else {
            self.served(now, (n - 1) as nat) + if self.acquire_many(now, (n - 1) as nat).serves(
                now,
            ) {
                1nat
            } else {
                0nat
            }
        }
    }
}

} // verus!
