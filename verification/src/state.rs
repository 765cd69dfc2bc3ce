//! The pool's bookkeeping: which connections are idle, which are lent, how
//! many are being opened, and who waits.
//!
//! The state does no I/O. Each operation records an event and answers with
//! what the caller has to do: lend, open or close a connection, wake a
//! caller. All changes go through `&mut self`, so one lock around the state
//! serialises them.

use vstd::prelude::*;
use crate::config::{has_elapsed, Configuration};
use crate::config::Retry;
use crate::entry::{
    Acquire, Acquired, ConnectFailure, Connected, Dedicated, IdleEntry, Lease, Released,
    Revalidated, State, Timeout, Waiter,
};
use crate::laws::{
    acquire_keeps_wf, cancel_keeps_wf, connect_failed_keeps_wf, connect_succeeded_keeps_wf,
    keep_len_bounds, lease_index_unique, release_keeps_wf, waiter_index_unique,
};
use crate::view::{fresh, ids_of, keep_len, lease_ids, tickets_of, PoolView};

verus! {

/// The shared state of a pool.
#[derive(Debug)]
pub struct PoolState {
    config: Configuration,
    idle: Vec<IdleEntry>,
    leased: Vec<Lease>,
    connecting: u32,
    waiters: Vec<Waiter>,
    next_id: u64,
    next_ticket: u64,
    dedicated: u64,
}

impl View for PoolState {
    type V = PoolView;

    closed spec fn view(&self) -> PoolView {
        PoolView {
            config: self.config,
            idle: self.idle@,
            leased: self.leased@,
            connecting: self.connecting as nat,
            waiters: self.waiters@,
            next_id: self.next_id as nat,
            next_ticket: self.next_ticket as nat,
            dedicated: self.dedicated as nat,
        }
    }
}

/// Whether an idle connection may still be lent at `now`.
fn is_fresh(config: &Configuration, e: &IdleEntry, now: u64) -> (r: bool)
    ensures
        r == fresh(*config, *e, now),
{
    !has_elapsed(config.max_lifetime, e.created_at, now) && !has_elapsed(
        config.idle_timeout,
        e.idle_since,
        now,
    )
}

impl PoolState {
    /// The invariant of the pool, on its model.
    pub open spec fn wf(&self) -> bool {
        self@.wf()
    }

    /// Whether identifiers for new connections are left.
    pub open spec fn has_ids(&self) -> bool {
        self@.has_ids()
    }

    /// Whether tickets for waiting callers are left.
    pub open spec fn has_tickets(&self) -> bool {
        self@.has_tickets()
    }

    /// A pool at startup. The caller opens `min_idle` connections and
    /// reports each result; a failure among them does not fail the pool.
    pub fn new(config: Configuration) -> (s: PoolState)
        requires
            config.wf(),
        ensures
            s@ == PoolView::initial(config),
            s.wf(),
    {
        PoolState {
            config,
            idle: Vec::new(),
            leased: Vec::new(),
            connecting: config.min_idle,
            waiters: Vec::new(),
            next_id: 0,
            next_ticket: 0,
            dedicated: 0,
        }
    }

    /// The configuration that the pool was built with.
    pub fn config(&self) -> (c: Configuration)
        ensures
            c == self@.config,
    {
        self.config
    }

    /// How many connection attempts are in progress.
    pub fn connecting(&self) -> (n: u32)
        ensures
            n == self@.connecting,
    {
        self.connecting
    }

    /// The idle connections, bottom of the stack first.
    pub fn idle_ids(&self) -> (ids: Vec<u64>)
        ensures
            ids@ == ids_of(self@.idle),
    {
        let mut ids: Vec<u64> = Vec::new();
        let mut i: usize = 0;
        while i < self.idle.len()
            invariant
                i <= self.idle@.len(),
                ids@ == ids_of(self.idle@.take(i as int)),
            decreases self.idle@.len() - i,
        {
            ids.push(self.idle[i].id);
            i = i + 1;
            proof {
                assert(ids@ =~= ids_of(self.idle@.take(i as int)));
            }
        }
        proof {
            assert(self.idle@.take(i as int) =~= self.idle@);
        }
        ids
    }

    /// The lent connections, in the order of their leases.
    pub fn leased_ids(&self) -> (ids: Vec<u64>)
        ensures
            ids@ == lease_ids(self@.leased),
    {
        let mut ids: Vec<u64> = Vec::new();
        let mut i: usize = 0;
        while i < self.leased.len()
            invariant
                i <= self.leased@.len(),
                ids@ == lease_ids(self.leased@.take(i as int)),
            decreases self.leased@.len() - i,
        {
            ids.push(self.leased[i].id);
            i = i + 1;
            proof {
                assert(ids@ =~= lease_ids(self.leased@.take(i as int)));
            }
        }
        proof {
            assert(self.leased@.take(i as int) =~= self.leased@);
        }
        ids
    }

    /// The tickets of the waiting callers, head of the queue first.
    pub fn waiting_tickets(&self) -> (tickets: Vec<u64>)
        ensures
            tickets@ == tickets_of(self@.waiters),
    {
        let mut tickets: Vec<u64> = Vec::new();
        let mut i: usize = 0;
        while i < self.waiters.len()
            invariant
                i <= self.waiters@.len(),
                tickets@ == tickets_of(self.waiters@.take(i as int)),
            decreases self.waiters@.len() - i,
        {
            tickets.push(self.waiters[i].ticket);
            i = i + 1;
            proof {
                assert(tickets@ =~= tickets_of(self.waiters@.take(i as int)));
            }
        }
        proof {
            assert(self.waiters@.take(i as int) =~= self.waiters@);
        }
        tickets
    }

    /// Whether the counters leave room for an acquisition at `now`.
    pub fn can_acquire(&self, now: u64) -> (r: bool)
        ensures
            r == self@.admits_acquire(now),
    {
        self.next_ticket < u64::MAX || self.keep(now) > 0
    }

    /// Whether the counters leave room for the report of an opened
    /// connection.
    pub fn can_connect(&self) -> (r: bool)
        ensures
            r == self@.admits_connect(),
    {
        self.next_id < u64::MAX || self.connecting == 0
    }

    /// Executable form of [`PoolState::has_ids`].
    pub fn ids_left(&self) -> (r: bool)
        ensures
            r == self.has_ids(),
    {
        self.next_id < u64::MAX
    }

    /// Executable form of [`PoolState::has_tickets`].
    pub fn tickets_left(&self) -> (r: bool)
        ensures
            r == self.has_tickets(),
    {
        self.next_ticket < u64::MAX
    }

    /// A snapshot of the counters. Reads only.
    pub fn state(&self) -> (s: State)
        requires
            self.wf(),
        ensures
            s == self@.state(),
            s.connections == self@.idle.len() + self@.leased.len() + self@.connecting,
            s.idle_connections == self@.idle.len(),
            s.idle_connections <= s.connections <= self@.config.max_size,
    {
        let idle: u32 = self.idle.len() as u32;
        let leased: u32 = self.leased.len() as u32;
        State { connections: idle + leased + self.connecting, idle_connections: idle }
    }

    /// How much of the idle stack an acquisition at `now` keeps or lends.
    fn keep(&self, now: u64) -> (k: usize)
        ensures
            k == self@.keep(now),
            k <= self.idle@.len(),
    {
        let mut k: usize = self.idle.len();
        proof {
            assert(self.idle@.take(k as int) =~= self.idle@);
        }
        while k > 0 && !is_fresh(&self.config, &self.idle[k - 1], now)
            invariant
                k <= self.idle@.len(),
                keep_len(self.config, self.idle@, now) == keep_len(
                    self.config,
                    self.idle@.take(k as int),
                    now,
                ),
            decreases k,
        {
            proof {
                assert(self.idle@.take(k as int).last() == self.idle@[k - 1]);
                assert(self.idle@.take(k as int).drop_last() =~= self.idle@.take(k - 1));
            }
            k = k - 1;
        }
        proof {
            if k > 0 {
                assert(self.idle@.take(k as int).last() == self.idle@[k - 1]);
            }
        }
        k
    }

    /// Begins an acquisition at `now`. The stale top of the idle stack is
    /// discarded and reported in `closed`. The topmost fresh connection is
    /// lent at once. Where there is none the caller is queued, and a
    /// connection attempt begins for it if the pool has room and no attempt
    /// in progress is left for it.
    pub fn acquire(&mut self, now: u64) -> (r: Acquired)
        requires
            old(self).wf(),
            old(self)@.admits_acquire(now),
        ensures
            final(self).wf(),
            final(self)@ == old(self)@.acquire(now),
            r.outcome == old(self)@.acquire_outcome(now),
            r.closed@ == old(self)@.acquire_closed(now),
    {
        proof {
            acquire_keeps_wf(self@, now);
            keep_len_bounds(self.config, self.idle@, now);
        }
        let k: usize = self.keep(now);
        let n: usize = self.idle.len();
        let mut closed: Vec<u64> = Vec::new();
        let mut i: usize = k;
        while i < n
            invariant
                k <= i <= n,
                n == self.idle@.len(),
                closed@ == ids_of(self.idle@.subrange(k as int, i as int)),
            decreases n - i,
        {
            closed.push(self.idle[i].id);
            i = i + 1;
            proof {
                assert(closed@ =~= ids_of(self.idle@.subrange(k as int, i as int)));
            }
        }
        proof {
            assert(self.idle@.subrange(k as int, n as int) =~= self.idle@.skip(k as int));
        }
        if k > 0 {
            let e: IdleEntry = self.idle[k - 1];
            self.idle.truncate(k - 1);
            self.leased.push(Lease { id: e.id, created_at: e.created_at });
            proof {
                assert(self.idle@ =~= old(self)@.idle.take(k - 1));
            }
            Acquired { outcome: Acquire::Ready { id: e.id }, closed }
        } else {
            let ticket: u64 = self.next_ticket;
            let deadline: u64 = self.config.deadline(now);
            let connect: bool = self.waiters.len() >= self.connecting as usize
                && self.leased.len() + (self.connecting as usize) < self.config.max_size as usize;
            self.idle.truncate(0);
            self.waiters.push(Waiter { ticket, deadline });
            self.next_ticket = ticket + 1;
            if connect {
                self.connecting = self.connecting + 1;
            }
            proof {
                assert(self.idle@ =~= Seq::<IdleEntry>::empty());
            }
            Acquired { outcome: Acquire::Queued { ticket, deadline, connect }, closed }
        }
    }

    /// Records that a connection was opened at `now`. It gets the next
    /// identifier and goes to the head of the queue, or to the top of the
    /// idle stack where nobody waits.
    pub fn connect_succeeded(&mut self, now: u64) -> (r: Connected)
        requires
            old(self).wf(),
            old(self)@.admits_connect(),
        ensures
            final(self).wf(),
            final(self)@ == old(self)@.connect_succeeded(now),
            r == old(self)@.connect_succeeded_outcome(),
    {
        proof {
            connect_succeeded_keeps_wf(self@, now);
        }
        if self.connecting == 0 {
            return Connected::Unexpected;
        }
        let id: u64 = self.next_id;
        self.connecting = self.connecting - 1;
        self.next_id = id + 1;
        if self.waiters.len() > 0 {
            let w: Waiter = self.waiters.remove(0);
            self.leased.push(Lease { id, created_at: now });
            proof {
                assert(self.waiters@ =~= old(self)@.waiters.drop_first());
            }
            Connected::Granted { ticket: w.ticket, id }
        } else {
            self.idle.push(IdleEntry { id, created_at: now, idle_since: now });
            Connected::Idle { id }
        }
    }

    /// Records that connection attempt number `attempt` (counted from zero)
    /// failed. Within the retry bound the attempt is to be repeated. Beyond
    /// it the attempt ends, and the head of the queue, if any, leaves with a
    /// connect failure; for callers that remain and that no other attempt
    /// serves, a new series of attempts begins in its place.
    pub fn connect_failed(&mut self, attempt: u32) -> (r: ConnectFailure)
        requires
            old(self).wf(),
        ensures
            final(self).wf(),
            final(self)@ == old(self)@.connect_failed(attempt),
            r == old(self)@.connect_failed_outcome(attempt),
    {
        proof {
            connect_failed_keeps_wf(self@, attempt);
        }
        if self.connecting == 0 {
            return ConnectFailure::Unexpected;
        }
        match self.config.retry(attempt) {
            Retry::Again { attempt, delay } => ConnectFailure::Retry { attempt, delay },
            Retry::GiveUp => {
                if self.waiters.len() > 0 {
                    let connect: bool = self.waiters.len() > self.connecting as usize;
                    let w: Waiter = self.waiters.remove(0);
                    if !connect {
                        self.connecting = self.connecting - 1;
                    }
                    proof {
                        assert(self.waiters@ =~= old(self)@.waiters.drop_first());
                    }
                    ConnectFailure::GaveUp { failed: Some(w.ticket), connect }
                } else {
                    self.connecting = self.connecting - 1;
                    ConnectFailure::GaveUp { failed: None, connect: false }
                }
            },
        }
    }

    /// Where the lease of connection `id` stands.
    fn find_lease(&self, id: u64) -> (r: Option<usize>)
        requires
            self.wf(),
        ensures
            match r {
                Some(i) => self@.lease_index(id) == Some(i as int) && i < self.leased@.len()
                    && self.leased@[i as int].id == id,
                None => self@.lease_index(id).is_none(),
            },
    {
        let mut i: usize = 0;
        while i < self.leased.len()
            invariant
                i <= self.leased@.len(),
                self.wf(),
                forall|j: int| 0 <= j < i ==> (#[trigger] self.leased@[j]).id != id,
            decreases self.leased@.len() - i,
        {
            if self.leased[i].id == id {
                proof {
                    lease_index_unique(self@, id, i as int);
                }
                return Some(i);
            }
            i = i + 1;
        }
        None
    }

    /// Where the caller with `ticket` stands in the queue.
    fn find_waiter(&self, ticket: u64) -> (r: Option<usize>)
        requires
            self.wf(),
        ensures
            match r {
                Some(i) => self@.waiter_index(ticket) == Some(i as int) && i < self.waiters@.len()
                    && self.waiters@[i as int].ticket == ticket,
                None => self@.waiter_index(ticket).is_none(),
            },
    {
        let mut i: usize = 0;
        while i < self.waiters.len()
            invariant
                i <= self.waiters@.len(),
                self.wf(),
                forall|j: int| 0 <= j < i ==> (#[trigger] self.waiters@[j]).ticket != ticket,
            decreases self.waiters@.len() - i,
        {
            if self.waiters[i].ticket == ticket {
                proof {
                    waiter_index_unique(self@, ticket, i as int);
                }
                return Some(i);
            }
            i = i + 1;
        }
        None
    }

    /// Takes back connection `id` at `now`; `broken` says that it can no
    /// longer be used. A broken connection, or one that has outlived
    /// `max_lifetime`, is discarded and frees its place at once; where a
    /// caller waits that no attempt serves, an attempt begins in that place.
    /// A sound connection passes to the head of the queue, or to the top of
    /// the idle stack where nobody waits.
    pub fn release(&mut self, id: u64, now: u64, broken: bool) -> (r: Released)
        requires
            old(self).wf(),
        ensures
            final(self).wf(),
            final(self)@ == old(self)@.release(id, now, broken),
            r == old(self)@.release_outcome(id, now, broken),
    {
        proof {
            release_keeps_wf(self@, id, now, broken);
        }
        let i: usize = match self.find_lease(id) {
            None => {
                return Released::Unknown;
            },
            Some(i) => i,
        };
        let lease: Lease = self.leased[i];
        if broken || has_elapsed(self.config.max_lifetime, lease.created_at, now) {
            let connect: bool = self.waiters.len() > self.connecting as usize;
            self.leased.remove(i);
            if connect {
                self.connecting = self.connecting + 1;
            }
            Released::Closed { connect }
        } else if self.waiters.len() > 0 {
            let w: Waiter = self.waiters.remove(0);
            proof {
                assert(self.waiters@ =~= old(self)@.waiters.drop_first());
            }
            Released::Granted { ticket: w.ticket }
        } else {
            self.leased.remove(i);
            self.idle.push(IdleEntry { id, created_at: lease.created_at, idle_since: now });
            Released::Idle
        }
    }

    /// Takes the caller with `ticket` out of the queue, whatever the time.
    /// Answers whether it was waiting.
    pub fn cancel(&mut self, ticket: u64) -> (r: bool)
        requires
            old(self).wf(),
        ensures
            final(self).wf(),
            final(self)@ == old(self)@.cancel(ticket),
            r == old(self)@.is_waiting(ticket),
    {
        proof {
            cancel_keeps_wf(self@, ticket);
        }
        match self.find_waiter(ticket) {
            None => false,
            Some(i) => {
                self.waiters.remove(i);
                true
            },
        }
    }

    /// A timer fired at `now` for the caller with `ticket`. The caller
    /// leaves the queue and times out exactly when it still waits and `now`
    /// has reached its deadline.
    pub fn time_out(&mut self, ticket: u64, now: u64) -> (r: Timeout)
        requires
            old(self).wf(),
        ensures
            final(self).wf(),
            final(self)@ == old(self)@.time_out(ticket, now),
            r == old(self)@.time_out_outcome(ticket, now),
    {
        proof {
            cancel_keeps_wf(self@, ticket);
        }
        match self.find_waiter(ticket) {
            None => Timeout::Gone,
            Some(i) => {
                let deadline: u64 = self.waiters[i].deadline;
                if now >= deadline {
                    self.waiters.remove(i);
                    Timeout::Expired
                } else {
                    Timeout::Pending { deadline }
                }
            },
        }
    }

    /// Records attempt number `attempt` at a connection outside the pool;
    /// `connected` says whether it was opened. Such a connection never
    /// counts against `max_size` and never becomes idle: of the pool only a
    /// diagnostic counter moves.
    pub fn dedicated_connection(&mut self, connected: bool, attempt: u32) -> (r: Dedicated)
        requires
            old(self).wf(),
        ensures
            final(self).wf(),
            final(self)@ == old(self)@.dedicated_connection(connected),
            r == old(self)@.dedicated_outcome(connected, attempt),
            final(self)@.state() == old(self)@.state(),
    {
        if connected {
            if self.dedicated < u64::MAX {
                self.dedicated = self.dedicated + 1;
            }
            Dedicated::Opened
        } else {
            match self.config.retry(attempt) {
                Retry::Again { attempt, delay } => Dedicated::Retry { attempt, delay },
                Retry::GiveUp => Dedicated::Failed,
            }
        }
    }

    /// How many connections were opened outside the pool.
    pub fn dedicated_opened(&self) -> (n: u64)
        ensures
            n == self@.dedicated,
    {
        self.dedicated
    }

    /// Records that the liveness probe of the lent connection `id` failed at
    /// `now`, in acquisition attempt number `attempt` (counted from zero).
    /// The connection is discarded as a broken one is. Within the retry
    /// bound the acquisition begins again; beyond it the acquisition fails
    /// with a validation failure.
    pub fn validation_failed(&mut self, id: u64, now: u64, attempt: u32) -> (r: Revalidated)
        requires
            old(self).wf(),
            old(self)@.admits_validation_failed(id, now, attempt),
        ensures
            final(self).wf(),
            final(self)@ == old(self)@.validation_failed(id, now, attempt),
            match r {
                Revalidated::Unknown => !old(self)@.is_leased(id),
                Revalidated::Retry { attempt: next, replace, acquired } => {
                    &&& old(self)@.is_leased(id)
                    &&& attempt < old(self)@.config.max_retries
                    &&& next == attempt + 1
                    &&& replace == (old(self)@.waiters.len() > old(self)@.connecting)
                    &&& acquired.outcome == old(self)@.release(id, now, true).acquire_outcome(now)
                    &&& acquired.closed@ == old(self)@.release(id, now, true).acquire_closed(now)
                },
                Revalidated::Failed { replace } => {
                    &&& old(self)@.is_leased(id)
                    &&& attempt >= old(self)@.config.max_retries
                    &&& replace == (old(self)@.waiters.len() > old(self)@.connecting)
                },
            },
    {
        let replace: bool = match self.release(id, now, true) {
            Released::Closed { connect } => connect,
            _ => {
                return Revalidated::Unknown;
            },
        };
        if attempt < self.config.max_retries {
            let acquired: Acquired = self.acquire(now);
            Revalidated::Retry { attempt: attempt + 1, replace, acquired }
        } else {
            Revalidated::Failed { replace }
        }
    }
}

} // verus!
