//! What holds of the pool in every state and across its operations.

use vstd::prelude::*;
use crate::config::Configuration;
use crate::config::Retry;
use crate::entry::{Acquire, ConnectFailure, Connected, IdleEntry, Released, Timeout};
use crate::view::{fresh, ids_of, keep_len, Event, PoolView};

verus! {

/// The kept part of the idle stack is within the stack, and where it is not
/// empty its top is fresh.
pub proof fn keep_len_bounds(config: Configuration, idle: Seq<IdleEntry>, now: u64)
    ensures
        keep_len(config, idle, now) <= idle.len(),
        keep_len(config, idle, now) > 0 ==> fresh(
            config,
            idle[keep_len(config, idle, now) - 1],
            now,
        ),
        forall|i: int|
            keep_len(config, idle, now) <= i < idle.len() ==> !fresh(config, #[trigger] idle[i], now),
    decreases idle.len(),
{
    if idle.len() > 0 && !fresh(config, idle.last(), now) {
        let rest = idle.drop_last();
        keep_len_bounds(config, rest, now);
        assert forall|i: int| keep_len(config, idle, now) <= i < idle.len() implies !fresh(
            config,
            #[trigger] idle[i],
            now,
        ) by {
            if i < rest.len() {
                assert(idle[i] == rest[i]);
            }
        }
    }
}

/// An acquisition keeps the invariant.
pub proof fn acquire_keeps_wf(v: PoolView, now: u64)
    requires
        v.wf(),
        v.admits_acquire(now),
    ensures
        v.acquire(now).wf(),
{
    keep_len_bounds(v.config, v.idle, now);
    let k = v.keep(now);
    let w = v.acquire(now);
    if k > 0 {
        assert(v.waiters.len() == 0);
        assert(w.ids_wf()) by {
            assert forall|i: int| 0 <= i < w.leased.len() implies (#[trigger] w.leased[i]).id
                < w.next_id by {
                if i < v.leased.len() {
                    assert(w.leased[i] == v.leased[i]);
                } else {
                    assert(w.leased[i].id == v.idle[k - 1].id);
                }
            }
            assert forall|i: int, j: int| 0 <= i < j < w.leased.len() implies (
            #[trigger] w.leased[i]).id != (#[trigger] w.leased[j]).id by {
                assert(w.leased[i] == v.leased[i]);
                if j < v.leased.len() {
                    assert(w.leased[j] == v.leased[j]);
                } else {
                    assert(w.leased[j].id == v.idle[k - 1].id);
                }
            }
            assert forall|i: int, j: int|
                0 <= i < w.idle.len() && 0 <= j < w.leased.len() implies (#[trigger] w.idle[i]).id
                != (#[trigger] w.leased[j]).id by {
                assert(w.idle[i] == v.idle[i]);
                if j < v.leased.len() {
                    assert(w.leased[j] == v.leased[j]);
                } else {
                    assert(w.leased[j].id == v.idle[k - 1].id);
                }
            }
        }
    } else {
        assert(w.tickets_wf()) by {
            assert forall|i: int| 0 <= i < w.waiters.len() implies (#[trigger] w.waiters[i]).ticket
                < w.next_ticket by {
                if i < v.waiters.len() {
                    assert(w.waiters[i] == v.waiters[i]);
                }
            }
            assert forall|i: int, j: int| 0 <= i < j < w.waiters.len() implies (
            #[trigger] w.waiters[i]).ticket != (#[trigger] w.waiters[j]).ticket by {
                assert(w.waiters[i] == v.waiters[i]);
                if j < v.waiters.len() {
                    assert(w.waiters[j] == v.waiters[j]);
                }
            }
        }
    }
}

/// Reporting an opened connection keeps the invariant.
pub proof fn connect_succeeded_keeps_wf(v: PoolView, now: u64)
    requires
        v.wf(),
        v.admits_connect(),
    ensures
        v.connect_succeeded(now).wf(),
{
    let w = v.connect_succeeded(now);
    if v.connecting > 0 {
        if v.waiters.len() > 0 {
            drop_first_keeps_tickets(v, w);
            assert(w.ids_wf()) by {
                assert forall|i: int| 0 <= i < w.leased.len() implies (#[trigger] w.leased[i]).id
                    < w.next_id by {
                    if i < v.leased.len() {
                        assert(w.leased[i] == v.leased[i]);
                    }
                }
                assert forall|i: int, j: int| 0 <= i < j < w.leased.len() implies (
                #[trigger] w.leased[i]).id != (#[trigger] w.leased[j]).id by {
                    assert(w.leased[i] == v.leased[i]);
                    if j < v.leased.len() {
                        assert(w.leased[j] == v.leased[j]);
                    }
                }
            }
        } else {
            assert(w.ids_wf()) by {
                assert forall|i: int| 0 <= i < w.idle.len() implies (#[trigger] w.idle[i]).id
                    < w.next_id by {
                    if i < v.idle.len() {
                        assert(w.idle[i] == v.idle[i]);
                    }
                }
                assert forall|i: int, j: int| 0 <= i < j < w.idle.len() implies (
                #[trigger] w.idle[i]).id != (#[trigger] w.idle[j]).id by {
                    assert(w.idle[i] == v.idle[i]);
                    if j < v.idle.len() {
                        assert(w.idle[j] == v.idle[j]);
                    }
                }
                assert forall|i: int, j: int|
                    0 <= i < w.idle.len() && 0 <= j < w.leased.len() implies (
                #[trigger] w.idle[i]).id != (#[trigger] w.leased[j]).id by {
                    if i < v.idle.len() {
                        assert(w.idle[i] == v.idle[i]);
                    }
                }
            }
        }
    }
}

/// Dropping the head of the queue keeps what holds of the tickets.
pub proof fn drop_first_keeps_tickets(v: PoolView, w: PoolView)
    requires
        v.tickets_wf(),
        v.waiters.len() > 0,
        w.waiters == v.waiters.drop_first(),
        w.next_ticket == v.next_ticket,
    ensures
        w.tickets_wf(),
{
    assert forall|i: int, j: int| 0 <= i < j < w.waiters.len() implies (
    #[trigger] w.waiters[i]).ticket != (#[trigger] w.waiters[j]).ticket by {
        assert(w.waiters[i] == v.waiters[i + 1]);
        assert(w.waiters[j] == v.waiters[j + 1]);
    }
    assert forall|i: int| 0 <= i < w.waiters.len() implies (#[trigger] w.waiters[i]).ticket
        < w.next_ticket by {
        assert(w.waiters[i] == v.waiters[i + 1]);
    }
}

/// Reporting a failed connection attempt keeps the invariant.
pub proof fn connect_failed_keeps_wf(v: PoolView, attempt: u32)
    requires
        v.wf(),
    ensures
        v.connect_failed(attempt).wf(),
{
    let w = v.connect_failed(attempt);
    if v.connecting > 0 && v.config.retry_spec(attempt) == crate::config::Retry::GiveUp
        && v.waiters.len() > 0 {
        drop_first_keeps_tickets(v, w);
    }
}

/// Where a connection is lent, its lease stands at one index only.
pub proof fn lease_index_unique(v: PoolView, id: u64, i: int)
    requires
        v.ids_wf(),
        0 <= i < v.leased.len(),
        v.leased[i].id == id,
    ensures
        v.lease_index(id) == Some(i),
{
    let c = v.lease_index(id).unwrap();
    assert(v.is_leased(id));
    if c < i {
        assert(v.leased[c].id != v.leased[i].id);
    } else if i < c {
        assert(v.leased[i].id != v.leased[c].id);
    }
}

/// Where a caller waits, it stands at one index only.
pub proof fn waiter_index_unique(v: PoolView, ticket: u64, i: int)
    requires
        v.tickets_wf(),
        0 <= i < v.waiters.len(),
        v.waiters[i].ticket == ticket,
    ensures
        v.waiter_index(ticket) == Some(i),
{
    let c = v.waiter_index(ticket).unwrap();
    assert(v.is_waiting(ticket));
    if c < i {
        assert(v.waiters[c].ticket != v.waiters[i].ticket);
    } else if i < c {
        assert(v.waiters[i].ticket != v.waiters[c].ticket);
    }
}

/// Giving a connection back keeps the invariant.
pub proof fn release_keeps_wf(v: PoolView, id: u64, now: u64, broken: bool)
    requires
        v.wf(),
    ensures
        v.release(id, now, broken).wf(),
{
    let w = v.release(id, now, broken);
    if let Some(i) = v.lease_index(id) {
        assert(v.is_leased(id));
        assert(0 <= i < v.leased.len() && v.leased[i].id == id);
        if v.discards(v.leased[i], now, broken) || v.waiters.len() == 0 {
            assert forall|j: int| 0 <= j < w.leased.len() implies (#[trigger] w.leased[j]).id
                < w.next_id && w.leased[j].id != id by {
                let jj = if j < i { j } else { j + 1 };
                assert(w.leased[j] == v.leased[jj]);
                if jj < i {
                    assert(v.leased[jj].id != v.leased[i].id);
                } else {
                    assert(v.leased[i].id != v.leased[jj].id);
                }
            }
            assert forall|j: int, k: int| 0 <= j < k < w.leased.len() implies (
            #[trigger] w.leased[j]).id != (#[trigger] w.leased[k]).id by {
                let jj = if j < i { j } else { j + 1 };
                let kk = if k < i { k } else { k + 1 };
                assert(w.leased[j] == v.leased[jj]);
                assert(w.leased[k] == v.leased[kk]);
            }
            if v.discards(v.leased[i], now, broken) {
                assert forall|j: int, k: int|
                    0 <= j < w.idle.len() && 0 <= k < w.leased.len() implies (
                #[trigger] w.idle[j]).id != (#[trigger] w.leased[k]).id by {
                    let kk = if k < i { k } else { k + 1 };
                    assert(w.leased[k] == v.leased[kk]);
                }
                assert(w.ids_wf());
            } else {
                assert forall|j: int| 0 <= j < w.idle.len() implies (#[trigger] w.idle[j]).id
                    < w.next_id by {
                    if j < v.idle.len() {
                        assert(w.idle[j] == v.idle[j]);
                    }
                }
                assert forall|j: int, k: int| 0 <= j < k < w.idle.len() implies (
                #[trigger] w.idle[j]).id != (#[trigger] w.idle[k]).id by {
                    assert(w.idle[j] == v.idle[j]);
                    if k < v.idle.len() {
                        assert(w.idle[k] == v.idle[k]);
                    } else {
                        assert(v.idle[j].id != v.leased[i].id);
                    }
                }
                assert forall|j: int, k: int|
                    0 <= j < w.idle.len() && 0 <= k < w.leased.len() implies (
                #[trigger] w.idle[j]).id != (#[trigger] w.leased[k]).id by {
                    let kk = if k < i { k } else { k + 1 };
                    assert(w.leased[k] == v.leased[kk]);
                    if j < v.idle.len() {
                        assert(w.idle[j] == v.idle[j]);
                    }
                }
                assert(w.ids_wf());
            }
        } else {
            drop_first_keeps_tickets(v, w);
        }
    }
}

/// A caller that stops waiting leaves the invariant in place.
pub proof fn cancel_keeps_wf(v: PoolView, ticket: u64)
    requires
        v.wf(),
    ensures
        v.cancel(ticket).wf(),
{
    let w = v.cancel(ticket);
    if let Some(i) = v.waiter_index(ticket) {
        assert(v.is_waiting(ticket));
        assert forall|j: int| 0 <= j < w.waiters.len() implies (#[trigger] w.waiters[j]).ticket
            < w.next_ticket by {
            let jj = if j < i { j } else { j + 1 };
            assert(w.waiters[j] == v.waiters[jj]);
        }
        assert forall|j: int, k: int| 0 <= j < k < w.waiters.len() implies (
        #[trigger] w.waiters[j]).ticket != (#[trigger] w.waiters[k]).ticket by {
            let jj = if j < i { j } else { j + 1 };
            let kk = if k < i { k } else { k + 1 };
            assert(w.waiters[j] == v.waiters[jj]);
            assert(w.waiters[k] == v.waiters[kk]);
        }
    }
}

/// A timer that fires leaves the invariant in place.
pub proof fn time_out_keeps_wf(v: PoolView, ticket: u64, now: u64)
    requires
        v.wf(),
    ensures
        v.time_out(ticket, now).wf(),
{
    cancel_keeps_wf(v, ticket);
}

/// A failed liveness probe leaves the invariant in place.
pub proof fn validation_failed_keeps_wf(v: PoolView, id: u64, now: u64, attempt: u32)
    requires
        v.wf(),
        v.admits_validation_failed(id, now, attempt),
    ensures
        v.validation_failed(id, now, attempt).wf(),
{
    release_keeps_wf(v, id, now, true);
    if v.lease_index(id).is_some() && attempt < v.config.max_retries {
        acquire_keeps_wf(v.release(id, now, true), now);
    }
}

/// A pool at startup satisfies the invariant.
pub proof fn initial_is_wf(config: Configuration)
    requires
        config.wf(),
    ensures
        PoolView::initial(config).wf(),
        PoolView::initial(config).total_live() == config.min_idle,
{
}

/// In every state that the pool reaches, the idle, lent and opening
/// connections together are the live ones, and these are at most
/// `max_size`: every event keeps the invariant.
pub proof fn invariant_holds(v: PoolView, event: Event)
    requires
        v.wf(),
        v.admits(event),
    ensures
        v.step(event).wf(),
        v.step(event).idle.len() + v.step(event).leased.len() + v.step(event).connecting
            == v.step(event).total_live(),
        v.step(event).total_live() <= v.step(event).config.max_size,
        v.step(event).config == v.config,
{
    match event {
        Event::Acquire { now } => acquire_keeps_wf(v, now),
        Event::ConnectSucceeded { now } => connect_succeeded_keeps_wf(v, now),
        Event::ConnectFailed { attempt } => connect_failed_keeps_wf(v, attempt),
        Event::Release { id, now, broken } => release_keeps_wf(v, id, now, broken),
        Event::ValidationFailed { id, now, attempt } => validation_failed_keeps_wf(
            v,
            id,
            now,
            attempt,
        ),
        Event::Cancel { ticket } => cancel_keeps_wf(v, ticket),
        Event::TimeOut { ticket, now } => time_out_keeps_wf(v, ticket, now),
        Event::Dedicated { connected } => {},
    }
}

/// A connection outside the pool changes none of the pool's connections,
/// counters or queues, and so nothing that a snapshot reports.
pub proof fn dedicated_leaves_pool(v: PoolView, connected: bool)
    ensures
        v.dedicated_connection(connected).idle == v.idle,
        v.dedicated_connection(connected).leased == v.leased,
        v.dedicated_connection(connected).connecting == v.connecting,
        v.dedicated_connection(connected).waiters == v.waiters,
        v.dedicated_connection(connected).total_live() == v.total_live(),
        v.dedicated_connection(connected).state() == v.state(),
{
}

/// Where every connection attempt in progress has a caller that waits for
/// it, an acquisition is served at once exactly when the lent and opening
/// connections are fewer than `max_size`, and it then commits one more.
pub proof fn acquire_serves_while_room(v: PoolView, now: u64)
    requires
        v.wf(),
        v.admits_acquire(now),
        v.waiters.len() >= v.connecting,
    ensures
        v.serves(now) <==> v.committed() < v.config.max_size,
        v.acquire(now).committed() == v.committed() + if v.serves(now) {
            1nat
        } else {
            0nat
        },
        v.acquire(now).waiters.len() - v.acquire(now).connecting == v.waiters.len() - v.connecting
            + if v.serves(now) {
            0nat
        } else {
            1nat
        },
        v.acquire(now).next_ticket <= v.next_ticket + 1,
        v.acquire(now).config == v.config,
        v.acquire(now).wf(),
{
    acquire_keeps_wf(v, now);
    keep_len_bounds(v.config, v.idle, now);
}

/// Of `n` acquisitions in a row, those served at once are as many as the
/// pool has room for, and no more: the smaller of `n` and `max_size` less
/// the connections already lent or opening. All others wait in the queue.
pub proof fn acquisitions_fill_the_room(v: PoolView, now: u64, n: nat)
    requires
        v.wf(),
        v.next_ticket + n <= u64::MAX,
        v.waiters.len() >= v.connecting,
    ensures
        v.served(now, n) == if n <= v.config.max_size - v.committed() {
            n
        } else {
            (v.config.max_size - v.committed()) as nat
        },
        v.acquire_many(now, n).committed() == v.committed() + v.served(now, n),
        v.acquire_many(now, n).waiters.len() - v.acquire_many(now, n).connecting
            == v.waiters.len() - v.connecting + n - v.served(now, n),
        v.acquire_many(now, n).next_ticket <= v.next_ticket + n,
        v.acquire_many(now, n).config == v.config,
        v.acquire_many(now, n).wf(),
    decreases n,
{
    if n > 0 {
        let m = (n - 1) as nat;
        acquisitions_fill_the_room(v, now, m);
        acquire_serves_while_room(v.acquire_many(now, m), now);
    }
}

/// With nothing lent and nothing opening, `n` acquisitions at once against
/// a pool of `max_size` below `n`: exactly `max_size` are served at once,
/// and the other `n - max_size` wait in the queue with no connection
/// attempt of their own, that is, for a release.
pub proof fn concurrent_acquisitions(v: PoolView, now: u64, n: nat)
    requires
        v.wf(),
        v.next_ticket + n <= u64::MAX,
        v.leased.len() == 0,
        v.connecting == 0,
        v.waiters.len() == 0,
        v.config.max_size < n,
    ensures
        v.served(now, n) == v.config.max_size,
        v.acquire_many(now, n).waiters.len() - v.acquire_many(now, n).connecting == n
            - v.config.max_size,
        v.acquire_many(now, n).committed() == v.config.max_size,
        v.acquire_many(now, n).total_live() == v.config.max_size,
        v.acquire_many(now, n).wf(),
{
    acquisitions_fill_the_room(v, now, n);
}

/// A sound connection given back while callers wait goes to exactly one of
/// them, the head of the queue: that caller leaves the queue, all others
/// stay in their order, and the connection stays lent once.
pub proof fn release_wakes_one(v: PoolView, id: u64, now: u64)
    requires
        v.wf(),
        v.is_leased(id),
        v.waiters.len() > 0,
        !v.discards(v.leased[v.lease_index(id).unwrap()], now, false),
    ensures
        v.release_outcome(id, now, false) == (Released::Granted { ticket: v.waiters[0].ticket }),
        v.release(id, now, false).waiters == v.waiters.drop_first(),
        v.release(id, now, false).waiters.len() == v.waiters.len() - 1,
        !v.release(id, now, false).is_waiting(v.waiters[0].ticket),
        v.release(id, now, false).leased == v.leased,
        v.release(id, now, false).idle == v.idle,
        v.release(id, now, false).connecting == v.connecting,
{
    let w = v.release(id, now, false);
    assert(w.waiters == v.waiters.drop_first());
    if w.is_waiting(v.waiters[0].ticket) {
        let j = choose|j: int|
            0 <= j < w.waiters.len() && #[trigger] w.waiters[j].ticket == v.waiters[0].ticket;
        assert(w.waiters[j] == v.waiters[j + 1]);
        assert(v.waiters[0].ticket != v.waiters[j + 1].ticket);
    }
}

/// A broken connection given back wakes nobody: whoever waits keeps
/// waiting, for a connection yet to be opened.
pub proof fn broken_release_wakes_nobody(v: PoolView, id: u64, now: u64)
    requires
        v.wf(),
    ensures
        v.release(id, now, true).waiters == v.waiters,
{
}

/// A connection that is lent and given back at once, unbroken, leaves the
/// pool as the acquisition found it, but for the stale connections that the
/// acquisition discarded: the same connections are lent, the same attempts
/// and callers are in progress, and the idle stack holds the same
/// connections in the same order, the one that was lent on top. Where
/// nothing was stale, the idle count and the snapshot are as before.
pub proof fn round_trip(v: PoolView, now: u64, id: u64)
    requires
        v.wf(),
        v.acquire_outcome(now) == (Acquire::Ready { id }),
    ensures
        v.acquire(now).release_outcome(id, now, false) == Released::Idle,
        v.acquire(now).release(id, now, false).leased == v.leased,
        v.acquire(now).release(id, now, false).connecting == v.connecting,
        v.acquire(now).release(id, now, false).waiters == v.waiters,
        ids_of(v.acquire(now).release(id, now, false).idle) == ids_of(
            v.idle.take(v.keep(now) as int),
        ),
        v.acquire(now).release(id, now, false).idle.len() + v.acquire_closed(now).len()
            == v.idle.len(),
        v.acquire_closed(now).len() == 0 ==> {
            &&& ids_of(v.acquire(now).release(id, now, false).idle) == ids_of(v.idle)
            &&& v.acquire(now).release(id, now, false).state() == v.state()
        },
{
    keep_len_bounds(v.config, v.idle, now);
    acquire_keeps_wf(v, now);
    let k = v.keep(now);
    let u = v.acquire(now);
    let n = v.leased.len() as int;
    assert(u.leased[n].id == id);
    lease_index_unique(u, id, n);
    let w = u.release(id, now, false);
    assert(w.leased =~= v.leased);
    assert(ids_of(w.idle) =~= ids_of(v.idle.take(k as int)));
    if v.acquire_closed(now).len() == 0 {
        assert(v.idle.take(k as int) =~= v.idle);
    }
}

/// A connection given back as broken leaves the pool for good: it is
/// neither idle nor lent afterwards, and the open connections are one
/// fewer. The live connections are one fewer too, unless a caller waits
/// that no attempt serves: then an attempt begins in the freed place.
pub proof fn broken_is_retired(v: PoolView, id: u64, now: u64)
    requires
        v.wf(),
        v.is_leased(id),
    ensures
        v.release_outcome(id, now, true) == (Released::Closed {
            connect: v.waiters.len() > v.connecting,
        }),
        v.release(id, now, true).retired(id),
        v.release(id, now, true).established() == v.established() - 1,
        v.release(id, now, true).idle == v.idle,
        v.waiters.len() <= v.connecting ==> v.release(id, now, true).total_live() == v.total_live()
            - 1,
        v.waiters.len() > v.connecting ==> v.release(id, now, true).connecting == v.connecting + 1,
{
    let i = v.lease_index(id).unwrap();
    let w = v.release(id, now, true);
    assert(w.leased == v.leased.remove(i));
    assert(v.leased[i].id == id);
    if w.is_leased(id) {
        let j = choose|j: int| 0 <= j < w.leased.len() && #[trigger] w.leased[j].id == id;
        let jj = if j < i { j } else { j + 1 };
        assert(w.leased[j] == v.leased[jj]);
        if jj < i {
            assert(v.leased[jj].id != v.leased[i].id);
        } else {
            assert(v.leased[i].id != v.leased[jj].id);
        }
    }
    if w.is_idle(id) {
        let j = choose|j: int| 0 <= j < w.idle.len() && #[trigger] w.idle[j].id == id;
        assert(v.idle[j].id != v.leased[i].id);
    }
}

/// An acquisition brings no connection into the pool.
pub proof fn acquire_holds_only_known(v: PoolView, now: u64, x: u64)
    requires
        v.acquire(now).holds(x),
    ensures
        v.holds(x),
{
    keep_len_bounds(v.config, v.idle, now);
    let k = v.keep(now);
    let w = v.acquire(now);
    if w.is_idle(x) {
        let j = choose|j: int| 0 <= j < w.idle.len() && #[trigger] w.idle[j].id == x;
        assert(v.idle[j].id == x);
    } else {
        let j = choose|j: int| 0 <= j < w.leased.len() && #[trigger] w.leased[j].id == x;
        if j < v.leased.len() {
            assert(v.leased[j].id == x);
        } else {
            assert(v.idle[k - 1].id == x);
        }
    }
}

/// Giving a connection back brings no connection into the pool.
pub proof fn release_holds_only_known(v: PoolView, id: u64, now: u64, broken: bool, x: u64)
    requires
        v.release(id, now, broken).holds(x),
    ensures
        v.holds(x),
{
    let w = v.release(id, now, broken);
    if let Some(i) = v.lease_index(id) {
        assert(v.is_leased(id));
        if w.is_idle(x) {
            let j = choose|j: int| 0 <= j < w.idle.len() && #[trigger] w.idle[j].id == x;
            if j < v.idle.len() {
                assert(v.idle[j].id == x);
            }
        } else {
            let j = choose|j: int| 0 <= j < w.leased.len() && #[trigger] w.leased[j].id == x;
            if w.leased == v.leased {
                assert(v.leased[j].id == x);
            } else {
                let jj = if j < i { j } else { j + 1 };
                assert(v.leased[jj].id == x);
            }
        }
    }
}

/// The only connection that an event can bring into the pool is a newly
/// opened one, and it gets the identifier that was next.
pub proof fn step_holds_only_known(v: PoolView, event: Event, x: u64)
    requires
        v.wf(),
        v.step(event).holds(x),
    ensures
        v.holds(x) || (event is ConnectSucceeded && x == v.next_id),
{
    let w = v.step(event);
    match event {
        Event::Acquire { now } => acquire_holds_only_known(v, now, x),
        Event::ConnectSucceeded { now } => {
            if w.is_idle(x) {
                let j = choose|j: int| 0 <= j < w.idle.len() && #[trigger] w.idle[j].id == x;
                if j < v.idle.len() {
                    assert(v.idle[j].id == x);
                }
            } else {
                let j = choose|j: int| 0 <= j < w.leased.len() && #[trigger] w.leased[j].id == x;
                if j < v.leased.len() {
                    assert(v.leased[j].id == x);
                }
            }
        },
        Event::Release { id, now, broken } => release_holds_only_known(v, id, now, broken, x),
        Event::ValidationFailed { id, now, attempt } => {
            if v.lease_index(id).is_some() {
                if attempt < v.config.max_retries {
                    acquire_holds_only_known(v.release(id, now, true), now, x);
                }
                release_holds_only_known(v, id, now, true, x);
            }
        },
        _ => {},
    }
}

/// A connection that has left the pool never comes back: whatever happens
/// next, it is neither idle nor lent.
pub proof fn retired_stays_retired(v: PoolView, event: Event, id: u64)
    requires
        v.wf(),
        v.admits(event),
        v.retired(id),
    ensures
        v.step(event).retired(id),
{
    if v.step(event).holds(id) {
        step_holds_only_known(v, event, id);
    }
    assert(v.step(event).next_id >= v.next_id) by {
        if let Event::ValidationFailed { id: x, now, attempt } = event {
            assert(v.release(x, now, true).next_id == v.next_id);
        }
    }
}

/// A connection that has left the pool is never handed out: an acquisition
/// lends only a connection that is idle, and a successful attempt brings a
/// connection with a new identifier.
pub proof fn retired_is_not_handed_out(v: PoolView, now: u64, id: u64)
    requires
        v.wf(),
        v.retired(id),
    ensures
        v.acquire_outcome(now) != (Acquire::Ready { id }),
        forall|ticket: u64| v.connect_succeeded_outcome() != (Connected::Granted { ticket, id }),
        v.connect_succeeded_outcome() != (Connected::Idle { id }),
{
    if v.acquire_outcome(now) == (Acquire::Ready { id }) {
        keep_len_bounds(v.config, v.idle, now);
        assert(v.idle[v.keep(now) - 1].id == id);
        assert(v.is_idle(id));
    }
}

/// Only a successful connection attempt adds an open connection, and it
/// adds one: after a connection was discarded, the open connections are as
/// many as before only once a new connection has been opened.
pub proof fn only_connect_adds(v: PoolView, event: Event)
    requires
        v.wf(),
        v.admits(event),
    ensures
        v.step(event).established() <= v.established() + 1,
        v.step(event).established() > v.established() ==> event is ConnectSucceeded,
{
    match event {
        Event::Acquire { now } => {
            keep_len_bounds(v.config, v.idle, now);
        },
        Event::ValidationFailed { id, now, attempt } => {
            let u = v.release(id, now, true);
            keep_len_bounds(u.config, u.idle, now);
            if v.lease_index(id).is_some() {
                assert(v.is_leased(id));
            }
        },
        Event::Release { id, now, broken } => {
            if v.lease_index(id).is_some() {
                assert(v.is_leased(id));
            }
        },
        _ => {},
    }
}

/// A caller queued at `now` times out exactly from its deadline on, which
/// is `now` plus the connection timeout (or the end of the clock): a timer
/// that fires earlier leaves it waiting, one that fires at the deadline or
/// at any later instant takes it out of the queue, and only it.
pub proof fn wait_times_out_at_deadline(v: PoolView, now: u64, at: u64)
    requires
        v.wf(),
        v.admits_acquire(now),
        v.acquire_outcome(now) is Queued,
    ensures
        ({
            let ticket = v.next_ticket as u64;
            let deadline = v.config.deadline_spec(now);
            let u = v.acquire(now);
            &&& now + v.config.connection_timeout <= u64::MAX ==> deadline == now
                + v.config.connection_timeout
            &&& u.is_waiting(ticket)
            &&& at < deadline ==> u.time_out_outcome(ticket, at) == (Timeout::Pending { deadline })
                && u.time_out(ticket, at) == u
            &&& at >= deadline ==> u.time_out_outcome(ticket, at) == Timeout::Expired
                && u.time_out(ticket, at).waiters == v.waiters
        }),
{
    acquire_keeps_wf(v, now);
    let ticket = v.next_ticket as u64;
    let u = v.acquire(now);
    let n = v.waiters.len() as int;
    assert(u.waiters[n].ticket == ticket);
    waiter_index_unique(u, ticket, n);
    assert(u.waiters.remove(n) =~= v.waiters);
}

/// A connection has one holder at a time: it is not idle and lent at once,
/// and it is idle or lent in one place only.
pub proof fn one_holder(v: PoolView, id: u64, i: int, j: int)
    requires
        v.wf(),
    ensures
        !(v.is_idle(id) && v.is_leased(id)),
        0 <= i < v.idle.len() && 0 <= j < v.idle.len() && v.idle[i].id == v.idle[j].id ==> i == j,
        0 <= i < v.leased.len() && 0 <= j < v.leased.len() && v.leased[i].id == v.leased[j].id
            ==> i == j,
{
    if v.is_idle(id) && v.is_leased(id) {
        let a = choose|a: int| 0 <= a < v.idle.len() && #[trigger] v.idle[a].id == id;
        let b = choose|b: int| 0 <= b < v.leased.len() && #[trigger] v.leased[b].id == id;
        assert(v.idle[a].id != v.leased[b].id);
    }
    if 0 <= i < v.idle.len() && 0 <= j < v.idle.len() && v.idle[i].id == v.idle[j].id {
        if i < j {
            assert(v.idle[i].id != v.idle[j].id);
        } else if j < i {
            assert(v.idle[j].id != v.idle[i].id);
        }
    }
    if 0 <= i < v.leased.len() && 0 <= j < v.leased.len() && v.leased[i].id == v.leased[j].id {
        if i < j {
            assert(v.leased[i].id != v.leased[j].id);
        } else if j < i {
            assert(v.leased[j].id != v.leased[i].id);
        }
    }
}

/// A caller that stops waiting leaves the queue and nothing behind: it no
/// longer waits, the queue is one shorter, and every connection and every
/// attempt in progress stays as it was.
pub proof fn cancelled_is_gone(v: PoolView, ticket: u64)
    requires
        v.wf(),
    ensures
        !v.cancel(ticket).is_waiting(ticket),
        v.is_waiting(ticket) ==> v.cancel(ticket).waiters.len() == v.waiters.len() - 1,
        !v.is_waiting(ticket) ==> v.cancel(ticket) == v,
        v.cancel(ticket).idle == v.idle,
        v.cancel(ticket).leased == v.leased,
        v.cancel(ticket).connecting == v.connecting,
{
    let w = v.cancel(ticket);
    if let Some(i) = v.waiter_index(ticket) {
        assert(v.is_waiting(ticket));
        if w.is_waiting(ticket) {
            let j = choose|j: int| 0 <= j < w.waiters.len() && #[trigger] w.waiters[j].ticket == ticket;
            let jj = if j < i { j } else { j + 1 };
            assert(w.waiters[j] == v.waiters[jj]);
            if jj < i {
                assert(v.waiters[jj].ticket != v.waiters[i].ticket);
            } else {
                assert(v.waiters[i].ticket != v.waiters[jj].ticket);
            }
        }
    }
}

/// The invariant holds in every state that the pool reaches: after any
/// events that the counters admit, from any state that satisfies it, and so
/// from startup.
pub proof fn invariant_holds_throughout(v: PoolView, events: Seq<Event>)
    requires
        v.wf(),
        v.admits_all(events),
    ensures
        v.after(events).wf(),
        v.after(events).total_live() <= v.config.max_size,
        v.after(events).config == v.config,
    decreases events.len(),
{
    if events.len() > 0 {
        invariant_holds_throughout(v, events.drop_last());
        invariant_holds(v.after(events.drop_last()), events.last());
    }
}

/// A connection that has left the pool stays out whatever happens later,
/// however many events follow: it is never idle or lent again, and in none
/// of the later states is it handed out.
pub proof fn retired_for_good(v: PoolView, events: Seq<Event>, id: u64, now: u64)
    requires
        v.wf(),
        v.admits_all(events),
        v.retired(id),
    ensures
        v.after(events).retired(id),
        v.after(events).acquire_outcome(now) != (Acquire::Ready { id }),
        forall|ticket: u64|
            v.after(events).connect_succeeded_outcome() != (Connected::Granted { ticket, id }),
        v.after(events).connect_succeeded_outcome() != (Connected::Idle { id }),
    decreases events.len(),
{
    invariant_holds_throughout(v, events);
    if events.len() > 0 {
        let before = events.drop_last();
        retired_for_good(v, before, id, now);
        invariant_holds_throughout(v, before);
        retired_stays_retired(v.after(before), events.last(), id);
    }
    retired_is_not_handed_out(v.after(events), now, id);
}

/// Against a pool whose connections are all lent, a caller waits: it is
/// queued with no connection attempt, no connection is opened and the
/// snapshot stays as it was. It waits until a connection is given back: a
/// sound connection given back then goes to this caller, and the queue is
/// empty again.
pub proof fn caller_waits_for_release(v: PoolView, now: u64, id: u64, later: u64)
    requires
        v.wf(),
        v.leased.len() == v.config.max_size,
        v.waiters.len() == 0,
        v.is_leased(id),
        !v.config.expired(v.leased[v.lease_index(id).unwrap()].created_at, later),
        v.admits_acquire(now),
    ensures
        v.acquire_outcome(now) == (Acquire::Queued {
            ticket: v.next_ticket as u64,
            deadline: v.config.deadline_spec(now),
            connect: false,
        }),
        v.acquire_closed(now).len() == 0,
        v.acquire(now).idle == v.idle,
        v.acquire(now).leased == v.leased,
        v.acquire(now).connecting == 0,
        v.acquire(now).state() == v.state(),
        v.acquire(now).release_outcome(id, later, false) == (Released::Granted {
            ticket: v.next_ticket as u64,
        }),
        v.acquire(now).release(id, later, false).waiters.len() == 0,
        v.acquire(now).release(id, later, false).leased == v.leased,
        v.acquire(now).release(id, later, false).state() == v.state(),
{
    keep_len_bounds(v.config, v.idle, now);
    let u = v.acquire(now);
    assert(v.idle.len() == 0);
    assert(u.idle =~= v.idle);
    assert(v.acquire_closed(now) =~= Seq::<u64>::empty());
    assert(u.is_leased(id) == v.is_leased(id));
    assert(u.lease_index(id) == v.lease_index(id));
    assert(u.release(id, later, false).waiters =~= v.waiters);
}

/// A caller that waited in vain leaves the pool as it found it: once its
/// timer has fired at or after the deadline, it waits no longer, and the
/// connections, the attempts in progress and the other callers are as its
/// acquisition left them.
pub proof fn timed_out_caller_leaves_no_trace(v: PoolView, now: u64, at: u64)
    requires
        v.wf(),
        v.admits_acquire(now),
        v.acquire_outcome(now) is Queued,
        at >= v.config.deadline_spec(now),
    ensures
        !v.acquire(now).time_out(v.next_ticket as u64, at).is_waiting(v.next_ticket as u64),
        v.acquire(now).time_out(v.next_ticket as u64, at) == (PoolView {
            waiters: v.waiters,
            ..v.acquire(now)
        }),
        !v.acquire_connects() ==> v.acquire(now).time_out(v.next_ticket as u64, at).connecting
            == v.connecting,
        v.acquire(now).time_out(v.next_ticket as u64, at).leased == v.leased,
{
    wait_times_out_at_deadline(v, now, at);
    acquire_keeps_wf(v, now);
    let ticket = v.next_ticket as u64;
    let u = v.acquire(now);
    cancelled_is_gone(u, ticket);
    let n = v.waiters.len() as int;
    assert(u.waiters[n].ticket == ticket);
    waiter_index_unique(u, ticket, n);
}

/// Where no connection can be opened, a caller gets a connect failure
/// after a bounded number of attempts. Against an empty pool the caller is
/// queued with an attempt of its own; each failure below the retry bound
/// asks for the next attempt, and the failure at the bound, which the
/// attempts reach after `max_retries` retries, fails this caller and leaves
/// the pool empty with nobody waiting.
pub proof fn failing_connects_fail_the_caller(v: PoolView, now: u64, attempt: u32)
    requires
        v.wf(),
        v.total_live() == 0,
        v.waiters.len() == 0,
        v.admits_acquire(now),
    ensures
        v.acquire_outcome(now) == (Acquire::Queued {
            ticket: v.next_ticket as u64,
            deadline: v.config.deadline_spec(now),
            connect: true,
        }),
        attempt < v.config.max_retries ==> v.acquire(now).connect_failed_outcome(attempt) == (
        ConnectFailure::Retry {
            attempt: (attempt + 1) as u32,
            delay: v.config.delay_spec(attempt),
        }) && v.acquire(now).connect_failed(attempt) == v.acquire(now),
        attempt >= v.config.max_retries ==> v.acquire(now).connect_failed_outcome(attempt) == (
        ConnectFailure::GaveUp { failed: Some(v.next_ticket as u64), connect: false }),
        attempt >= v.config.max_retries ==> v.acquire(now).connect_failed(attempt).total_live()
            == 0 && v.acquire(now).connect_failed(attempt).waiters.len() == 0,
{
    keep_len_bounds(v.config, v.idle, now);
    let u = v.acquire(now);
    assert(u.waiters[0].ticket == v.next_ticket as u64);
}

/// A failed eager connection at startup fails nobody and leaves a pool
/// that satisfies the invariant: startup does not depend on it.
pub proof fn failed_startup_fails_nobody(config: Configuration, attempt: u32)
    requires
        config.wf(),
        config.min_idle > 0,
    ensures
        PoolView::initial(config).connect_failed(attempt).wf(),
        config.retry_spec(attempt) == Retry::GiveUp ==> PoolView::initial(
            config,
        ).connect_failed_outcome(attempt) == (ConnectFailure::GaveUp {
            failed: None,
            connect: false,
        }) && PoolView::initial(config).connect_failed(attempt).total_live() == config.min_idle
            - 1,
{
    connect_failed_keeps_wf(PoolView::initial(config), attempt);
}

} // verus!
