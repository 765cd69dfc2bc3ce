use bb8_redis::config::{Builder, Configuration};
use bb8_redis::entry::{Acquire, ConnectFailure, Connected, Dedicated, Released, State, Timeout};
use bb8_redis::state::PoolState;

fn config(max_size: u32) -> Configuration {
    Builder::new()
        .max_size(max_size)
        .connection_timeout(100)
        .idle_timeout(None)
        .max_lifetime(None)
        .build()
        .unwrap()
}

fn check_counts(p: &PoolState) {
    let s = p.state();
    let idle = p.idle_ids().len() as u32;
    let lent = p.leased_ids().len() as u32;
    assert_eq!(s.idle_connections, idle);
    assert_eq!(s.connections, idle + lent + p.connecting());
    assert!(s.connections <= p.config().max_size);
    if !p.waiting_tickets().is_empty() {
        assert_eq!(idle, 0);
    }
    if p.waiting_tickets().len() as u32 > p.connecting() {
        assert_eq!(s.connections, p.config().max_size);
    }
}

#[test]
fn counts_add_up_after_every_event() {
    let mut p = PoolState::new(Builder::new().max_size(2).min_idle(1).retry(1, 5).build().unwrap());
    check_counts(&p);
    p.connect_succeeded(0);
    check_counts(&p);
    p.acquire(1);
    check_counts(&p);
    p.acquire(2);
    check_counts(&p);
    p.acquire(3);
    check_counts(&p);
    p.acquire(4);
    check_counts(&p);
    p.connect_failed(0);
    check_counts(&p);
    p.connect_failed(1);
    check_counts(&p);
    p.release(0, 5, true);
    check_counts(&p);
    p.connect_succeeded(6);
    check_counts(&p);
    p.cancel(3);
    check_counts(&p);
    p.time_out(2, 1_000);
    check_counts(&p);
    p.validation_failed(1, 7, 0);
    check_counts(&p);
    p.connect_succeeded(8);
    check_counts(&p);
    p.dedicated_connection(true, 0);
    check_counts(&p);
    p.release(2, 9, false);
    check_counts(&p);
    p.release(1, 9, false);
    check_counts(&p);
}

#[test]
fn five_callers_against_two_idle_connections() {
    let mut p = PoolState::new(config(2));
    p.acquire(0);
    p.acquire(0);
    p.connect_succeeded(0);
    p.connect_succeeded(0);
    p.release(0, 0, false);
    p.release(1, 0, false);
    let mut ready = 0;
    let mut queued = Vec::new();
    for _ in 0..5 {
        match p.acquire(1).outcome {
            Acquire::Ready { .. } => ready += 1,
            Acquire::Queued { ticket, connect, .. } => {
                assert!(!connect);
                queued.push(ticket);
            }
        }
    }
    assert_eq!(ready, 2);
    assert_eq!(queued, vec![2, 3, 4]);
    assert_eq!(p.waiting_tickets(), vec![2, 3, 4]);
    assert_eq!(p.state(), State { connections: 2, idle_connections: 0 });
    // One release wakes one caller, and each caller once.
    assert_eq!(p.release(1, 2, false), Released::Granted { ticket: 2 });
    assert_eq!(p.waiting_tickets(), vec![3, 4]);
    assert_eq!(p.release(0, 2, false), Released::Granted { ticket: 3 });
    assert_eq!(p.release(0, 3, false), Released::Granted { ticket: 4 });
    assert_eq!(p.release(0, 4, false), Released::Idle);
    assert_eq!(p.leased_ids(), vec![1]);
}

#[test]
fn five_callers_against_an_empty_pool_of_two() {
    let mut p = PoolState::new(config(2));
    let mut served = 0;
    let mut waiting = 0;
    for _ in 0..5 {
        match p.acquire(0).outcome {
            Acquire::Ready { .. } => served += 1,
            Acquire::Queued { connect: true, .. } => served += 1,
            Acquire::Queued { connect: false, .. } => waiting += 1,
        }
    }
    assert_eq!(served, 2);
    assert_eq!(waiting, 3);
    assert_eq!(p.connecting(), 2);
    assert_eq!(p.waiting_tickets().len(), 5);
    assert_eq!(p.state(), State { connections: 2, idle_connections: 0 });
}

#[test]
fn acquire_then_release_restores_the_pool() {
    let mut p = PoolState::new(config(3));
    p.acquire(0);
    p.acquire(0);
    p.connect_succeeded(0);
    p.connect_succeeded(0);
    p.release(0, 1, false);
    p.release(1, 1, false);
    let before = p.state();
    let idle_before = p.idle_ids();
    let got = p.acquire(2);
    assert_eq!(got.outcome, Acquire::Ready { id: 1 });
    assert_eq!(p.state(), State { connections: 2, idle_connections: 1 });
    assert_eq!(p.release(1, 2, false), Released::Idle);
    assert_eq!(p.state(), before);
    assert_eq!(p.idle_ids(), idle_before);
    assert!(p.leased_ids().is_empty());
    assert!(p.waiting_tickets().is_empty());
    assert_eq!(p.connecting(), 0);
}

#[test]
fn broken_connection_is_never_lent_again() {
    let mut p = PoolState::new(config(2));
    p.acquire(0);
    assert_eq!(p.connect_succeeded(0), Connected::Granted { ticket: 0, id: 0 });
    assert_eq!(p.state().connections, 1);
    assert_eq!(p.release(0, 1, true), Released::Closed { connect: false });
    assert_eq!(p.state(), State { connections: 0, idle_connections: 0 });
    assert!(p.idle_ids().is_empty());
    assert!(p.leased_ids().is_empty());
    // The next demand opens a connection with a new identifier.
    let again = p.acquire(2);
    assert_eq!(again.outcome, Acquire::Queued { ticket: 1, deadline: 102, connect: true });
    assert_eq!(p.state().idle_connections, 0);
    assert_eq!(p.connect_succeeded(3), Connected::Granted { ticket: 1, id: 1 });
    assert_eq!(p.state(), State { connections: 1, idle_connections: 0 });
    assert_eq!(p.release(0, 4, false), Released::Unknown);
    assert_eq!(p.release(1, 4, false), Released::Idle);
    assert_eq!(p.acquire(5).outcome, Acquire::Ready { id: 1 });
}

#[test]
fn saturated_acquire_times_out_at_its_deadline() {
    let mut p = PoolState::new(config(1));
    p.acquire(0);
    p.connect_succeeded(0);
    let a = p.acquire(500);
    assert_eq!(a.outcome, Acquire::Queued { ticket: 1, deadline: 600, connect: false });
    assert_eq!(p.time_out(1, 500), Timeout::Pending { deadline: 600 });
    assert_eq!(p.time_out(1, 599), Timeout::Pending { deadline: 600 });
    assert_eq!(p.waiting_tickets(), vec![1]);
    assert_eq!(p.time_out(1, 600), Timeout::Expired);
    assert!(p.waiting_tickets().is_empty());
    // The connection that comes back later goes nowhere near the caller.
    assert_eq!(p.release(0, 700, false), Released::Idle);
}

#[test]
fn late_timer_still_times_the_caller_out() {
    let mut p = PoolState::new(config(1));
    p.acquire(0);
    p.connect_succeeded(0);
    p.acquire(500);
    assert_eq!(p.time_out(1, u64::MAX), Timeout::Expired);
}

#[test]
fn second_caller_waits_until_the_first_releases() {
    let mut p = PoolState::new(config(1));
    let a = p.acquire(0);
    assert_eq!(a.outcome, Acquire::Queued { ticket: 0, deadline: 100, connect: true });
    assert_eq!(p.connect_succeeded(1), Connected::Granted { ticket: 0, id: 0 });
    let b = p.acquire(2);
    assert_eq!(b.outcome, Acquire::Queued { ticket: 1, deadline: 102, connect: false });
    assert_eq!(p.waiting_tickets(), vec![1]);
    assert_eq!(p.release(0, 3, false), Released::Granted { ticket: 1 });
    assert!(p.waiting_tickets().is_empty());
    assert_eq!(p.leased_ids(), vec![0]);
    assert_eq!(p.release(0, 4, false), Released::Idle);
    assert_eq!(p.state(), State { connections: 1, idle_connections: 1 });
}

#[test]
fn factory_that_never_connects_surfaces_connect_failures() {
    let c = Builder::new().max_size(2).min_idle(1).retry(2, 10).build().unwrap();
    let mut p = PoolState::new(c);
    // The eager connection fails through all its retries; the pool stands.
    assert_eq!(p.connect_failed(0), ConnectFailure::Retry { attempt: 1, delay: 10 });
    assert_eq!(p.connect_failed(1), ConnectFailure::Retry { attempt: 2, delay: 20 });
    assert_eq!(p.connect_failed(2), ConnectFailure::GaveUp { failed: None, connect: false });
    assert_eq!(p.state(), State { connections: 0, idle_connections: 0 });
    // A caller then gets a connect failure after a bounded number of tries.
    let a = p.acquire(100);
    assert_eq!(a.outcome, Acquire::Queued { ticket: 0, deadline: 30_100, connect: true });
    let mut attempt = 0;
    let mut tries = 0;
    let failed = loop {
        tries += 1;
        match p.connect_failed(attempt) {
            ConnectFailure::Retry { attempt: next, .. } => attempt = next,
            ConnectFailure::GaveUp { failed, connect } => {
                assert!(!connect);
                break failed;
            }
            ConnectFailure::Unexpected => panic!("no attempt was pending"),
        }
    };
    assert_eq!(tries, 3);
    assert_eq!(failed, Some(0));
    assert!(p.waiting_tickets().is_empty());
    assert_eq!(p.state(), State { connections: 0, idle_connections: 0 });
}

#[test]
fn dedicated_connections_leave_the_snapshot_alone() {
    let mut p = PoolState::new(config(2));
    p.acquire(0);
    p.connect_succeeded(0);
    p.release(0, 1, false);
    p.acquire(2);
    p.acquire(2);
    let before = p.state();
    let idle = p.idle_ids();
    let lent = p.leased_ids();
    let waiting = p.waiting_tickets();
    assert_eq!(p.dedicated_connection(true, 0), Dedicated::Opened);
    assert_eq!(p.dedicated_connection(false, 0), Dedicated::Failed);
    assert_eq!(p.dedicated_connection(true, 0), Dedicated::Opened);
    assert_eq!(p.state(), before);
    assert_eq!(p.idle_ids(), idle);
    assert_eq!(p.leased_ids(), lent);
    assert_eq!(p.waiting_tickets(), waiting);
    assert_eq!(p.dedicated_opened(), 2);
}
