//! A verified connection-pool core with a Redis connection manager.
//!
//! The pool's bookkeeping is a state machine over plain values: the caller
//! performs the I/O that an action asks for and reports what happened.
//!
//! * `config`: the parameters of a pool and the retry policy.
//! * `entry`: the records that the pool keeps and the answers it gives.
//! * `view`: the mathematical model of the pool and of every operation.
//! * `state`: the executable pool state, proved against the model.
//! * `laws`: what holds of the model in every state.
//! * `error`, `run`: the error type and the scoped use of a connection.
//! * `manager`: the manager for Redis connections.
//!
//! Idle connections form a stack: the connection given back last is lent
//! first, so that recently used connections stay in use. Waiting callers
//! form a queue: the caller that has waited longest is served first.
//! Instants and durations are milliseconds on the caller's clock.

pub mod config;
pub mod entry;
pub mod view;
pub mod state;
pub mod laws;
pub mod error;
pub mod run;
pub mod manager;
