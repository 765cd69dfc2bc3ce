//! The one error type of the pool.

use vstd::prelude::*;

verus! {

/// Why a caller did not get what it asked of the pool. `E` is the error type
/// of the connections and of the caller's operations.
#[derive(Debug)]
pub enum PoolError<E> {
    /// No connection could be opened within the retry bound; the error of
    /// the last attempt.
    ConnectFailed(E),
    /// No connection came free before the connection timeout ran out.
    TimedOut,
    /// Every connection tried within the retry bound failed its liveness
    /// probe; the error of the last probe.
    ValidationFailed(E),
    /// The caller's own operation failed; its error is passed on untouched.
    OperationFailed(E),
}

impl<E> PoolError<E> {
    /// Whether the pool itself failed, rather than the caller's operation.
    pub open spec fn is_pool_failure_spec(&self) -> bool {
        !(self is OperationFailed)
    }

    /// Executable form of [`PoolError::is_pool_failure_spec`].
    pub fn is_pool_failure(&self) -> (r: bool)
        ensures
            r == self.is_pool_failure_spec(),
    {
        match self {
            PoolError::OperationFailed(_) => false,
            _ => true,
        }
    }

    /// The error that this one carries, if it carries one.
    pub open spec fn cause_spec(self) -> Option<E> {
        match self {
            PoolError::ConnectFailed(e) => Some(e),
            PoolError::TimedOut => None,
            PoolError::ValidationFailed(e) => Some(e),
            PoolError::OperationFailed(e) => Some(e),
        }
    }

    /// Takes out the error that this one carries; a timeout carries none.
    pub fn cause(self) -> (r: Option<E>)
        ensures
            r == self.cause_spec(),
    {
        match self {
            PoolError::ConnectFailed(e) => Some(e),
            PoolError::TimedOut => None,
            PoolError::ValidationFailed(e) => Some(e),
            PoolError::OperationFailed(e) => Some(e),
        }
    }
}

} // verus!
