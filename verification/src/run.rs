//! Scoped use of a connection: what an operation hands back, and how the
//! pool settles it.

use vstd::prelude::*;
use crate::entry::Released;
use crate::error::PoolError;
use crate::state::PoolState;

verus! {

/// What an operation on a lent connection hands back. The connection comes
/// back with the result unless the transport itself failed.
#[derive(Debug)]
pub enum Outcome<C, T, E> {
    /// The operation succeeded.
    Done { conn: C, value: T },
    /// The operation failed; the connection is still usable.
    Failed { conn: C, error: E },
    /// The transport failed; the connection is lost.
    Broken { error: E },
}

impl<C, T, E> Outcome<C, T, E> {
    /// The connection that comes back, if any.
    pub open spec fn conn_spec(self) -> Option<C> {
        match self {
            Outcome::Done { conn, .. } => Some(conn),
            Outcome::Failed { conn, .. } => Some(conn),
            Outcome::Broken { .. } => None,
        }
    }

    /// The operation's own result.
    pub open spec fn result_spec(self) -> Result<T, E> {
        match self {
            Outcome::Done { value, .. } => Ok(value),
            Outcome::Failed { error, .. } => Err(error),
            Outcome::Broken { error } => Err(error),
        }
    }

    /// The outcome of an operation that hands the connection back only with
    /// a success: every error counts as a lost connection.
    pub open spec fn from_result_spec(r: Result<(C, T), E>) -> Outcome<C, T, E> {
        match r {
            Ok((conn, value)) => Outcome::Done { conn, value },
            Err(error) => Outcome::Broken { error },
        }
    }

    /// Reads the result of an operation that hands the connection back only
    /// with a success.
    pub fn from_result(r: Result<(C, T), E>) -> (o: Outcome<C, T, E>)
        ensures
            o == Self::from_result_spec(r),
    {
        match r {
            Ok((conn, value)) => Outcome::Done { conn, value },
            Err(error) => Outcome::Broken { error },
        }
    }

    /// Parts the connection from the operation's result.
    pub fn split(self) -> (r: (Option<C>, Result<T, E>))
        ensures
            r.0 == self.conn_spec(),
            r.1 == self.result_spec(),
    {
        match self {
            Outcome::Done { conn, value } => (Some(conn), Ok(value)),
            Outcome::Failed { conn, error } => (Some(conn), Err(error)),
            Outcome::Broken { error } => (None, Err(error)),
        }
    }
}

/// What the caller of a scoped operation gets: the operation's value, or its
/// error, passed on untouched.
pub open spec fn passed_on<T, E>(result: Result<T, E>) -> Result<T, PoolError<E>> {
    match result {
        Ok(value) => Ok(value),
        Err(error) => Err(PoolError::OperationFailed(error)),
    }
}

/// Whether a connection that a caller is done with has to be discarded: its
/// handle did not come back, or it came back and is reported broken.
pub open spec fn unusable<C>(conn: Option<C>, broken: bool) -> bool {
    conn.is_none() || broken
}

/// Executable form of [`unusable`].
pub fn is_unusable<C>(conn: &Option<C>, broken: bool) -> (r: bool)
    ensures
        r == unusable(*conn, broken),
{
    conn.is_none() || broken
}

impl PoolState {
    /// Ends the scoped use of connection `id` at `now`. `conn` is the handle
    /// as the operation left it, and `broken` what the manager says of it.
    /// The connection is given back whatever the operation's result was; it
    /// is kept only if its handle came back and is not broken. The
    /// operation's result decides alone what the caller gets.
    pub fn complete<C, T, E>(
        &mut self,
        id: u64,
        now: u64,
        conn: &Option<C>,
        result: Result<T, E>,
        broken: bool,
    ) -> (r: (Released, Result<T, PoolError<E>>))
        requires
            old(self).wf(),
        ensures
            final(self).wf(),
            final(self)@ == old(self)@.release(id, now, unusable(*conn, broken)),
            r.0 == old(self)@.release_outcome(id, now, unusable(*conn, broken)),
            r.1 == passed_on(result),
    {
        let released: Released = self.release(id, now, is_unusable(conn, broken));
        let passed: Result<T, PoolError<E>> = match result {
            Ok(value) => Ok(value),
            Err(error) => Err(PoolError::OperationFailed(error)),
        };
        (released, passed)
    }
}

} // verus!
