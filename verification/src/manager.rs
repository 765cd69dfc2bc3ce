//! The connection manager for Redis: what the pool needs to know of a Redis
//! connection without doing I/O.

use vstd::prelude::*;
use crate::error::PoolError;

verus! {

/// `redis::Client`, carried through as an opaque value.
#[verifier::external_type_specification]
#[verifier::external_body]
pub struct ExClient(redis::Client);

/// `redis::RedisError`, carried through as an opaque value.
#[verifier::external_type_specification]
#[verifier::external_body]
pub struct ExRedisError(redis::RedisError);

/// `redis::aio::MultiplexedConnection`, carried through as an opaque value.
#[verifier::external_type_specification]
#[verifier::external_body]
pub struct ExMultiplexedConnection(redis::aio::MultiplexedConnection);

/// `Clone::clone` of `redis::Client`, which the crate derives: the copy
/// holds the same connection parameters, so it is the same client.
pub assume_specification[ <redis::Client as Clone>::clone ](client: &redis::Client) -> (copy:
    redis::Client)
    ensures
        copy == *client,
;

/// What `redis::RedisError::is_timeout` answers for an error.
pub uninterp spec fn error_is_timeout(e: redis::RedisError) -> bool;

/// The `redis::RedisError` that `From<std::io::Error>` makes of an I/O error
/// of kind `TimedOut` with the text `message`.
pub uninterp spec fn io_timeout_as_redis(message: Seq<char>) -> redis::RedisError;

/// Calls `redis::RedisError::is_timeout`; the result is what the name
/// `error_is_timeout` stands for.
#[verifier::external_body]
fn is_timeout_error(e: &redis::RedisError) -> (r: bool)
    ensures
        r == error_is_timeout(*e),
{
    e.is_timeout()
}

/// Builds a `std::io::Error` of kind `TimedOut` with the text `message` and
/// turns it into a `redis::RedisError` with `From<std::io::Error>`. The
/// contract claims that the result depends on the text alone, and that
/// `RedisError::is_timeout` holds of it: the conversion keeps the I/O error,
/// and `is_timeout` holds of a kept I/O error of that kind.
#[verifier::external_body]
fn io_timeout_error(message: &'static str) -> (e: redis::RedisError)
    ensures
        e == io_timeout_as_redis(message@),
        error_is_timeout(e),
{
    std::io::Error::new(std::io::ErrorKind::TimedOut, message).into()
}

/// Manages connections that a `redis::Client` opens.
#[derive(Debug)]
pub struct RedisConnectionManager {
    pub client: redis::Client,
}

impl Clone for RedisConnectionManager {
    /// A manager for the same client.
    fn clone(&self) -> (r: RedisConnectionManager)
        ensures
            r.client == self.client,
    {
        RedisConnectionManager { client: self.client.clone() }
    }
}

impl RedisConnectionManager {
    /// The text of the error for an acquisition that ran out of time.
    pub open spec fn timed_out_message() -> Seq<char> {
        "RedisConnectionManager timed out"@
    }

    /// The error for an acquisition that ran out of time.
    pub open spec fn timed_out_spec() -> redis::RedisError {
        io_timeout_as_redis(Self::timed_out_message())
    }

    /// A manager for the connections of `client`. Always succeeds.
    pub fn new(client: redis::Client) -> (r: Result<RedisConnectionManager, redis::RedisError>)
        ensures
            r == Ok::<RedisConnectionManager, redis::RedisError>(RedisConnectionManager { client }),
    {
        Ok(RedisConnectionManager { client })
    }

    /// Whether a connection is known to be unusable without asking the
    /// server: exactly when the handle is empty.
    pub fn has_broken(&self, conn: &mut Option<redis::aio::MultiplexedConnection>) -> (r: bool)
        ensures
            r == old(conn).is_none(),
            *final(conn) == *old(conn),
    {
        conn.is_none()
    }

    /// The error for an acquisition that ran out of time: the Redis error
    /// made of an I/O error of kind `TimedOut` with the text
    /// "RedisConnectionManager timed out". Every call, on every manager,
    /// gives this one error, and it is a timeout.
    pub fn timed_out(&self) -> (e: redis::RedisError)
        ensures
            e == Self::timed_out_spec(),
            error_is_timeout(e),
    {
        io_timeout_error("RedisConnectionManager timed out")
    }

    /// Whether `error` is a timeout, as the error of
    /// [`RedisConnectionManager::timed_out`] is.
    pub fn is_timeout(&self, error: &redis::RedisError) -> (r: bool)
        ensures
            r == error_is_timeout(*error),
    {
        is_timeout_error(error)
    }

    /// The pool's error as a Redis error: a timeout becomes the error of
    /// [`RedisConnectionManager::timed_out`], every other error gives the
    /// Redis error that it carries.
    pub fn surface(&self, error: PoolError<redis::RedisError>) -> (e: redis::RedisError)
        ensures
            match error.cause_spec() {
                Some(cause) => e == cause,
                None => e == Self::timed_out_spec() && error_is_timeout(e),
            },
    {
        match error.cause() {
            Some(cause) => cause,
            None => self.timed_out(),
        }
    }
}

} // verus!
