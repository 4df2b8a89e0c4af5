//! A pooled connection and the flag that tells the pool to discard it.
use crate::failure::Failure;
use crate::lifecycle::{failure_event, outcome_event, step, Event};
use redis::aio::Connection;
use redis::RedisError;
use vstd::prelude::*;

verus! {

/// The client library's asynchronous connection, carried through as an
/// opaque value.
#[verifier::external_type_specification]
#[verifier::external_body]
#[verifier::reject_recursive_types(C)]
pub struct ExConnection<C>(Connection<C>);

/// A connection over a stream of type `C`, together with the flag that
/// condemns it.
#[verifier::reject_recursive_types(C)]
pub struct RedisConnection<C> {
    connection: Connection<C>,
    close_required: bool,
}

impl<C> RedisConnection<C> {
    /// The connection that is wrapped.
    pub closed spec fn connection(&self) -> Connection<C> {
        self.connection
    }

    /// Whether the connection is condemned.
    pub closed spec fn close_required(&self) -> bool {
        self.close_required
    }

    /// Wraps a fresh connection, which starts out healthy.
    pub fn new(connection: Connection<C>) -> (conn: Self)
        ensures
            conn.connection() == connection,
            !conn.close_required(),
    {
        Self { connection, close_required: false }
    }

    /// The wrapped connection.
    pub fn inner(&self) -> (connection: &Connection<C>)
        ensures
            *connection == self.connection(),
    {
        &self.connection
    }

    /// Whether the connection is condemned and must not be lent out again.
    pub fn is_close_required(&self) -> (close_required: bool)
        ensures
            close_required == self.close_required(),
    {
        self.close_required
    }

    /// Condemns the connection, whatever its state.
    pub fn mark_condemned(&mut self)
        ensures
            final(self).close_required() == step(old(self).close_required(), Event::Condemn),
            final(self).connection() == old(self).connection(),
    {
        self.close_required = true;
    }

    /// Condemns the connection if `val` holds. A condemned connection stays
    /// condemned: `false` never lowers the flag.
    pub fn set_close_required(&mut self, val: bool)
        ensures
            final(self).close_required() == (old(self).close_required() || val),
            final(self).connection() == old(self).connection(),
    {
        if val {
            self.mark_condemned();
        }
    }

    /// Takes note of a failed request: condemns the connection if the
    /// error is of a category that must close it.
    pub fn set_close_required_with_error(&mut self, err: &RedisError)
        ensures
            final(self).close_required() == step(old(self).close_required(), failure_event(*err)),
            final(self).connection() == old(self).connection(),
    {
        let failure = Failure::of(err);
        self.set_close_required(failure.requires_close());
    }

    /// Takes note of the outcome of a request sent over this connection and
    /// hands the outcome on as it came: a reply leaves the flag alone, an
    /// error is classified first and then returned unchanged.
    pub fn observe<T>(&mut self, outcome: Result<T, RedisError>) -> (seen: Result<T, RedisError>)
        ensures
            seen == outcome,
            final(self).close_required() == step(old(self).close_required(), outcome_event(outcome)),
            final(self).connection() == old(self).connection(),
    {
        match outcome {
            Ok(reply) => Ok(reply),
            Err(err) => {
                self.set_close_required_with_error(&err);
                Err(err)
            },
        }
    }

    /// Gives up the flag and returns the wrapped connection.
    pub fn into_inner(self) -> (connection: Connection<C>)
        ensures
            connection == self.connection(),
    {
        self.connection
    }
}

impl<C> core::ops::Deref for RedisConnection<C> {
    type Target = Connection<C>;

    fn deref(&self) -> (connection: &Connection<C>)
        ensures
            *connection == self.connection(),
    {
        &self.connection
    }
}

impl<C> core::ops::DerefMut for RedisConnection<C> {
    /// The wrapped connection, for sending a request over it. Whatever is
    /// done to the connection, the flag stays as it is.
    fn deref_mut(&mut self) -> (connection: &mut Connection<C>)
        ensures
            *connection == old(self).connection(),
            final(self).connection() == *final(connection),
            final(self).close_required() == old(self).close_required(),
    {
        &mut self.connection
    }
}

} // verus!
