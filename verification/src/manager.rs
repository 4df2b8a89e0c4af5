//! The pool's side of a connection's life: making connections, probing
//! them, and telling the pool which ones to discard.
use crate::connection::RedisConnection;
use crate::failure::{kind_of, FailureKind};
use redis::aio::Connection;
use redis::{Client, ConnectionInfo, ErrorKind, RedisError};
use vstd::prelude::*;

verus! {

/// The client library's client, carried through as an opaque value.
#[verifier::external_type_specification]
#[verifier::external_body]
pub struct ExClient(Client);

/// The client library's connection parameters, carried through as an
/// opaque value.
#[verifier::external_type_specification]
#[verifier::external_body]
pub struct ExConnectionInfo(ConnectionInfo);

/// The client that `Client::open` makes of connection parameters.
pub uninterp spec fn opened(info: ConnectionInfo) -> Client;

/// Calls `Client::open` on connection parameters that are already parsed.
/// The client library then has nothing left to check: it stores the
/// parameters and returns the client, so the contract promises `Ok` and
/// gives the client its name.
#[verifier::external_body]
fn open_client(info: ConnectionInfo) -> (client: Result<Client, RedisError>)
    ensures
        client is Ok,
        client->Ok_0 == opened(info),
{
    Client::open(info)
}

/// `Client::clone`, which the client library derives: the copy holds the
/// same connection parameters and is the same client.
pub assume_specification[ <Client as Clone>::clone ](client: &Client) -> (copy: Client)
    ensures
        copy == *client,
;

/// Builds an error of the category "response error" from a description,
/// through `RedisError::from` on a pair of `ErrorKind` and description.
/// `RedisError::kind` returns the kind that such an error was built with.
#[verifier::external_body]
fn response_error(description: &'static str) -> (err: RedisError)
    ensures
        kind_of(err) == FailureKind::ResponseError,
{
    RedisError::from((ErrorKind::ResponseError, description))
}

/// The reply that a live server gives to `PING`.
pub open spec fn pong() -> Seq<char> {
    "PONG"@
}

/// Makes and judges the connections of a pool.
#[derive(Debug)]
pub struct RedisConnectionManager {
    client: Client,
}

impl Clone for RedisConnectionManager {
    fn clone(&self) -> (copy: Self)
        ensures
            copy == *self,
    {
        RedisConnectionManager { client: self.client.clone() }
    }
}

impl RedisConnectionManager {
    /// The client that connections are made with.
    pub closed spec fn client_spec(&self) -> Client {
        self.client
    }

    /// Makes a manager for the server that `info` describes. No connection
    /// is opened yet.
    pub fn new(info: ConnectionInfo) -> (manager: Result<RedisConnectionManager, RedisError>)
        ensures
            manager matches Ok(m) && m.client_spec() == opened(info),
    {
        match open_client(info) {
            Ok(client) => Ok(RedisConnectionManager { client }),
            Err(err) => Err(err),
        }
    }

    /// The client that connections are made with.
    pub fn client(&self) -> (client: &Client)
        ensures
            *client == self.client_spec(),
    {
        &self.client
    }

    /// Turns the outcome of opening a connection into what the pool gets:
    /// a fresh connection is wrapped and starts out healthy, a failure to
    /// connect is handed on unchanged.
    pub fn connected<C>(&self, outcome: Result<Connection<C>, RedisError>) -> (made: Result<
        RedisConnection<C>,
        RedisError,
    >)
        ensures
            match outcome {
                Ok(connection) => made matches Ok(conn) && conn.connection() == connection
                    && !conn.close_required(),
                Err(err) => made matches Err(e) && e == err,
            },
    {
        match outcome {
            Ok(connection) => Ok(RedisConnection::new(connection)),
            Err(err) => Err(err),
        }
    }

    /// Judges the outcome of a `PING` sent to probe a connection: only the
    /// exact reply `PONG` shows a live connection. Any other reply is a
    /// response error, and an error of the round trip is handed on
    /// unchanged. The connection's flag is not involved.
    pub fn probed(&self, outcome: Result<String, RedisError>) -> (valid: Result<(), RedisError>)
        ensures
            valid is Ok <==> (outcome matches Ok(reply) && reply@ == pong()),
            match outcome {
                Ok(reply) => valid matches Err(e) ==> kind_of(e) == FailureKind::ResponseError,
                Err(err) => valid matches Err(e) && e == err,
            },
    {
        match outcome {
            Ok(reply) => {
                let expected = "PONG".to_owned();
                if reply == expected {
                    Ok(())
                } else {
                    Err(response_error("ping request"))
                }
            },
            Err(err) => Err(err),
        }
    }

    /// Whether the pool must discard `conn` instead of lending it out
    /// again. Reads the flag and changes nothing.
    pub fn has_broken<C>(&self, conn: &mut RedisConnection<C>) -> (broken: bool)
        ensures
            broken == old(conn).close_required(),
            *final(conn) == *old(conn),
    {
        conn.is_close_required()
    }
}

} // verus!
