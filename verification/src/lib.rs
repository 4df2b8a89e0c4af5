//! Health tracking for pooled Redis connections.
//!
//! A pooled connection carries a `close_required` flag. Every failed request
//! seen through the connection is classified by [`classify`]; a failure that
//! leaves the session, its authentication or its framing untrustworthy raises
//! the flag, and the pool then discards the connection instead of lending it
//! out again. The flag is never lowered on a used connection.
pub mod connection;
pub mod failure;
pub mod lifecycle;
pub mod manager;

pub use connection::RedisConnection;
pub use failure::{classify, Failure, FailureKind};
pub use manager::RedisConnectionManager;
