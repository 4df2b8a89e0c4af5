//! Failure categories and the policy that decides which of them cost the
//! connection.
use redis::{ErrorKind, RedisError};
use vstd::prelude::*;

verus! {

/// The category of a failed request, as the client library reports it.
#[derive(Clone, Copy, Debug, PartialEq, Eq, Structural)]
pub enum FailureKind {
    /// The server sent a reply that could not be understood.
    ResponseError,
    /// The server rejected the credentials.
    AuthenticationFailed,
    /// The reply did not have the type that the caller asked for.
    TypeError,
    /// The server aborted a transaction.
    ExecAbortError,
    /// The server is still loading its dataset.
    BusyLoadingError,
    /// The requested script is unknown to the server.
    NoScriptError,
    /// The client was configured with parameters it cannot use.
    InvalidClientConfig,
    /// The key moved to another node.
    Moved,
    /// The key is moving and the other node has to be asked.
    Ask,
    /// The request has to be tried again.
    TryAgain,
    /// The cluster is down.
    ClusterDown,
    /// The request spans several slots.
    CrossSlot,
    /// The master of a replica is unreachable.
    MasterDown,
    /// The transport failed underneath the protocol.
    IoError,
    /// The client found a fault before sending the request.
    ClientError,
    /// The server reported an error that the client library does not know.
    ExtensionError,
    /// A read-only server refused a write.
    ReadOnly,
    /// A category that this library does not know.
    Unrecognized,
}

/// Whether a failure of this category leaves the connection usable.
///
/// These are the failures that concern the command and not the session: the
/// stream stays framed and the session stays authenticated, so the next
/// request on the same connection can succeed.
///
/// Two categories could be argued either way and are settled here. A
/// malformed reply (`ResponseError`) is taken as a single reply that did
/// not parse on a stream that is still alive, and a cross-slot rejection
/// (`CrossSlot`) as the server's answer to one request: neither closes the
/// connection.
pub open spec fn keeps_session(kind: FailureKind) -> bool {
    kind is ResponseError || kind is TypeError || kind is ExecAbortError
        || kind is BusyLoadingError || kind is NoScriptError || kind is Moved || kind is Ask
        || kind is TryAgain || kind is ClusterDown || kind is CrossSlot || kind is MasterDown
        || kind is ReadOnly
}

/// Whether a failure of this category, with this subcode, means that the
/// connection must be closed.
///
/// Every category that is not known to keep the session closes the
/// connection, whatever its subcode: no subcode rescues a connection.
pub open spec fn must_close(kind: FailureKind, code: Option<Seq<char>>) -> bool {
    !keeps_session(kind)
}

/// The subcode of a failure as a sequence of characters.
pub open spec fn code_view(code: Option<&str>) -> Option<Seq<char>> {
    match code {
        Some(c) => Some(c@),
        None => None,
    }
}

/// Decides whether a failure of category `kind`, reported with the subcode
/// `code`, requires the connection to be closed.
pub fn classify(kind: FailureKind, code: Option<&str>) -> (close: bool)
    ensures
        close == must_close(kind, code_view(code)),
{
    match kind {
        FailureKind::ResponseError => false,
        FailureKind::AuthenticationFailed => true,
        FailureKind::TypeError => false,
        FailureKind::ExecAbortError => false,
        FailureKind::BusyLoadingError => false,
        FailureKind::NoScriptError => false,
        FailureKind::InvalidClientConfig => true,
        FailureKind::Moved => false,
        FailureKind::Ask => false,
        FailureKind::TryAgain => false,
        FailureKind::ClusterDown => false,
        FailureKind::CrossSlot => false,
        FailureKind::MasterDown => false,
        FailureKind::IoError => true,
        FailureKind::ClientError => true,
        FailureKind::ExtensionError => true,
        FailureKind::ReadOnly => false,
        FailureKind::Unrecognized => true,
    }
}

/// The client library's error type, carried through as an opaque value.
#[verifier::external_type_specification]
#[verifier::external_body]
pub struct ExRedisError(RedisError);

/// The category that `RedisError::kind` reports for `err`.
pub uninterp spec fn kind_of(err: RedisError) -> FailureKind;

/// The subcode that `RedisError::code` reports for `err`, if it has one.
pub uninterp spec fn code_of(err: RedisError) -> Option<Seq<char>>;

/// Calls `RedisError::kind` and renames the category it returns, variant
/// for variant; a category added by a later version of the client library
/// becomes `Unrecognized`. The contract only gives the result its name.
#[verifier::external_body]
fn error_kind(err: &RedisError) -> (kind: FailureKind)
    ensures
        kind == kind_of(*err),
{
    match err.kind() {
        ErrorKind::ResponseError => FailureKind::ResponseError, ErrorKind::AuthenticationFailed => FailureKind::AuthenticationFailed,
        ErrorKind::TypeError => FailureKind::TypeError, ErrorKind::ExecAbortError => FailureKind::ExecAbortError,
        ErrorKind::BusyLoadingError => FailureKind::BusyLoadingError, ErrorKind::NoScriptError => FailureKind::NoScriptError,
        ErrorKind::InvalidClientConfig => FailureKind::InvalidClientConfig, ErrorKind::Moved => FailureKind::Moved,
        ErrorKind::Ask => FailureKind::Ask, ErrorKind::TryAgain => FailureKind::TryAgain,
        ErrorKind::ClusterDown => FailureKind::ClusterDown, ErrorKind::CrossSlot => FailureKind::CrossSlot,
        ErrorKind::MasterDown => FailureKind::MasterDown, ErrorKind::IoError => FailureKind::IoError,
        ErrorKind::ClientError => FailureKind::ClientError, ErrorKind::ExtensionError => FailureKind::ExtensionError,
        ErrorKind::ReadOnly => FailureKind::ReadOnly,
        _ => FailureKind::Unrecognized,
    }
}

/// Calls `RedisError::code`. The contract only gives the result its name.
#[verifier::external_body]
fn error_code<'a>(err: &'a RedisError) -> (code: Option<&'a str>)
    ensures
        code_view(code) == code_of(*err),
{
    err.code()
}

/// What the policy reads of a failed request: its category and, where
/// the error carries one, its subcode.
#[derive(Debug, PartialEq, Eq)]
pub struct Failure {
    /// The category of the failure.
    pub kind: FailureKind,
    /// The subcode that the server or the client library gave, if any.
    pub code: Option<String>,
}

impl Clone for Failure {
    fn clone(&self) -> (copy: Self)
        ensures
            copy == *self,
    {
        let code = match &self.code {
            Some(c) => Some(c.clone()),
            None => None,
        };
        Failure { kind: self.kind, code }
    }
}

impl Failure {
    /// The subcode as a sequence of characters.
    pub open spec fn code_spec(&self) -> Option<Seq<char>> {
        match self.code {
            Some(c) => Some(c@),
            None => None,
        }
    }

    /// Reads the category and the subcode of an error of the client
    /// library.
    pub fn of(err: &RedisError) -> (failure: Failure)
        ensures
            failure.kind == kind_of(*err),
            failure.code_spec() == code_of(*err),
    {
        let kind = error_kind(err);
        let code = match error_code(err) {
            Some(c) => Some(c.to_owned()),
            None => None,
        };
        Failure { kind, code }
    }

    /// Whether the connection that reported this failure must be closed.
    pub fn requires_close(&self) -> (close: bool)
        ensures
            close == must_close(self.kind, self.code_spec()),
    {
        let code: Option<&str> = match &self.code {
            Some(c) => Some(c.as_str()),
            None => None,
        };
        classify(self.kind, code)
    }
}

} // verus!
