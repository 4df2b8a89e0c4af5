use bb8_redis_break_with_error::{Failure, FailureKind};
use redis::{from_redis_value, parse_redis_value, ErrorKind, RedisError, Value};
use std::io;

fn server_error(line: &str) -> RedisError {
    let reply = format!("-{}\r\n", line);
    parse_redis_value(reply.as_bytes()).unwrap_err()
}

fn failure(kind: FailureKind, code: Option<&str>) -> Failure {
    Failure { kind, code: code.map(|c| c.to_string()) }
}

#[test]
fn wrong_password_is_an_extension_error_with_its_code() {
    let err = server_error("WRONGPASS invalid username-password pair or user is disabled.");
    assert_eq!(err.kind(), ErrorKind::ExtensionError);
    assert!(err.to_string().starts_with("WRONGPASS:"));
    assert_eq!(err.code(), Some("WRONGPASS"));
    assert_eq!(Failure::of(&err), failure(FailureKind::ExtensionError, Some("WRONGPASS")));
    assert!(Failure::of(&err).requires_close());
}

#[test]
fn missing_authentication_is_an_extension_error_with_its_code() {
    let err = server_error("NOAUTH Authentication required.");
    assert_eq!(Failure::of(&err), failure(FailureKind::ExtensionError, Some("NOAUTH")));
    assert!(Failure::of(&err).requires_close());
}

#[test]
fn unknown_server_code_is_an_extension_error() {
    let err = server_error("OOM command not allowed when used memory > 'maxmemory'.");
    assert_eq!(Failure::of(&err), failure(FailureKind::ExtensionError, Some("OOM")));
    assert!(Failure::of(&err).requires_close());
}

#[test]
fn extension_error_without_a_code() {
    let err = RedisError::from((ErrorKind::ExtensionError, "extension"));
    assert_eq!(Failure::of(&err), failure(FailureKind::ExtensionError, None));
    assert!(Failure::of(&err).requires_close());
}

#[test]
fn server_codes_map_to_their_categories() {
    let cases = [
        ("ERR unknown command 'PING PingMsg1'", FailureKind::ResponseError, "ERR"),
        ("EXECABORT Transaction discarded", FailureKind::ExecAbortError, "EXECABORT"),
        ("LOADING Redis is loading the dataset in memory", FailureKind::BusyLoadingError, "LOADING"),
        ("NOSCRIPT No matching script", FailureKind::NoScriptError, "NOSCRIPT"),
        ("MOVED 3999 127.0.0.1:6381", FailureKind::Moved, "MOVED"),
        ("ASK 3999 127.0.0.1:6381", FailureKind::Ask, "ASK"),
        ("TRYAGAIN Multiple keys request during rehashing", FailureKind::TryAgain, "TRYAGAIN"),
        ("CLUSTERDOWN The cluster is down", FailureKind::ClusterDown, "CLUSTERDOWN"),
        ("CROSSSLOT Keys in request don't hash to the same slot", FailureKind::CrossSlot, "CROSSSLOT"),
        ("MASTERDOWN Link with MASTER is down", FailureKind::MasterDown, "MASTERDOWN"),
        ("READONLY You can't write against a read only replica.", FailureKind::ReadOnly, "READONLY"),
    ];
    for (line, kind, code) in cases {
        let err = server_error(line);
        assert_eq!(Failure::of(&err), failure(kind, Some(code)), "{}", line);
        assert!(!Failure::of(&err).requires_close(), "{}", line);
    }
}

#[test]
fn client_side_categories_carry_no_code() {
    let cases = [
        (ErrorKind::AuthenticationFailed, FailureKind::AuthenticationFailed, true),
        (ErrorKind::TypeError, FailureKind::TypeError, false),
        (ErrorKind::InvalidClientConfig, FailureKind::InvalidClientConfig, true),
        (ErrorKind::IoError, FailureKind::IoError, true),
        (ErrorKind::ClientError, FailureKind::ClientError, true),
    ];
    for (outside, kind, close) in cases {
        let err = RedisError::from((outside, "description"));
        assert_eq!(Failure::of(&err), failure(kind, None));
        assert_eq!(Failure::of(&err).requires_close(), close);
    }
}

#[test]
fn every_known_category_keeps_its_name() {
    let cases = [
        (ErrorKind::ResponseError, FailureKind::ResponseError),
        (ErrorKind::AuthenticationFailed, FailureKind::AuthenticationFailed),
        (ErrorKind::TypeError, FailureKind::TypeError),
        (ErrorKind::ExecAbortError, FailureKind::ExecAbortError),
        (ErrorKind::BusyLoadingError, FailureKind::BusyLoadingError),
        (ErrorKind::NoScriptError, FailureKind::NoScriptError),
        (ErrorKind::InvalidClientConfig, FailureKind::InvalidClientConfig),
        (ErrorKind::Moved, FailureKind::Moved),
        (ErrorKind::Ask, FailureKind::Ask),
        (ErrorKind::TryAgain, FailureKind::TryAgain),
        (ErrorKind::ClusterDown, FailureKind::ClusterDown),
        (ErrorKind::CrossSlot, FailureKind::CrossSlot),
        (ErrorKind::MasterDown, FailureKind::MasterDown),
        (ErrorKind::IoError, FailureKind::IoError),
        (ErrorKind::ClientError, FailureKind::ClientError),
        (ErrorKind::ExtensionError, FailureKind::ExtensionError),
        (ErrorKind::ReadOnly, FailureKind::ReadOnly),
    ];
    for (outside, kind) in cases {
        let err = RedisError::from((outside, "description", "detail".to_string()));
        assert_eq!(Failure::of(&err).kind, kind);
    }
}

#[test]
fn transport_error_is_an_io_error() {
    let err = RedisError::from(io::Error::new(io::ErrorKind::BrokenPipe, "peer went away"));
    assert_eq!(Failure::of(&err), failure(FailureKind::IoError, None));
    assert!(Failure::of(&err).requires_close());
}

#[test]
fn reply_of_the_wrong_type_is_a_type_error() {
    let reply = Value::Status("PONG".to_string());
    let err = from_redis_value::<i64>(&reply).unwrap_err();
    assert_eq!(err.kind(), ErrorKind::TypeError);
    assert_eq!(Failure::of(&err), failure(FailureKind::TypeError, None));
    assert!(!Failure::of(&err).requires_close());
}
