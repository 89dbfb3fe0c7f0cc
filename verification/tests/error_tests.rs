use xbus::error::{Error, IoFailure};

fn request(code: &str) -> Error {
    Error::Request(code.to_string(), "m".to_string())
}

#[test]
fn io_timeout_is_a_timeout_that_can_be_retried() {
    let e = Error::io_timeout();
    assert!(e.is_timeout());
    assert!(!e.is_not_found());
    assert!(e.can_retry());
    assert_eq!(e.message(), "timeout");
    assert_eq!(e, Error::Io(IoFailure { timed_out: true, message: "timeout".to_string() }));
}

#[test]
fn other_io_failure_is_no_timeout() {
    let e = Error::Io(IoFailure { timed_out: false, message: "refused".to_string() });
    assert!(!e.is_timeout());
    assert!(!e.is_not_found());
    assert!(e.can_retry());
    assert_eq!(e.message(), "refused");
}

#[test]
fn request_codes_are_classified() {
    assert!(request("DEADLINE_EXCEEDED").is_timeout());
    assert!(request("DEADLINE_EXCEEDED").can_retry());
    assert!(!request("DEADLINE_EXCEEDED").is_not_found());
    assert!(request("NOT_FOUND").is_not_found());
    assert!(!request("NOT_FOUND").is_timeout());
    assert!(!request("NOT_FOUND").can_retry());
    assert!(request("SYSTEM_ERROR").can_retry());
    assert!(request("TOO_MANY_ATTEMPTS").can_retry());
    assert!(request("CANCELLED").can_retry());
    assert!(!request("SYSTEM_ERROR").is_timeout());
    assert!(!request("NOT_PERMITTED").can_retry());
    assert!(!request("deadline_exceeded").is_timeout());
    assert!(!request("").can_retry());
}

#[test]
fn kinds_without_a_code_are_classified() {
    let http = Error::Http("h".to_string());
    assert!(http.can_retry() && !http.is_timeout() && !http.is_not_found());
    let ssl = Error::Ssl("s".to_string());
    assert!(!ssl.can_retry() && !ssl.is_timeout() && !ssl.is_not_found());
    let ser = Error::Serialize("j".to_string());
    assert!(!ser.can_retry() && !ser.is_timeout() && !ser.is_not_found());
    let np = Error::NotPermitted("no".to_string(), vec!["k".to_string()]);
    assert!(!np.can_retry() && !np.is_timeout() && !np.is_not_found());
    let other = Error::other("o");
    assert!(!other.can_retry() && !other.is_timeout() && !other.is_not_found());
}

#[test]
fn messages_read_as_documented() {
    assert_eq!(request("NOT_FOUND").message(), "request fail[NOT_FOUND]: m");
    assert_eq!(
        Error::NotPermitted("svc".to_string(), vec![]).message(),
        "not permitted: svc"
    );
    assert_eq!(Error::Http("h".to_string()).message(), "h");
    assert_eq!(Error::Ssl("s".to_string()).message(), "s");
    assert_eq!(Error::Serialize("j".to_string()).message(), "j");
    assert_eq!(Error::other("o").message(), "o");
}

#[test]
fn clone_keeps_the_error() {
    let np = Error::NotPermitted("no".to_string(), vec!["a".to_string(), "b".to_string()]);
    assert_eq!(np.clone(), np);
    assert_eq!(request("X").clone(), request("X"));
}

#[test]
fn default_zone_is_named_default() {
    assert_eq!(xbus::DEFAULT_ZONE, "default");
}
