use redmond_pool::facade::finish_query;
use redmond_pool::facade::recycle_policy;
use redmond_pool::facade::wait_outcome;
use redmond_pool::Error;
use redmond_pool::Recycle;

#[test]
fn default_policy_accepts_every_handle() {
    assert_eq!(recycle_policy(), Recycle::Accepted);
}

#[test]
fn granted_wait_yields_the_handle() {
    assert_eq!(wait_outcome(Some(7)), Ok(7));
}

#[test]
fn elapsed_wait_yields_the_timeout_error() {
    assert_eq!(wait_outcome(None), Err(Error::Timeout));
    assert_eq!(Error::Timeout.message(), "Timeout");
}

#[test]
fn scalar_row_yields_the_scalar() {
    // The fixed query is expected to return the scalar 1.
    assert_eq!(finish_query(Some(Some(1))), Ok(1));
    assert_eq!(finish_query(Some(Some(-3))), Ok(-3));
}

#[test]
fn missing_row_is_a_protocol_failure() {
    match finish_query(None) {
        Err(Error::Protocol(m)) => assert_eq!(m, "query returned no row"),
        other => panic!("expected a protocol failure, got {:?}", other),
    }
}

#[test]
fn mismatched_column_is_a_protocol_failure() {
    match finish_query(Some(None)) {
        Err(Error::Protocol(m)) => assert_eq!(m, "first column was not an int"),
        other => panic!("expected a protocol failure, got {:?}", other),
    }
}

#[test]
fn messages_carry_the_underlying_cause() {
    let t = Error::Transport(String::from("connection refused"));
    assert_eq!(t.message(), "connection refused");
    let p = Error::Protocol(String::from("handshake rejected"));
    assert_eq!(p.message(), "handshake rejected");
    assert_eq!(Error::Closed.message(), "pool is closed");
}
