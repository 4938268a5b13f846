use album_notifier::transport::{settle, succeeded, Exchange, TransportError};

#[test]
fn success_is_any_status_from_200_to_299() {
    for status in 0u16..=700 {
        assert_eq!(succeeded(status), (200..=299).contains(&status));
    }
    assert!(!succeeded(u16::MAX));
}

#[test]
fn a_successful_exchange_hands_on_its_body() {
    let outcome = settle(Exchange::Answered { status: 200, body: b"{}".to_vec() });
    assert_eq!(outcome, Ok(b"{}".to_vec()));
    let created = settle(Exchange::Answered { status: 202, body: Vec::new() });
    assert_eq!(created, Ok(Vec::new()));
}

#[test]
fn other_statuses_are_rejections() {
    for status in [100u16, 199, 300, 304, 404, 500, 503] {
        let outcome = settle(Exchange::Answered { status, body: b"ignored".to_vec() });
        assert_eq!(outcome, Err(TransportError::Rejected { status }));
    }
}

#[test]
fn an_exchange_that_failed_is_unreachable() {
    let outcome = settle(Exchange::Failed { reason: String::from("connection refused") });
    assert_eq!(
        outcome,
        Err(TransportError::Unreachable { reason: String::from("connection refused") })
    );
}

#[test]
fn transport_failures_in_words() {
    assert_eq!(TransportError::Rejected { status: 500 }.describe(), "HTTP status 500");
    assert_eq!(
        TransportError::Unreachable { reason: String::from("timed out") }.describe(),
        "timed out"
    );
}
