//! The response policy: both endpoints always reply `200 {}`, and each
//! invocation yields exactly one record for the Logger Sink.

use scout::decode::DecodeError;
use scout::policy::{error, home_page, record, Outcome};
use scout::schema::AnalyticsEvent;

#[test]
fn check_basic_response() {
    let reply = home_page();
    assert_eq!(reply.status, 200);
    assert_eq!(&reply.body.as_bytes()[..], b"Nothing to see here...\n");
}

#[test]
fn record_accepts_valid_batch() {
    let body = br#"{"bid":1,"sid":2,"svc":3,"ts":1000,"events":[{"type":"end","ts":1001}]}"#;
    let (reply, outcome) = record(body.to_vec());
    assert_eq!(reply.status, 200);
    assert_eq!(reply.body, "{}");
    match outcome {
        Outcome::Accepted(batch) => {
            assert_eq!(batch.browser_id, 1);
            assert_eq!(batch.events, vec![AnalyticsEvent::End { timestamp: 1001 }]);
        }
        Outcome::Rejected { .. } => panic!("a well-formed batch was rejected"),
    }
}

#[test]
fn record_still_replies_ok_on_unknown_variant() {
    let body = br#"{"bid":1,"sid":2,"svc":3,"ts":1000,"events":[{"type":"bogus","ts":1001}]}"#;
    let (reply, outcome) = record(body.to_vec());
    assert_eq!(reply.status, 200);
    assert_eq!(reply.body, "{}");
    assert_eq!(
        outcome,
        Outcome::Rejected {
            raw: body.to_vec(),
            error: DecodeError::UnknownVariant {
                field: "type".to_string(),
                value: "bogus".to_string(),
            },
        }
    );
}

#[test]
fn record_still_replies_ok_on_garbage() {
    let (reply, outcome) = record(b"\xff\xfe not json".to_vec());
    assert_eq!(reply.status, 200);
    assert_eq!(reply.body, "{}");
    assert_eq!(
        outcome,
        Outcome::Rejected {
            raw: b"\xff\xfe not json".to_vec(),
            error: DecodeError::MalformedInput,
        }
    );
}

#[test]
fn error_endpoint_accepts_report() {
    let body = br#"{"msg":"TypeError","stack":"at foo()"}"#;
    let (reply, outcome) = error(body.to_vec());
    assert_eq!(reply.status, 200);
    assert_eq!(reply.body, "{}");
    match outcome {
        Outcome::Accepted(report) => {
            assert_eq!(report.msg, "TypeError");
            assert_eq!(report.stack, "at foo()");
        }
        Outcome::Rejected { .. } => panic!("a well-formed report was rejected"),
    }
}

#[test]
fn error_endpoint_still_replies_ok_on_bad_report() {
    let body = br#"{"msg":"only a message"}"#;
    let (reply, outcome) = error(body.to_vec());
    assert_eq!(reply.status, 200);
    assert_eq!(reply.body, "{}");
    assert_eq!(
        outcome,
        Outcome::Rejected {
            raw: body.to_vec(),
            error: DecodeError::MissingField { field: "stack".to_string() },
        }
    );
}
