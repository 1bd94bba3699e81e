//! Decoder behaviour on concrete wire inputs, through the real JSON parse.

use scout::decode::{decode_batch, decode_error_report, decode_stats, DecodeError};
use scout::json::Json;
use scout::schema::{AnalyticsBatch, AnalyticsEvent, ErrorReport, NonNegNumber, PerformanceEntry};

#[test]
fn scenario_single_end_event() {
    let body = br#"{"bid":1,"sid":2,"svc":3,"ts":1000,"events":[{"type":"end","ts":1001}]}"#;
    let got = decode_stats(body).unwrap();
    let want = AnalyticsBatch {
        browser_id: 1,
        session_id: 2,
        session_view_count: 3,
        timestamp: 1000,
        events: vec![AnalyticsEvent::End { timestamp: 1001 }],
    };
    assert_eq!(got, want);
}

#[test]
fn scenario_unknown_event_type() {
    let body = br#"{"bid":1,"sid":2,"svc":3,"ts":1000,"events":[{"type":"bogus","ts":1001}]}"#;
    let got = decode_stats(body);
    assert_eq!(
        got,
        Err(DecodeError::UnknownVariant { field: "type".to_string(), value: "bogus".to_string() })
    );
}

#[test]
fn scenario_error_report() {
    let body = br#"{"msg":"TypeError","stack":"at foo()"}"#;
    let got = decode_error_report(body).unwrap();
    let want = ErrorReport { msg: "TypeError".to_string(), stack: "at foo()".to_string() };
    assert_eq!(got, want);
}

#[test]
fn paint_missing_duration_fails() {
    let body = br#"{"bid":1,"sid":2,"svc":3,"ts":1000,"events":[
        {"type":"performance","ts":7,"perfEntry":{"entryType":"paint","name":"x","startTime":1}}
    ]}"#;
    let got = decode_stats(body);
    assert_eq!(got, Err(DecodeError::MissingField { field: "duration".to_string() }));
}

#[test]
fn empty_events_is_valid() {
    let body = br#"{"bid":9,"sid":8,"svc":0,"ts":0,"events":[]}"#;
    let got = decode_stats(body).unwrap();
    assert_eq!(got.browser_id, 9);
    assert_eq!(got.session_id, 8);
    assert_eq!(got.session_view_count, 0);
    assert_eq!(got.timestamp, 0);
    assert!(got.events.is_empty());
}

#[test]
fn full_batch_round_trips_exactly() {
    let body = br#"{"bid":18446744073709551615,"sid":2,"svc":3,"ts":1000,"events":[
        {"type":"start","ts":10,"bfs":1,"sfs":2,"title":"Home","url":"https://example.test/"},
        {"type":"performance","ts":11,"perfEntry":
            {"entryType":"paint","duration":1.5,"name":"first-paint","startTime":0.25}},
        {"type":"end","ts":12}
    ]}"#;
    let got = decode_stats(body).unwrap();
    let want = AnalyticsBatch {
        browser_id: u64::MAX,
        session_id: 2,
        session_view_count: 3,
        timestamp: 1000,
        events: vec![
            AnalyticsEvent::Start {
                timestamp: 10,
                browser_first_seen: 1,
                session_first_seen: 2,
                title: "Home".to_string(),
                url: "https://example.test/".to_string(),
            },
            AnalyticsEvent::Performance {
                timestamp: 11,
                entry: PerformanceEntry::Paint {
                    duration: NonNegNumber::Decimal("1.5".to_string()),
                    name: "first-paint".to_string(),
                    start_time: NonNegNumber::Decimal("0.25".to_string()),
                },
            },
            AnalyticsEvent::End { timestamp: 12 },
        ],
    };
    assert_eq!(got, want);
}

#[test]
fn all_entry_variants_decode() {
    for tag in ["navigate", "reload", "resource"] {
        let body = format!(
            r#"{{"bid":1,"sid":1,"svc":1,"ts":1,"events":[
                {{"type":"performance","ts":2,"perfEntry":{{"entryType":"{}"}}}}]}}"#,
            tag
        );
        let got = decode_stats(body.as_bytes()).unwrap();
        let want = match tag {
            "navigate" => PerformanceEntry::Navigate,
            "reload" => PerformanceEntry::Reload,
            _ => PerformanceEntry::Resource,
        };
        assert_eq!(
            got.events,
            vec![AnalyticsEvent::Performance { timestamp: 2, entry: want }]
        );
    }
    let body = br#"{"bid":1,"sid":1,"svc":1,"ts":1,"events":[
        {"type":"performance","ts":2,"perfEntry":{"entryType":"navigation","name":"nav"}}]}"#;
    let got = decode_stats(body).unwrap();
    assert_eq!(
        got.events,
        vec![AnalyticsEvent::Performance {
            timestamp: 2,
            entry: PerformanceEntry::Navigation { name: "nav".to_string() },
        }]
    );
}

#[test]
fn integer_paint_fields_decode_as_integers() {
    let body = br#"{"bid":1,"sid":1,"svc":1,"ts":1,"events":[
        {"type":"performance","ts":2,"perfEntry":
            {"entryType":"paint","duration":5,"name":"p","startTime":0}}]}"#;
    let got = decode_stats(body).unwrap();
    assert_eq!(
        got.events,
        vec![AnalyticsEvent::Performance {
            timestamp: 2,
            entry: PerformanceEntry::Paint {
                duration: NonNegNumber::Int(5),
                name: "p".to_string(),
                start_time: NonNegNumber::Int(0),
            },
        }]
    );
}

#[test]
fn unknown_entry_type_fails() {
    let body = br#"{"bid":1,"sid":1,"svc":1,"ts":1,"events":[
        {"type":"performance","ts":2,"perfEntry":{"entryType":"bogus"}}]}"#;
    assert_eq!(
        decode_stats(body),
        Err(DecodeError::UnknownVariant {
            field: "entryType".to_string(),
            value: "bogus".to_string(),
        })
    );
}

#[test]
fn malformed_bytes_fail() {
    assert_eq!(decode_stats(b"not json at all"), Err(DecodeError::MalformedInput));
    assert_eq!(decode_error_report(b"{"), Err(DecodeError::MalformedInput));
}

#[test]
fn non_object_top_level_fails() {
    assert_eq!(decode_stats(b"[1,2,3]"), Err(DecodeError::MalformedInput));
    assert_eq!(decode_stats(b"42"), Err(DecodeError::MalformedInput));
    assert_eq!(decode_error_report(b"\"hi\""), Err(DecodeError::MalformedInput));
}

#[test]
fn missing_batch_fields_fail_in_order() {
    assert_eq!(
        decode_stats(br#"{"sid":2,"svc":3,"ts":1000,"events":[]}"#),
        Err(DecodeError::MissingField { field: "bid".to_string() })
    );
    assert_eq!(
        decode_stats(br#"{"bid":1,"sid":2,"svc":3,"ts":1000}"#),
        Err(DecodeError::MissingField { field: "events".to_string() })
    );
    assert_eq!(
        decode_stats(br#"{"bid":1,"sid":2,"svc":3,"ts":1000,"events":[{"ts":1}]}"#),
        Err(DecodeError::MissingField { field: "type".to_string() })
    );
}

#[test]
fn type_mismatches_fail() {
    assert_eq!(
        decode_stats(br#"{"bid":"one","sid":2,"svc":3,"ts":1000,"events":[]}"#),
        Err(DecodeError::TypeMismatch {
            field: "bid".to_string(),
            expected: "non-negative integer".to_string(),
        })
    );
    assert_eq!(
        decode_stats(br#"{"bid":-1,"sid":2,"svc":3,"ts":1000,"events":[]}"#),
        Err(DecodeError::TypeMismatch {
            field: "bid".to_string(),
            expected: "non-negative integer".to_string(),
        })
    );
    assert_eq!(
        decode_stats(br#"{"bid":1.5,"sid":2,"svc":3,"ts":1000,"events":[]}"#),
        Err(DecodeError::TypeMismatch {
            field: "bid".to_string(),
            expected: "non-negative integer".to_string(),
        })
    );
    assert_eq!(
        decode_stats(br#"{"bid":1,"sid":2,"svc":3,"ts":1000,"events":7}"#),
        Err(DecodeError::TypeMismatch {
            field: "events".to_string(),
            expected: "array".to_string(),
        })
    );
    assert_eq!(
        decode_stats(br#"{"bid":1,"sid":2,"svc":3,"ts":1000,"events":[7]}"#),
        Err(DecodeError::TypeMismatch {
            field: "events".to_string(),
            expected: "object".to_string(),
        })
    );
    assert_eq!(
        decode_stats(br#"{"bid":1,"sid":2,"svc":3,"ts":1000,"events":[{"type":9}]}"#),
        Err(DecodeError::TypeMismatch {
            field: "type".to_string(),
            expected: "string".to_string(),
        })
    );
    assert_eq!(
        decode_error_report(br#"{"msg":5,"stack":"s"}"#),
        Err(DecodeError::TypeMismatch {
            field: "msg".to_string(),
            expected: "string".to_string(),
        })
    );
}

#[test]
fn negative_paint_numbers_fail() {
    let body = br#"{"bid":1,"sid":1,"svc":1,"ts":1,"events":[
        {"type":"performance","ts":2,"perfEntry":
            {"entryType":"paint","duration":-1.5,"name":"p","startTime":0}}]}"#;
    assert_eq!(
        decode_stats(body),
        Err(DecodeError::TypeMismatch {
            field: "duration".to_string(),
            expected: "non-negative number".to_string(),
        })
    );
    let body = br#"{"bid":1,"sid":1,"svc":1,"ts":1,"events":[
        {"type":"performance","ts":2,"perfEntry":
            {"entryType":"paint","duration":1,"name":"p","startTime":-3}}]}"#;
    assert_eq!(
        decode_stats(body),
        Err(DecodeError::TypeMismatch {
            field: "startTime".to_string(),
            expected: "non-negative number".to_string(),
        })
    );
}

#[test]
fn unknown_fields_are_ignored() {
    let body = br#"{"bid":1,"sid":2,"svc":3,"ts":1000,"future":{"x":[1,2]},"events":[
        {"type":"end","ts":5,"extra":"ignored"}],"more":null}"#;
    let got = decode_stats(body).unwrap();
    assert_eq!(got.events, vec![AnalyticsEvent::End { timestamp: 5 }]);
    let body = br#"{"msg":"m","stack":"s","browser":"x"}"#;
    assert!(decode_error_report(body).is_ok());
}

#[test]
fn first_invalid_event_fails_whole_batch() {
    let body = br#"{"bid":1,"sid":2,"svc":3,"ts":1000,"events":[
        {"type":"end","ts":1},{"type":"nope","ts":2},{"type":"end","ts":3}]}"#;
    assert_eq!(
        decode_stats(body),
        Err(DecodeError::UnknownVariant { field: "type".to_string(), value: "nope".to_string() })
    );
}

#[test]
fn tree_decode_matches_byte_decode() {
    let tree = Json::Obj(vec![
        ("bid".to_string(), Json::UInt(1)),
        ("sid".to_string(), Json::UInt(2)),
        ("svc".to_string(), Json::UInt(3)),
        ("ts".to_string(), Json::UInt(1000)),
        (
            "events".to_string(),
            Json::Arr(vec![Json::Obj(vec![
                ("type".to_string(), Json::Str("end".to_string())),
                ("ts".to_string(), Json::UInt(1001)),
            ])]),
        ),
    ]);
    let from_tree = decode_batch(&tree);
    let from_bytes =
        decode_stats(br#"{"bid":1,"sid":2,"svc":3,"ts":1000,"events":[{"type":"end","ts":1001}]}"#);
    assert_eq!(from_tree, from_bytes);
    assert_eq!(
        from_tree.unwrap().events,
        vec![AnalyticsEvent::End { timestamp: 1001 }]
    );
}

#[test]
fn decoding_twice_gives_equal_results() {
    let bodies: [&[u8]; 3] = [
        br#"{"bid":1,"sid":2,"svc":3,"ts":1000,"events":[{"type":"end","ts":1001}]}"#,
        br#"{"bid":1,"sid":2,"svc":3,"ts":1000,"events":[{"type":"bogus","ts":1001}]}"#,
        b"garbage",
    ];
    for body in bodies {
        assert_eq!(decode_stats(body), decode_stats(body));
    }
    let report = br#"{"msg":"m","stack":"s"}"#;
    assert_eq!(decode_error_report(report), decode_error_report(report));
}
