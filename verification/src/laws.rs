//! The decoder's laws. A spec-level encoder writes each schema value in its
//! declared wire shape; decoding such a tree gives the value back exactly, so
//! every field round-trips with no precision loss. A discriminator outside
//! its closed set always fails with `UnknownVariant`, and decoding is a pure
//! function of the input bytes.

use vstd::prelude::*;

use crate::decode::DecodeErrorV;
use crate::decode::lookup;
use crate::decode::spec_decode_batch;
use crate::decode::spec_decode_entry;
use crate::decode::spec_decode_event;
use crate::decode::spec_decode_events;
use crate::decode::spec_decode_report;
use crate::json::JsonV;
use crate::json::json_tree;
use crate::schema::AnalyticsBatchV;
use crate::schema::AnalyticsEventV;
use crate::schema::ErrorReportV;
use crate::schema::NonNegNumberV;
use crate::schema::PerformanceEntryV;

verus! {

broadcast use vstd::string::group_string_axioms;

/// A non-negative number as it stands on the wire.
pub open spec fn num_json(n: NonNegNumberV) -> JsonV {
    match n {
        NonNegNumberV::Int(u) => JsonV::UInt(u),
        NonNegNumberV::Decimal(t) => JsonV::Decimal(t),
    }
}

/// A performance entry in its declared wire shape.
pub open spec fn entry_json(e: PerformanceEntryV) -> JsonV {
    match e {
        PerformanceEntryV::Navigate => JsonV::Obj(
            seq![("entryType"@, JsonV::Str("navigate"@))],
        ),
        PerformanceEntryV::Navigation { name } => JsonV::Obj(
            seq![("entryType"@, JsonV::Str("navigation"@)), ("name"@, JsonV::Str(name))],
        ),
        PerformanceEntryV::Paint { duration, name, start_time } => JsonV::Obj(
            seq![
                ("entryType"@, JsonV::Str("paint"@)),
                ("duration"@, num_json(duration)),
                ("name"@, JsonV::Str(name)),
                ("startTime"@, num_json(start_time)),
            ],
        ),
        PerformanceEntryV::Reload => JsonV::Obj(seq![("entryType"@, JsonV::Str("reload"@))]),
        PerformanceEntryV::Resource => JsonV::Obj(seq![("entryType"@, JsonV::Str("resource"@))]),
    }
}

/// An event in its declared wire shape.
pub open spec fn event_json(e: AnalyticsEventV) -> JsonV {
    match e {
        AnalyticsEventV::Start {
            timestamp,
            browser_first_seen,
            session_first_seen,
            title,
            url,
        } => JsonV::Obj(
            seq![
                ("type"@, JsonV::Str("start"@)),
                ("ts"@, JsonV::UInt(timestamp)),
                ("bfs"@, JsonV::UInt(browser_first_seen)),
                ("sfs"@, JsonV::UInt(session_first_seen)),
                ("title"@, JsonV::Str(title)),
                ("url"@, JsonV::Str(url)),
            ],
        ),
        AnalyticsEventV::End { timestamp } => JsonV::Obj(
            seq![("type"@, JsonV::Str("end"@)), ("ts"@, JsonV::UInt(timestamp))],
        ),
        AnalyticsEventV::Performance { timestamp, entry } => JsonV::Obj(
            seq![
                ("type"@, JsonV::Str("performance"@)),
                ("ts"@, JsonV::UInt(timestamp)),
                ("perfEntry"@, entry_json(entry)),
            ],
        ),
    }
}

/// An event sequence as it stands on the wire, in emission order.
pub open spec fn events_json(events: Seq<AnalyticsEventV>) -> Seq<JsonV> {
    Seq::new(events.len(), |i: int| event_json(events[i]))
}

/// A batch in its declared wire shape.
pub open spec fn batch_json(b: AnalyticsBatchV) -> JsonV {
    JsonV::Obj(
        seq![
            ("bid"@, JsonV::UInt(b.browser_id)),
            ("sid"@, JsonV::UInt(b.session_id)),
            ("svc"@, JsonV::UInt(b.session_view_count)),
            ("ts"@, JsonV::UInt(b.timestamp)),
            ("events"@, JsonV::Arr(events_json(b.events))),
        ],
    )
}

/// An error report in its declared wire shape.
pub open spec fn report_json(r: ErrorReportV) -> JsonV {
    JsonV::Obj(seq![("msg"@, JsonV::Str(r.msg)), ("stack"@, JsonV::Str(r.stack))])
}

/// The wire words are pairwise distinct wherever the decoder compares them.
proof fn lemma_wire_words()
    ensures
        "navigation"@ != "navigate"@,
        "paint"@ != "navigate"@,
        "paint"@ != "navigation"@,
        "reload"@ != "navigate"@,
        "reload"@ != "navigation"@,
        "reload"@ != "paint"@,
        "resource"@ != "navigate"@,
        "resource"@ != "navigation"@,
        "resource"@ != "paint"@,
        "resource"@ != "reload"@,
        "end"@ != "start"@,
        "performance"@ != "start"@,
        "performance"@ != "end"@,
        "name"@ != "entryType"@,
        "duration"@ != "entryType"@,
        "name"@ != "duration"@,
        "startTime"@ != "entryType"@,
        "startTime"@ != "duration"@,
        "startTime"@ != "name"@,
        "ts"@ != "type"@,
        "bfs"@ != "type"@,
        "bfs"@ != "ts"@,
        "sfs"@ != "type"@,
        "sfs"@ != "ts"@,
        "sfs"@ != "bfs"@,
        "title"@ != "type"@,
        "title"@ != "ts"@,
        "title"@ != "bfs"@,
        "title"@ != "sfs"@,
        "url"@ != "type"@,
        "url"@ != "ts"@,
        "url"@ != "bfs"@,
        "url"@ != "sfs"@,
        "url"@ != "title"@,
        "perfEntry"@ != "type"@,
        "perfEntry"@ != "ts"@,
        "sid"@ != "bid"@,
        "svc"@ != "bid"@,
        "svc"@ != "sid"@,
        "ts"@ != "bid"@,
        "ts"@ != "sid"@,
        "ts"@ != "svc"@,
        "events"@ != "bid"@,
        "events"@ != "sid"@,
        "events"@ != "svc"@,
        "events"@ != "ts"@,
        "stack"@ != "msg"@,
{
    reveal_strlit("navigate");
    reveal_strlit("navigation");
    reveal_strlit("paint");
    reveal_strlit("reload");
    reveal_strlit("resource");
    reveal_strlit("start");
    reveal_strlit("end");
    reveal_strlit("performance");
    reveal_strlit("entryType");
    reveal_strlit("name");
    reveal_strlit("duration");
    reveal_strlit("startTime");
    reveal_strlit("type");
    reveal_strlit("ts");
    reveal_strlit("bfs");
    reveal_strlit("sfs");
    reveal_strlit("title");
    reveal_strlit("url");
    reveal_strlit("perfEntry");
    reveal_strlit("bid");
    reveal_strlit("sid");
    reveal_strlit("svc");
    reveal_strlit("events");
    reveal_strlit("msg");
    reveal_strlit("stack");
    assert("navigate"@.len() == 8);
    assert("navigation"@.len() == 10);
    assert("paint"@.len() == 5);
    assert("reload"@.len() == 6);
    assert("resource"@.len() == 8);
    assert("start"@.len() == 5);
    assert("end"@.len() == 3);
    assert("performance"@.len() == 11);
    assert("entryType"@.len() == 9);
    assert("name"@.len() == 4);
    assert("duration"@.len() == 8);
    assert("startTime"@.len() == 9);
    assert("type"@.len() == 4);
    assert("ts"@.len() == 2);
    assert("bfs"@.len() == 3);
    assert("sfs"@.len() == 3);
    assert("title"@.len() == 5);
    assert("url"@.len() == 3);
    assert("perfEntry"@.len() == 9);
    assert("bid"@.len() == 3);
    assert("sid"@.len() == 3);
    assert("svc"@.len() == 3);
    assert("events"@.len() == 6);
    assert("msg"@.len() == 3);
    assert("stack"@.len() == 5);
    assert("resource"@[0] != "navigate"@[0]);
    assert("entryType"@[0] != "startTime"@[0]);
    assert("bid"@[0] != "sid"@[0]);
    assert("bid"@[1] != "svc"@[1]);
    assert("sid"@[1] != "svc"@[1]);
    assert("bfs"@[0] != "sfs"@[0]);
    assert("bfs"@[0] != "url"@[0]);
    assert("sfs"@[0] != "url"@[0]);
}

/// Round trip for one performance entry: decoding a well-formed entry's wire
/// shape gives the entry back exactly.
pub proof fn lemma_entry_round_trip(e: PerformanceEntryV)
    requires
        e.wf(),
    ensures
        spec_decode_entry(entry_json(e)) == Result::<PerformanceEntryV, DecodeErrorV>::Ok(e),
{
    lemma_wire_words();
    reveal_with_fuel(lookup, 8);
    match e {
        PerformanceEntryV::Navigate => {
            let fields = seq![("entryType"@, JsonV::Str("navigate"@))];
            assert(lookup(fields, "entryType"@) == Option::Some(JsonV::Str("navigate"@)));
        },
        PerformanceEntryV::Navigation { name } => {
            let fields = seq![
                ("entryType"@, JsonV::Str("navigation"@)),
                ("name"@, JsonV::Str(name)),
            ];
            assert(fields.drop_first() =~= seq![("name"@, JsonV::Str(name))]);
            assert(lookup(fields, "entryType"@) == Option::Some(JsonV::Str("navigation"@)));
            assert(lookup(fields, "name"@) == Option::Some(JsonV::Str(name)));
        },
        PerformanceEntryV::Paint { duration, name, start_time } => {
            let fields = seq![
                ("entryType"@, JsonV::Str("paint"@)),
                ("duration"@, num_json(duration)),
                ("name"@, JsonV::Str(name)),
                ("startTime"@, num_json(start_time)),
            ];
            let d1 = fields.drop_first();
            assert(d1 =~= seq![
                ("duration"@, num_json(duration)),
                ("name"@, JsonV::Str(name)),
                ("startTime"@, num_json(start_time)),
            ]);
            let d2 = d1.drop_first();
            assert(d2 =~= seq![("name"@, JsonV::Str(name)), ("startTime"@, num_json(start_time))]);
            let d3 = d2.drop_first();
            assert(d3 =~= seq![("startTime"@, num_json(start_time))]);
            assert(lookup(fields, "entryType"@) == Option::Some(JsonV::Str("paint"@)));
            assert(lookup(fields, "duration"@) == Option::Some(num_json(duration)));
            assert(lookup(fields, "name"@) == Option::Some(JsonV::Str(name)));
            assert(lookup(fields, "startTime"@) == Option::Some(num_json(start_time)));
        },
        PerformanceEntryV::Reload => {
            let fields = seq![("entryType"@, JsonV::Str("reload"@))];
            assert(lookup(fields, "entryType"@) == Option::Some(JsonV::Str("reload"@)));
        },
        PerformanceEntryV::Resource => {
            let fields = seq![("entryType"@, JsonV::Str("resource"@))];
            assert(lookup(fields, "entryType"@) == Option::Some(JsonV::Str("resource"@)));
        },
    }
}

/// Round trip for one event: decoding a well-formed event's wire shape gives
/// the event back exactly.
pub proof fn lemma_event_round_trip(e: AnalyticsEventV)
    requires
        e.wf(),
    ensures
        spec_decode_event(event_json(e)) == Result::<AnalyticsEventV, DecodeErrorV>::Ok(e),
{
    lemma_wire_words();
    reveal_with_fuel(lookup, 8);
    match e {
        AnalyticsEventV::Start {
            timestamp,
            browser_first_seen,
            session_first_seen,
            title,
            url,
        } => {
            let fields = seq![
                ("type"@, JsonV::Str("start"@)),
                ("ts"@, JsonV::UInt(timestamp)),
                ("bfs"@, JsonV::UInt(browser_first_seen)),
                ("sfs"@, JsonV::UInt(session_first_seen)),
                ("title"@, JsonV::Str(title)),
                ("url"@, JsonV::Str(url)),
            ];
            let d1 = fields.drop_first();
            assert(d1 =~= seq![
                ("ts"@, JsonV::UInt(timestamp)),
                ("bfs"@, JsonV::UInt(browser_first_seen)),
                ("sfs"@, JsonV::UInt(session_first_seen)),
                ("title"@, JsonV::Str(title)),
                ("url"@, JsonV::Str(url)),
            ]);
            let d2 = d1.drop_first();
            assert(d2 =~= seq![
                ("bfs"@, JsonV::UInt(browser_first_seen)),
                ("sfs"@, JsonV::UInt(session_first_seen)),
                ("title"@, JsonV::Str(title)),
                ("url"@, JsonV::Str(url)),
            ]);
            let d3 = d2.drop_first();
            assert(d3 =~= seq![
                ("sfs"@, JsonV::UInt(session_first_seen)),
                ("title"@, JsonV::Str(title)),
                ("url"@, JsonV::Str(url)),
            ]);
            let d4 = d3.drop_first();
            assert(d4 =~= seq![("title"@, JsonV::Str(title)), ("url"@, JsonV::Str(url))]);
            let d5 = d4.drop_first();
            assert(d5 =~= seq![("url"@, JsonV::Str(url))]);
            assert(lookup(fields, "type"@) == Option::Some(JsonV::Str("start"@)));
            assert(lookup(fields, "ts"@) == Option::Some(JsonV::UInt(timestamp)));
            assert(lookup(fields, "bfs"@) == Option::Some(JsonV::UInt(browser_first_seen)));
            assert(lookup(fields, "sfs"@) == Option::Some(JsonV::UInt(session_first_seen)));
            assert(lookup(fields, "title"@) == Option::Some(JsonV::Str(title)));
            assert(lookup(fields, "url"@) == Option::Some(JsonV::Str(url)));
        },
        AnalyticsEventV::End { timestamp } => {
            let fields = seq![("type"@, JsonV::Str("end"@)), ("ts"@, JsonV::UInt(timestamp))];
            assert(fields.drop_first() =~= seq![("ts"@, JsonV::UInt(timestamp))]);
            assert(lookup(fields, "type"@) == Option::Some(JsonV::Str("end"@)));
            assert(lookup(fields, "ts"@) == Option::Some(JsonV::UInt(timestamp)));
        },
        AnalyticsEventV::Performance { timestamp, entry } => {
            lemma_entry_round_trip(entry);
            let fields = seq![
                ("type"@, JsonV::Str("performance"@)),
                ("ts"@, JsonV::UInt(timestamp)),
                ("perfEntry"@, entry_json(entry)),
            ];
            let d1 = fields.drop_first();
            assert(d1 =~= seq![
                ("ts"@, JsonV::UInt(timestamp)),
                ("perfEntry"@, entry_json(entry)),
            ]);
            let d2 = d1.drop_first();
            assert(d2 =~= seq![("perfEntry"@, entry_json(entry))]);
            assert(lookup(fields, "type"@) == Option::Some(JsonV::Str("performance"@)));
            assert(lookup(fields, "ts"@) == Option::Some(JsonV::UInt(timestamp)));
            assert(lookup(fields, "perfEntry"@) == Option::Some(entry_json(entry)));
        },
    }
}

/// Round trip for an event sequence: decoding the wire shapes of well-formed
/// events, in order, gives the sequence back exactly.
pub proof fn lemma_events_round_trip(events: Seq<AnalyticsEventV>)
    requires
        forall|i: int| 0 <= i < events.len() ==> (#[trigger] events[i]).wf(),
    ensures
        spec_decode_events(events_json(events)) == Result::<
            Seq<AnalyticsEventV>,
            DecodeErrorV,
        >::Ok(events),
    decreases events.len(),
{
    let js = events_json(events);
    if events.len() == 0 {
        assert(js =~= Seq::<JsonV>::empty());
        assert(events =~= Seq::<AnalyticsEventV>::empty());
    } else {
        lemma_event_round_trip(events[0]);
        assert forall|i: int| 0 <= i < events.drop_first().len() implies (#[trigger] events
            .drop_first()[i]).wf() by {
            assert(events.drop_first()[i] == events[i + 1]);
        }
        lemma_events_round_trip(events.drop_first());
        assert(js[0] == event_json(events[0]));
        assert(js.drop_first() =~= events_json(events.drop_first()));
        assert(seq![events[0]] + events.drop_first() =~= events);
    }
}

/// Round trip for a whole batch: decoding a well-formed batch's wire shape
/// gives every field back exactly, integers losing no precision.
pub proof fn lemma_batch_round_trip(b: AnalyticsBatchV)
    requires
        b.wf(),
    ensures
        spec_decode_batch(Option::Some(batch_json(b))) == Result::<
            AnalyticsBatchV,
            DecodeErrorV,
        >::Ok(b),
{
    lemma_wire_words();
    reveal_with_fuel(lookup, 8);
    lemma_events_round_trip(b.events);
    let fields = seq![
        ("bid"@, JsonV::UInt(b.browser_id)),
        ("sid"@, JsonV::UInt(b.session_id)),
        ("svc"@, JsonV::UInt(b.session_view_count)),
        ("ts"@, JsonV::UInt(b.timestamp)),
        ("events"@, JsonV::Arr(events_json(b.events))),
    ];
    let d1 = fields.drop_first();
    assert(d1 =~= seq![
        ("sid"@, JsonV::UInt(b.session_id)),
        ("svc"@, JsonV::UInt(b.session_view_count)),
        ("ts"@, JsonV::UInt(b.timestamp)),
        ("events"@, JsonV::Arr(events_json(b.events))),
    ]);
    let d2 = d1.drop_first();
    assert(d2 =~= seq![
        ("svc"@, JsonV::UInt(b.session_view_count)),
        ("ts"@, JsonV::UInt(b.timestamp)),
        ("events"@, JsonV::Arr(events_json(b.events))),
    ]);
    let d3 = d2.drop_first();
    assert(d3 =~= seq![
        ("ts"@, JsonV::UInt(b.timestamp)),
        ("events"@, JsonV::Arr(events_json(b.events))),
    ]);
    let d4 = d3.drop_first();
    assert(d4 =~= seq![("events"@, JsonV::Arr(events_json(b.events)))]);
    assert(lookup(fields, "bid"@) == Option::Some(JsonV::UInt(b.browser_id)));
    assert(lookup(fields, "sid"@) == Option::Some(JsonV::UInt(b.session_id)));
    assert(lookup(fields, "svc"@) == Option::Some(JsonV::UInt(b.session_view_count)));
    assert(lookup(fields, "ts"@) == Option::Some(JsonV::UInt(b.timestamp)));
    assert(lookup(fields, "events"@) == Option::Some(JsonV::Arr(events_json(b.events))));
}

/// Round trip for an error report: decoding its wire shape gives both fields
/// back exactly.
pub proof fn lemma_report_round_trip(r: ErrorReportV)
    ensures
        spec_decode_report(Option::Some(report_json(r))) == Result::<
            ErrorReportV,
            DecodeErrorV,
        >::Ok(r),
{
    lemma_wire_words();
    reveal_with_fuel(lookup, 8);
    let fields = seq![("msg"@, JsonV::Str(r.msg)), ("stack"@, JsonV::Str(r.stack))];
    assert(fields.drop_first() =~= seq![("stack"@, JsonV::Str(r.stack))]);
    assert(lookup(fields, "msg"@) == Option::Some(JsonV::Str(r.msg)));
    assert(lookup(fields, "stack"@) == Option::Some(JsonV::Str(r.stack)));
}

/// A batch whose `events` sequence is empty decodes successfully.
pub proof fn lemma_empty_events_batch(b: AnalyticsBatchV)
    requires
        b.events.len() == 0,
    ensures
        spec_decode_batch(Option::Some(batch_json(b))) == Result::<
            AnalyticsBatchV,
            DecodeErrorV,
        >::Ok(b),
{
    lemma_batch_round_trip(b);
}

/// Any event discriminator outside the closed set `start`, `end`,
/// `performance` fails with `UnknownVariant`, never a silent default.
pub proof fn lemma_unknown_event_variant(fields: Seq<(Seq<char>, JsonV)>, tag: Seq<char>)
    requires
        lookup(fields, "type"@) == Option::Some(JsonV::Str(tag)),
        tag != "start"@,
        tag != "end"@,
        tag != "performance"@,
    ensures
        spec_decode_event(JsonV::Obj(fields)) == Result::<AnalyticsEventV, DecodeErrorV>::Err(
            DecodeErrorV::UnknownVariant { field: "type"@, value: tag },
        ),
{
}

/// Any performance-entry discriminator outside the closed set `navigate`,
/// `navigation`, `paint`, `reload`, `resource` fails with `UnknownVariant`.
pub proof fn lemma_unknown_entry_variant(fields: Seq<(Seq<char>, JsonV)>, tag: Seq<char>)
    requires
        lookup(fields, "entryType"@) == Option::Some(JsonV::Str(tag)),
        tag != "navigate"@,
        tag != "navigation"@,
        tag != "paint"@,
        tag != "reload"@,
        tag != "resource"@,
    ensures
        spec_decode_entry(JsonV::Obj(fields)) == Result::<PerformanceEntryV, DecodeErrorV>::Err(
            DecodeErrorV::UnknownVariant { field: "entryType"@, value: tag },
        ),
{
}

/// Decoding is deterministic: the decode outcome is a pure function of the
/// input bytes, so any two results for the same bytes are equal.
pub proof fn lemma_decode_deterministic(
    bytes: Seq<u8>,
    r1: Result<AnalyticsBatchV, DecodeErrorV>,
    r2: Result<AnalyticsBatchV, DecodeErrorV>,
)
    requires
        r1 == spec_decode_batch(json_tree(bytes)),
        r2 == spec_decode_batch(json_tree(bytes)),
    ensures
        r1 == r2,
{
}

} // verus!
