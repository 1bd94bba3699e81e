//! The discriminated-union decoder: it turns the parsed JSON tree into a
//! validated schema value, or a classified decode error. The discriminator of
//! each union level is inspected first; fields not declared for the chosen
//! variant are ignored; a required field that is absent, a field of the wrong
//! type, or an unrecognized discriminator each fail with their own error kind,
//! and a malformed event fails the whole batch.

use vstd::prelude::*;

use crate::json::Json;
use crate::json::JsonV;
use crate::json::json_tree;
use crate::json::deep_arr;
use crate::json::deep_obj;
use crate::json::lemma_deep_arr;
use crate::json::lemma_deep_obj;
use crate::schema::AnalyticsBatch;
use crate::schema::AnalyticsBatchV;
use crate::schema::AnalyticsEvent;
use crate::schema::AnalyticsEventV;
use crate::schema::ErrorReport;
use crate::schema::ErrorReportV;
use crate::schema::NonNegNumber;
use crate::schema::deep_events;
use crate::schema::NonNegNumberV;
use crate::schema::PerformanceEntry;
use crate::schema::PerformanceEntryV;
use crate::schema::decimal_non_neg;

verus! {

/// Why a decode failed. Every kind is contained at the decoder boundary:
/// none of them ever reaches the requester.
#[derive(Debug, PartialEq, Eq)]
pub enum DecodeError {
    /// The bytes are not well-formed JSON, or the top level is not an object.
    MalformedInput,
    /// A discriminator field holds a value outside its closed set.
    UnknownVariant { field: String, value: String },
    /// A field required by the selected variant is absent.
    MissingField { field: String },
    /// A field is present but not convertible to its declared type.
    TypeMismatch { field: String, expected: String },
}

/// The mathematical shape of a decode error.
pub enum DecodeErrorV {
    MalformedInput,
    UnknownVariant { field: Seq<char>, value: Seq<char> },
    MissingField { field: Seq<char> },
    TypeMismatch { field: Seq<char>, expected: Seq<char> },
}

impl DecodeError {
    /// The mathematical value of this error.
    pub open spec fn deep(self) -> DecodeErrorV {
        match self {
            DecodeError::MalformedInput => DecodeErrorV::MalformedInput,
            DecodeError::UnknownVariant { field, value } => DecodeErrorV::UnknownVariant {
                field: field@,
                value: value@,
            },
            DecodeError::MissingField { field } => DecodeErrorV::MissingField { field: field@ },
            DecodeError::TypeMismatch { field, expected } => DecodeErrorV::TypeMismatch {
                field: field@,
                expected: expected@,
            },
        }
    }
}

/// The value of the first field named `key`, if any.
pub open spec fn lookup(fields: Seq<(Seq<char>, JsonV)>, key: Seq<char>) -> Option<JsonV>
    decreases fields.len(),
{
    if fields.len() == 0 {
        Option::None
    } else if fields[0].0 == key {
        Option::Some(fields[0].1)
    } else {
        lookup(fields.drop_first(), key)
    }
}

/// The field `key` read as a non-negative integer.
pub open spec fn spec_get_u64(fields: Seq<(Seq<char>, JsonV)>, key: Seq<char>) -> Result<
    u64,
    DecodeErrorV,
> {
    match lookup(fields, key) {
        Option::None => Result::Err(DecodeErrorV::MissingField { field: key }),
        Option::Some(JsonV::UInt(u)) => Result::Ok(u),
        Option::Some(_) => Result::Err(
            DecodeErrorV::TypeMismatch { field: key, expected: "non-negative integer"@ },
        ),
    }
}

/// The field `key` read as a string.
pub open spec fn spec_get_str(fields: Seq<(Seq<char>, JsonV)>, key: Seq<char>) -> Result<
    Seq<char>,
    DecodeErrorV,
> {
    match lookup(fields, key) {
        Option::None => Result::Err(DecodeErrorV::MissingField { field: key }),
        Option::Some(JsonV::Str(s)) => Result::Ok(s),
        Option::Some(_) => Result::Err(
            DecodeErrorV::TypeMismatch { field: key, expected: "string"@ },
        ),
    }
}

/// The field `key` read as a non-negative number: an exact non-negative
/// integer, or a non-integer number whose canonical text is not negative.
pub open spec fn spec_get_num(fields: Seq<(Seq<char>, JsonV)>, key: Seq<char>) -> Result<
    NonNegNumberV,
    DecodeErrorV,
> {
    match lookup(fields, key) {
        Option::None => Result::Err(DecodeErrorV::MissingField { field: key }),
        Option::Some(JsonV::UInt(u)) => Result::Ok(NonNegNumberV::Int(u)),
        Option::Some(JsonV::Decimal(t)) => if decimal_non_neg(t) {
            Result::Ok(NonNegNumberV::Decimal(t))
        } else {
            Result::Err(
                DecodeErrorV::TypeMismatch { field: key, expected: "non-negative number"@ },
            )
        },
        Option::Some(_) => Result::Err(
            DecodeErrorV::TypeMismatch { field: key, expected: "non-negative number"@ },
        ),
    }
}

/// Whether the string `k` reads the same as the literal `lit`.
fn key_is(k: &String, lit: &str) -> (r: bool)
    ensures
        r == (k@ == lit@),
{
    *k == lit.to_owned()
}

/// Find the first field named `key`, as `lookup` does.
fn lookup_field<'a>(fields: &'a Vec<(String, Json)>, key: &str) -> (r: Option<&'a Json>)
    ensures
        match r {
            Option::Some(j) => lookup(deep_obj(fields@), key@) == Option::Some(j.deep()),
            Option::None => lookup(deep_obj(fields@), key@) is None,
        },
{
    let ghost full = deep_obj(fields@);
    proof {
        lemma_deep_obj(fields@);
        assert(full.skip(0) =~= full);
    }
    let mut i: usize = 0;
    while i < fields.len()
        invariant
            i <= fields.len(),
            full == deep_obj(fields@),
            full.len() == fields@.len(),
            forall|k: int| 0 <= k < fields@.len() ==> full[k]
                == (#[trigger] fields@[k].0@, fields@[k].1.deep()),
            lookup(full, key@) == lookup(full.skip(i as int), key@),
        decreases fields.len() - i,
    {
        proof {
            assert(full.skip(i as int)[0] == full[i as int]);
        }
        if key_is(&fields[i].0, key) {
            return Option::Some(&fields[i].1);
        }
        proof {
            assert(full.skip(i as int).drop_first() =~= full.skip(i as int + 1));
        }
        i = i + 1;
    }
    proof {
        assert(full.skip(fields@.len() as int) =~= Seq::empty());
    }
    Option::None
}

/// Read the field `key` as a non-negative integer, as `spec_get_u64` does.
fn get_u64_field(fields: &Vec<(String, Json)>, key: &str) -> (r: Result<u64, DecodeError>)
    ensures
        match r {
            Result::Ok(u) => spec_get_u64(deep_obj(fields@), key@) == Result::<
                u64,
                DecodeErrorV,
            >::Ok(u),
            Result::Err(e) => spec_get_u64(deep_obj(fields@), key@) == Result::<
                u64,
                DecodeErrorV,
            >::Err(e.deep()),
        },
{
    match lookup_field(fields, key) {
        Option::None => Result::Err(DecodeError::MissingField { field: key.to_owned() }),
        Option::Some(Json::UInt(u)) => Result::Ok(*u),
        Option::Some(_) => Result::Err(
            DecodeError::TypeMismatch {
                field: key.to_owned(),
                expected: "non-negative integer".to_owned(),
            },
        ),
    }
}

/// Read the field `key` as a string, as `spec_get_str` does.
fn get_str_field(fields: &Vec<(String, Json)>, key: &str) -> (r: Result<String, DecodeError>)
    ensures
        match r {
            Result::Ok(s) => spec_get_str(deep_obj(fields@), key@) == Result::<
                Seq<char>,
                DecodeErrorV,
            >::Ok(s@),
            Result::Err(e) => spec_get_str(deep_obj(fields@), key@) == Result::<
                Seq<char>,
                DecodeErrorV,
            >::Err(e.deep()),
        },
{
    match lookup_field(fields, key) {
        Option::None => Result::Err(DecodeError::MissingField { field: key.to_owned() }),
        Option::Some(Json::Str(s)) => Result::Ok(s.clone()),
        Option::Some(_) => Result::Err(
            DecodeError::TypeMismatch { field: key.to_owned(), expected: "string".to_owned() },
        ),
    }
}

/// Read the field `key` as a non-negative number, as `spec_get_num` does.
fn get_num_field(fields: &Vec<(String, Json)>, key: &str) -> (r: Result<NonNegNumber, DecodeError>)
    ensures
        match r {
            Result::Ok(n) => spec_get_num(deep_obj(fields@), key@) == Result::<
                NonNegNumberV,
                DecodeErrorV,
            >::Ok(n.deep()),
            Result::Err(e) => spec_get_num(deep_obj(fields@), key@) == Result::<
                NonNegNumberV,
                DecodeErrorV,
            >::Err(e.deep()),
        },
{
    match lookup_field(fields, key) {
        Option::None => Result::Err(DecodeError::MissingField { field: key.to_owned() }),
        Option::Some(Json::UInt(u)) => Result::Ok(NonNegNumber::Int(*u)),
        Option::Some(Json::Decimal(t)) => {
            let s = t.as_str();
            if !s.is_empty() && s.get_char(0) == '-' {
                Result::Err(
                    DecodeError::TypeMismatch {
                        field: key.to_owned(),
                        expected: "non-negative number".to_owned(),
                    },
                )
            } else {
                Result::Ok(NonNegNumber::Decimal(t.clone()))
            }
        },
        Option::Some(_) => Result::Err(
            DecodeError::TypeMismatch {
                field: key.to_owned(),
                expected: "non-negative number".to_owned(),
            },
        ),
    }
}

/// Decode one performance entry from its JSON value.
pub open spec fn spec_decode_entry(j: JsonV) -> Result<PerformanceEntryV, DecodeErrorV> {
    match j {
        JsonV::Obj(fields) => match lookup(fields, "entryType"@) {
            Option::None => Result::Err(DecodeErrorV::MissingField { field: "entryType"@ }),
            Option::Some(JsonV::Str(tag)) => if tag == "navigate"@ {
                Result::Ok(PerformanceEntryV::Navigate)
            } else if tag == "navigation"@ {
                match spec_get_str(fields, "name"@) {
                    Result::Ok(name) => Result::Ok(PerformanceEntryV::Navigation { name }),
                    Result::Err(e) => Result::Err(e),
                }
            } else if tag == "paint"@ {
                match spec_get_num(fields, "duration"@) {
                    Result::Err(e) => Result::Err(e),
                    Result::Ok(duration) => match spec_get_str(fields, "name"@) {
                        Result::Err(e) => Result::Err(e),
                        Result::Ok(name) => match spec_get_num(fields, "startTime"@) {
                            Result::Err(e) => Result::Err(e),
                            Result::Ok(start_time) => Result::Ok(
                                PerformanceEntryV::Paint { duration, name, start_time },
                            ),
                        },
                    },
                }
            } else if tag == "reload"@ {
                Result::Ok(PerformanceEntryV::Reload)
            } else if tag == "resource"@ {
                Result::Ok(PerformanceEntryV::Resource)
            } else {
                Result::Err(DecodeErrorV::UnknownVariant { field: "entryType"@, value: tag })
            },
            Option::Some(_) => Result::Err(
                DecodeErrorV::TypeMismatch { field: "entryType"@, expected: "string"@ },
            ),
        },
        _ => Result::Err(DecodeErrorV::TypeMismatch { field: "perfEntry"@, expected: "object"@ }),
    }
}

/// Decode one event from its JSON value.
pub open spec fn spec_decode_event(j: JsonV) -> Result<AnalyticsEventV, DecodeErrorV> {
    match j {
        JsonV::Obj(fields) => match lookup(fields, "type"@) {
            Option::None => Result::Err(DecodeErrorV::MissingField { field: "type"@ }),
            Option::Some(JsonV::Str(tag)) => if tag == "start"@ {
                match spec_get_u64(fields, "ts"@) {
                    Result::Err(e) => Result::Err(e),
                    Result::Ok(timestamp) => match spec_get_u64(fields, "bfs"@) {
                        Result::Err(e) => Result::Err(e),
                        Result::Ok(browser_first_seen) => match spec_get_u64(fields, "sfs"@) {
                            Result::Err(e) => Result::Err(e),
                            Result::Ok(session_first_seen) => match spec_get_str(
                                fields,
                                "title"@,
                            ) {
                                Result::Err(e) => Result::Err(e),
                                Result::Ok(title) => match spec_get_str(fields, "url"@) {
                                    Result::Err(e) => Result::Err(e),
                                    Result::Ok(url) => Result::Ok(
                                        AnalyticsEventV::Start {
                                            timestamp,
                                            browser_first_seen,
                                            session_first_seen,
                                            title,
                                            url,
                                        },
                                    ),
                                },
                            },
                        },
                    },
                }
            } else if tag == "end"@ {
                match spec_get_u64(fields, "ts"@) {
                    Result::Err(e) => Result::Err(e),
                    Result::Ok(timestamp) => Result::Ok(AnalyticsEventV::End { timestamp }),
                }
            } else if tag == "performance"@ {
                match spec_get_u64(fields, "ts"@) {
                    Result::Err(e) => Result::Err(e),
                    Result::Ok(timestamp) => match lookup(fields, "perfEntry"@) {
                        Option::None => Result::Err(
                            DecodeErrorV::MissingField { field: "perfEntry"@ },
                        ),
                        Option::Some(ej) => match spec_decode_entry(ej) {
                            Result::Err(e) => Result::Err(e),
                            Result::Ok(entry) => Result::Ok(
                                AnalyticsEventV::Performance { timestamp, entry },
                            ),
                        },
                    },
                }
            } else {
                Result::Err(DecodeErrorV::UnknownVariant { field: "type"@, value: tag })
            },
            Option::Some(_) => Result::Err(
                DecodeErrorV::TypeMismatch { field: "type"@, expected: "string"@ },
            ),
        },
        _ => Result::Err(DecodeErrorV::TypeMismatch { field: "events"@, expected: "object"@ }),
    }
}

/// Decode an event sequence element by element; the whole sequence fails on
/// its first invalid element.
pub open spec fn spec_decode_events(items: Seq<JsonV>) -> Result<Seq<AnalyticsEventV>, DecodeErrorV>
    decreases items.len(),
{
    if items.len() == 0 {
        Result::Ok(Seq::empty())
    } else {
        match spec_decode_event(items[0]) {
            Result::Err(e) => Result::Err(e),
            Result::Ok(ev) => match spec_decode_events(items.drop_first()) {
                Result::Err(e) => Result::Err(e),
                Result::Ok(rest) => Result::Ok(seq![ev] + rest),
            },
        }
    }
}

/// Decode a whole batch from the parse outcome. `None` (bytes that are not
/// well-formed JSON) and a top level that is not an object are malformed
/// input; the batch fields are validated before the event sequence.
pub open spec fn spec_decode_batch(tree: Option<JsonV>) -> Result<AnalyticsBatchV, DecodeErrorV> {
    match tree {
        Option::None => Result::Err(DecodeErrorV::MalformedInput),
        Option::Some(JsonV::Obj(fields)) => match spec_get_u64(fields, "bid"@) {
            Result::Err(e) => Result::Err(e),
            Result::Ok(browser_id) => match spec_get_u64(fields, "sid"@) {
                Result::Err(e) => Result::Err(e),
                Result::Ok(session_id) => match spec_get_u64(fields, "svc"@) {
                    Result::Err(e) => Result::Err(e),
                    Result::Ok(session_view_count) => match spec_get_u64(fields, "ts"@) {
                        Result::Err(e) => Result::Err(e),
                        Result::Ok(timestamp) => match lookup(fields, "events"@) {
                            Option::None => Result::Err(
                                DecodeErrorV::MissingField { field: "events"@ },
                            ),
                            Option::Some(JsonV::Arr(items)) => match spec_decode_events(items) {
                                Result::Err(e) => Result::Err(e),
                                Result::Ok(events) => Result::Ok(
                                    AnalyticsBatchV {
                                        browser_id,
                                        session_id,
                                        session_view_count,
                                        timestamp,
                                        events,
                                    },
                                ),
                            },
                            Option::Some(_) => Result::Err(
                                DecodeErrorV::TypeMismatch {
                                    field: "events"@,
                                    expected: "array"@,
                                },
                            ),
                        },
                    },
                },
            },
        },
        Option::Some(_) => Result::Err(DecodeErrorV::MalformedInput),
    }
}

/// Decode an error report from the parse outcome.
pub open spec fn spec_decode_report(tree: Option<JsonV>) -> Result<ErrorReportV, DecodeErrorV> {
    match tree {
        Option::None => Result::Err(DecodeErrorV::MalformedInput),
        Option::Some(JsonV::Obj(fields)) => match spec_get_str(fields, "msg"@) {
            Result::Err(e) => Result::Err(e),
            Result::Ok(msg) => match spec_get_str(fields, "stack"@) {
                Result::Err(e) => Result::Err(e),
                Result::Ok(stack) => Result::Ok(ErrorReportV { msg, stack }),
            },
        },
        Option::Some(_) => Result::Err(DecodeErrorV::MalformedInput),
    }
}

/// Decode one performance entry, as `spec_decode_entry` does.
pub fn decode_entry(j: &Json) -> (r: Result<PerformanceEntry, DecodeError>)
    ensures
        match r {
            Result::Ok(entry) => spec_decode_entry(j.deep()) == Result::<
                PerformanceEntryV,
                DecodeErrorV,
            >::Ok(entry.deep()),
            Result::Err(e) => spec_decode_entry(j.deep()) == Result::<
                PerformanceEntryV,
                DecodeErrorV,
            >::Err(e.deep()),
        },
{
    match j {
        Json::Obj(fields) => match lookup_field(fields, "entryType") {
            Option::None => Result::Err(
                DecodeError::MissingField { field: "entryType".to_owned() },
            ),
            Option::Some(Json::Str(tag)) => {
                if key_is(tag, "navigate") {
                    Result::Ok(PerformanceEntry::Navigate)
                } else if key_is(tag, "navigation") {
                    match get_str_field(fields, "name") {
                        Result::Err(e) => Result::Err(e),
                        Result::Ok(name) => Result::Ok(PerformanceEntry::Navigation { name }),
                    }
                } else if key_is(tag, "paint") {
                    match get_num_field(fields, "duration") {
                        Result::Err(e) => Result::Err(e),
                        Result::Ok(duration) => match get_str_field(fields, "name") {
                            Result::Err(e) => Result::Err(e),
                            Result::Ok(name) => match get_num_field(fields, "startTime") {
                                Result::Err(e) => Result::Err(e),
                                Result::Ok(start_time) => Result::Ok(
                                    PerformanceEntry::Paint { duration, name, start_time },
                                ),
                            },
                        },
                    }
                } else if key_is(tag, "reload") {
                    Result::Ok(PerformanceEntry::Reload)
                } else if key_is(tag, "resource") {
                    Result::Ok(PerformanceEntry::Resource)
                } else {
                    Result::Err(
                        DecodeError::UnknownVariant {
                            field: "entryType".to_owned(),
                            value: tag.clone(),
                        },
                    )
                }
            },
            Option::Some(_) => Result::Err(
                DecodeError::TypeMismatch {
                    field: "entryType".to_owned(),
                    expected: "string".to_owned(),
                },
            ),
        },
        _ => Result::Err(
            DecodeError::TypeMismatch { field: "perfEntry".to_owned(), expected: "object".to_owned() },
        ),
    }
}

/// Decode one event, as `spec_decode_event` does.
pub fn decode_event(j: &Json) -> (r: Result<AnalyticsEvent, DecodeError>)
    ensures
        match r {
            Result::Ok(ev) => spec_decode_event(j.deep()) == Result::<
                AnalyticsEventV,
                DecodeErrorV,
            >::Ok(ev.deep()),
            Result::Err(e) => spec_decode_event(j.deep()) == Result::<
                AnalyticsEventV,
                DecodeErrorV,
            >::Err(e.deep()),
        },
{
    match j {
        Json::Obj(fields) => match lookup_field(fields, "type") {
            Option::None => Result::Err(DecodeError::MissingField { field: "type".to_owned() }),
            Option::Some(Json::Str(tag)) => {
                if key_is(tag, "start") {
                    match get_u64_field(fields, "ts") {
                        Result::Err(e) => Result::Err(e),
                        Result::Ok(timestamp) => match get_u64_field(fields, "bfs") {
                            Result::Err(e) => Result::Err(e),
                            Result::Ok(browser_first_seen) => match get_u64_field(fields, "sfs") {
                                Result::Err(e) => Result::Err(e),
                                Result::Ok(session_first_seen) => match get_str_field(
                                    fields,
                                    "title",
                                ) {
                                    Result::Err(e) => Result::Err(e),
                                    Result::Ok(title) => match get_str_field(fields, "url") {
                                        Result::Err(e) => Result::Err(e),
                                        Result::Ok(url) => Result::Ok(
                                            AnalyticsEvent::Start {
                                                timestamp,
                                                browser_first_seen,
                                                session_first_seen,
                                                title,
                                                url,
                                            },
                                        ),
                                    },
                                },
                            },
                        },
                    }
                } else if key_is(tag, "end") {
                    match get_u64_field(fields, "ts") {
                        Result::Err(e) => Result::Err(e),
                        Result::Ok(timestamp) => Result::Ok(AnalyticsEvent::End { timestamp }),
                    }
                } else if key_is(tag, "performance") {
                    match get_u64_field(fields, "ts") {
                        Result::Err(e) => Result::Err(e),
                        Result::Ok(timestamp) => match lookup_field(fields, "perfEntry") {
                            Option::None => Result::Err(
                                DecodeError::MissingField { field: "perfEntry".to_owned() },
                            ),
                            Option::Some(ej) => match decode_entry(ej) {
                                Result::Err(e) => Result::Err(e),
                                Result::Ok(entry) => Result::Ok(
                                    AnalyticsEvent::Performance { timestamp, entry },
                                ),
                            },
                        },
                    }
                } else {
                    Result::Err(
                        DecodeError::UnknownVariant {
                            field: "type".to_owned(),
                            value: tag.clone(),
                        },
                    )
                }
            },
            Option::Some(_) => Result::Err(
                DecodeError::TypeMismatch {
                    field: "type".to_owned(),
                    expected: "string".to_owned(),
                },
            ),
        },
        _ => Result::Err(
            DecodeError::TypeMismatch { field: "events".to_owned(), expected: "object".to_owned() },
        ),
    }
}

/// Decode an event array element by element, as `spec_decode_events` does:
/// the whole array fails on its first invalid element.
pub fn decode_events(items: &Vec<Json>) -> (r: Result<Vec<AnalyticsEvent>, DecodeError>)
    ensures
        match r {
            Result::Ok(events) => spec_decode_events(deep_arr(items@)) == Result::<
                Seq<AnalyticsEventV>,
                DecodeErrorV,
            >::Ok(deep_events(events@)),
            Result::Err(e) => spec_decode_events(deep_arr(items@)) == Result::<
                Seq<AnalyticsEventV>,
                DecodeErrorV,
            >::Err(e.deep()),
        },
{
    let ghost full = deep_arr(items@);
    proof {
        lemma_deep_arr(items@);
        assert(full.skip(0) =~= full);
    }
    let mut out: Vec<AnalyticsEvent> = Vec::new();
    let mut i: usize = 0;
    while i < items.len()
        invariant
            i <= items.len(),
            full == deep_arr(items@),
            full.len() == items@.len(),
            forall|k: int| 0 <= k < items@.len() ==> full[k] == (#[trigger] items@[k]).deep(),
            spec_decode_events(full) == match spec_decode_events(full.skip(i as int)) {
                Result::Ok(rest) => Result::<Seq<AnalyticsEventV>, DecodeErrorV>::Ok(
                    deep_events(out@) + rest,
                ),
                Result::Err(e) => Result::<Seq<AnalyticsEventV>, DecodeErrorV>::Err(e),
            },
        decreases items.len() - i,
    {
        proof {
            assert(full.skip(i as int)[0] == full[i as int]);
        }
        match decode_event(&items[i]) {
            Result::Err(e) => {
                return Result::Err(e);
            },
            Result::Ok(ev) => {
                let ghost prior = out@;
                out.push(ev);
                proof {
                    assert(full.skip(i as int).drop_first() =~= full.skip(i as int + 1));
                    assert(deep_events(out@) =~= deep_events(prior) + seq![ev.deep()]);
                    assert forall|rest: Seq<AnalyticsEventV>|
                        deep_events(prior) + (seq![ev.deep()] + rest) =~= deep_events(out@)
                            + rest by {}
                }
            },
        }
        i = i + 1;
    }
    proof {
        assert(full.skip(items@.len() as int) =~= Seq::empty());
        assert(deep_events(out@) + Seq::<AnalyticsEventV>::empty() =~= deep_events(out@));
    }
    Result::Ok(out)
}

/// Decode a whole batch from its JSON tree, as `spec_decode_batch` does on
/// `Some` of the tree. A top level that is not an object is malformed input.
pub fn decode_batch(j: &Json) -> (r: Result<AnalyticsBatch, DecodeError>)
    ensures
        match r {
            Result::Ok(b) => spec_decode_batch(Option::Some(j.deep())) == Result::<
                AnalyticsBatchV,
                DecodeErrorV,
            >::Ok(b.deep()),
            Result::Err(e) => spec_decode_batch(Option::Some(j.deep())) == Result::<
                AnalyticsBatchV,
                DecodeErrorV,
            >::Err(e.deep()),
        },
{
    match j {
        Json::Obj(fields) => match get_u64_field(fields, "bid") {
            Result::Err(e) => Result::Err(e),
            Result::Ok(browser_id) => match get_u64_field(fields, "sid") {
                Result::Err(e) => Result::Err(e),
                Result::Ok(session_id) => match get_u64_field(fields, "svc") {
                    Result::Err(e) => Result::Err(e),
                    Result::Ok(session_view_count) => match get_u64_field(fields, "ts") {
                        Result::Err(e) => Result::Err(e),
                        Result::Ok(timestamp) => match lookup_field(fields, "events") {
                            Option::None => Result::Err(
                                DecodeError::MissingField { field: "events".to_owned() },
                            ),
                            Option::Some(Json::Arr(items)) => match decode_events(items) {
                                Result::Err(e) => Result::Err(e),
                                Result::Ok(events) => Result::Ok(
                                    AnalyticsBatch {
                                        browser_id,
                                        session_id,
                                        session_view_count,
                                        timestamp,
                                        events,
                                    },
                                ),
                            },
                            Option::Some(_) => Result::Err(
                                DecodeError::TypeMismatch {
                                    field: "events".to_owned(),
                                    expected: "array".to_owned(),
                                },
                            ),
                        },
                    },
                },
            },
        },
        _ => Result::Err(DecodeError::MalformedInput),
    }
}

/// Decode an error report from its JSON tree, as `spec_decode_report` does on
/// `Some` of the tree.
pub fn decode_report(j: &Json) -> (r: Result<ErrorReport, DecodeError>)
    ensures
        match r {
            Result::Ok(rep) => spec_decode_report(Option::Some(j.deep())) == Result::<
                ErrorReportV,
                DecodeErrorV,
            >::Ok(rep.deep()),
            Result::Err(e) => spec_decode_report(Option::Some(j.deep())) == Result::<
                ErrorReportV,
                DecodeErrorV,
            >::Err(e.deep()),
        },
{
    match j {
        Json::Obj(fields) => match get_str_field(fields, "msg") {
            Result::Err(e) => Result::Err(e),
            Result::Ok(msg) => match get_str_field(fields, "stack") {
                Result::Err(e) => Result::Err(e),
                Result::Ok(stack) => Result::Ok(ErrorReport { msg, stack }),
            },
        },
        _ => Result::Err(DecodeError::MalformedInput),
    }
}

/// Decode the analytics endpoint's request body: parse the bytes, then decode
/// the batch. The result is exactly `spec_decode_batch` of the parsed tree.
pub fn decode_stats(body: &[u8]) -> (r: Result<AnalyticsBatch, DecodeError>)
    ensures
        match r {
            Result::Ok(b) => spec_decode_batch(json_tree(body@)) == Result::<
                AnalyticsBatchV,
                DecodeErrorV,
            >::Ok(b.deep()),
            Result::Err(e) => spec_decode_batch(json_tree(body@)) == Result::<
                AnalyticsBatchV,
                DecodeErrorV,
            >::Err(e.deep()),
        },
{
    match crate::json::parse_json(body) {
        Option::None => Result::Err(DecodeError::MalformedInput),
        Option::Some(t) => decode_batch(&t),
    }
}

/// Decode the error-report endpoint's request body: parse the bytes, then
/// decode the report. The result is exactly `spec_decode_report` of the
/// parsed tree.
pub fn decode_error_report(body: &[u8]) -> (r: Result<ErrorReport, DecodeError>)
    ensures
        match r {
            Result::Ok(rep) => spec_decode_report(json_tree(body@)) == Result::<
                ErrorReportV,
                DecodeErrorV,
            >::Ok(rep.deep()),
            Result::Err(e) => spec_decode_report(json_tree(body@)) == Result::<
                ErrorReportV,
                DecodeErrorV,
            >::Err(e.deep()),
        },
{
    match crate::json::parse_json(body) {
        Option::None => Result::Err(DecodeError::MalformedInput),
        Option::Some(t) => decode_report(&t),
    }
}

} // verus!
