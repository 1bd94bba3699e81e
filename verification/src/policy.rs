//! The response policy and the record handed to the Logger Sink. The caller
//! of both endpoints is a fire-and-forget beacon, so a decode outcome is
//! never surfaced to it: the reply is the fixed `200 {}` whatever the body
//! held, and all failure visibility goes through the returned outcome, which
//! the caller hands to its logging collaborator.

use vstd::prelude::*;

use crate::decode::DecodeError;
use crate::decode::DecodeErrorV;
use crate::decode::decode_error_report;
use crate::decode::decode_stats;
use crate::decode::spec_decode_batch;
use crate::decode::spec_decode_report;
use crate::json::json_tree;
use crate::schema::AnalyticsBatch;
use crate::schema::AnalyticsBatchV;
use crate::schema::ErrorReport;
use crate::schema::ErrorReportV;

verus! {

/// The HTTP-visible outcome of a request: a status code and a body.
#[derive(Debug, PartialEq, Eq)]
pub struct HttpReply {
    pub status: u16,
    pub body: String,
}

/// What one request hands to the Logger Sink: the decoded value, or the raw
/// body together with the error kind. Exactly one outcome is produced per
/// invocation, success or failure.
#[derive(Debug, PartialEq, Eq)]
pub enum Outcome<T> {
    Accepted(T),
    Rejected { raw: Vec<u8>, error: DecodeError },
}

/// The fixed beacon reply: the minimal JSON object, under status 200.
fn beacon_reply() -> (r: HttpReply)
    ensures
        r.status == 200,
        r.body@ == "{}"@,
{
    HttpReply { status: 200, body: "{}".to_owned() }
}

/// The fixed reply for the site root.
pub fn home_page() -> (r: HttpReply)
    ensures
        r.status == 200,
        r.body@ == "Nothing to see here...\n"@,
{
    HttpReply { status: 200, body: "Nothing to see here...\n".to_owned() }
}

/// Handle one analytics batch posted to the stats endpoint: decode the body,
/// reply `200 {}` regardless, and return the one record for the Logger Sink.
pub fn record(body: Vec<u8>) -> (r: (HttpReply, Outcome<AnalyticsBatch>))
    ensures
        r.0.status == 200,
        r.0.body@ == "{}"@,
        match r.1 {
            Outcome::Accepted(b) => spec_decode_batch(json_tree(body@)) == Result::<AnalyticsBatchV, DecodeErrorV>::Ok(b.deep()),
            Outcome::Rejected { raw, error } => raw@ == body@ && spec_decode_batch(json_tree(body@))
                == Result::<AnalyticsBatchV, DecodeErrorV>::Err(error.deep()),
        },
{
    match decode_stats(body.as_slice()) {
        Result::Ok(b) => (beacon_reply(), Outcome::Accepted(b)),
        Result::Err(e) => (beacon_reply(), Outcome::Rejected { raw: body, error: e }),
    }
}

/// Handle one client error report posted to the error-report endpoint: decode
/// the body, reply `200 {}` regardless, and return the one record for the
/// Logger Sink.
pub fn error(body: Vec<u8>) -> (r: (HttpReply, Outcome<ErrorReport>))
    ensures
        r.0.status == 200,
        r.0.body@ == "{}"@,
        match r.1 {
            Outcome::Accepted(rep) => spec_decode_report(json_tree(body@)) == Result::<
                ErrorReportV,
                DecodeErrorV,
            >::Ok(rep.deep()),
            Outcome::Rejected { raw, error } => raw@ == body@ && spec_decode_report(
                json_tree(body@),
            ) == Result::<ErrorReportV, DecodeErrorV>::Err(error.deep()),
        },
{
    match decode_error_report(body.as_slice()) {
        Result::Ok(rep) => (beacon_reply(), Outcome::Accepted(rep)),
        Result::Err(e) => (beacon_reply(), Outcome::Rejected { raw: body, error: e }),
    }
}

} // verus!
