//! The closed set of payload shapes that the collector accepts: an analytics
//! batch of page-view lifecycle events with their performance entries, and a
//! free-standing client error report.

use vstd::prelude::*;

verus! {

/// A JSON number that the decoder has checked to be non-negative: either an
/// exact non-negative integer, or a non-integer number carried as its
/// canonical decimal text (which then does not begin with a minus sign).
#[derive(Debug, PartialEq, Eq)]
pub enum NonNegNumber {
    Int(u64),
    Decimal(String),
}

/// The mathematical shape of a non-negative number.
pub enum NonNegNumberV {
    Int(u64),
    Decimal(Seq<char>),
}

/// Whether a decimal text is non-negative: it does not begin with a minus
/// sign. (The canonical rendering of a negative number always does.)
pub open spec fn decimal_non_neg(t: Seq<char>) -> bool {
    !(t.len() > 0 && t[0] == '-')
}

impl NonNegNumber {
    /// The mathematical value of this number.
    pub open spec fn deep(self) -> NonNegNumberV {
        match self {
            NonNegNumber::Int(u) => NonNegNumberV::Int(u),
            NonNegNumber::Decimal(t) => NonNegNumberV::Decimal(t@),
        }
    }
}

impl NonNegNumberV {
    /// Well-formed: a decimal's text does not begin with a minus sign.
    pub open spec fn wf(self) -> bool {
        match self {
            NonNegNumberV::Int(_) => true,
            NonNegNumberV::Decimal(t) => decimal_non_neg(t),
        }
    }
}

/// One performance timing entry, discriminated on the wire by `entryType`.
#[derive(Debug, PartialEq, Eq)]
pub enum PerformanceEntry {
    Navigate,
    Navigation { name: String },
    Paint { duration: NonNegNumber, name: String, start_time: NonNegNumber },
    Reload,
    Resource,
}

/// The mathematical shape of a performance entry.
pub enum PerformanceEntryV {
    Navigate,
    Navigation { name: Seq<char> },
    Paint { duration: NonNegNumberV, name: Seq<char>, start_time: NonNegNumberV },
    Reload,
    Resource,
}

impl PerformanceEntry {
    /// The mathematical value of this entry.
    pub open spec fn deep(self) -> PerformanceEntryV {
        match self {
            PerformanceEntry::Navigate => PerformanceEntryV::Navigate,
            PerformanceEntry::Navigation { name } => PerformanceEntryV::Navigation {
                name: name@,
            },
            PerformanceEntry::Paint { duration, name, start_time } => PerformanceEntryV::Paint {
                duration: duration.deep(),
                name: name@,
                start_time: start_time.deep(),
            },
            PerformanceEntry::Reload => PerformanceEntryV::Reload,
            PerformanceEntry::Resource => PerformanceEntryV::Resource,
        }
    }
}

impl PerformanceEntryV {
    /// Well-formed: a paint entry's duration and start time are non-negative.
    pub open spec fn wf(self) -> bool {
        match self {
            PerformanceEntryV::Paint { duration, name: _, start_time } => duration.wf()
                && start_time.wf(),
            _ => true,
        }
    }
}

/// One page-view lifecycle event, discriminated on the wire by `type`.
#[derive(Debug, PartialEq, Eq)]
pub enum AnalyticsEvent {
    Start {
        timestamp: u64,
        browser_first_seen: u64,
        session_first_seen: u64,
        title: String,
        url: String,
    },
    End { timestamp: u64 },
    Performance { timestamp: u64, entry: PerformanceEntry },
}

/// The mathematical shape of an event.
pub enum AnalyticsEventV {
    Start {
        timestamp: u64,
        browser_first_seen: u64,
        session_first_seen: u64,
        title: Seq<char>,
        url: Seq<char>,
    },
    End { timestamp: u64 },
    Performance { timestamp: u64, entry: PerformanceEntryV },
}

impl AnalyticsEvent {
    /// The mathematical value of this event.
    pub open spec fn deep(self) -> AnalyticsEventV {
        match self {
            AnalyticsEvent::Start {
                timestamp,
                browser_first_seen,
                session_first_seen,
                title,
                url,
            } => AnalyticsEventV::Start {
                timestamp,
                browser_first_seen,
                session_first_seen,
                title: title@,
                url: url@,
            },
            AnalyticsEvent::End { timestamp } => AnalyticsEventV::End { timestamp },
            AnalyticsEvent::Performance { timestamp, entry } => AnalyticsEventV::Performance {
                timestamp,
                entry: entry.deep(),
            },
        }
    }
}

impl AnalyticsEventV {
    /// Well-formed: a performance event's entry is well-formed.
    pub open spec fn wf(self) -> bool {
        match self {
            AnalyticsEventV::Performance { timestamp: _, entry } => entry.wf(),
            _ => true,
        }
    }
}

/// One ingestion unit from a single page view: the batch identifiers, the
/// batch timestamp, and the events in their emission order (possibly none).
#[derive(Debug, PartialEq, Eq)]
pub struct AnalyticsBatch {
    pub browser_id: u64,
    pub session_id: u64,
    pub session_view_count: u64,
    pub timestamp: u64,
    pub events: Vec<AnalyticsEvent>,
}

/// The mathematical shape of a batch.
pub struct AnalyticsBatchV {
    pub browser_id: u64,
    pub session_id: u64,
    pub session_view_count: u64,
    pub timestamp: u64,
    pub events: Seq<AnalyticsEventV>,
}

/// The mathematical values of a sequence of events, in order.
pub open spec fn deep_events(events: Seq<AnalyticsEvent>) -> Seq<AnalyticsEventV> {
    Seq::new(events.len(), |i: int| events[i].deep())
}

impl AnalyticsBatch {
    /// The mathematical value of this batch.
    pub open spec fn deep(self) -> AnalyticsBatchV {
        AnalyticsBatchV {
            browser_id: self.browser_id,
            session_id: self.session_id,
            session_view_count: self.session_view_count,
            timestamp: self.timestamp,
            events: deep_events(self.events@),
        }
    }
}

impl AnalyticsBatchV {
    /// Well-formed: every event is well-formed.
    pub open spec fn wf(self) -> bool {
        forall|i: int| 0 <= i < self.events.len() ==> (#[trigger] self.events[i]).wf()
    }
}

/// A client error report: free-form message and stack text.
#[derive(Debug, PartialEq, Eq)]
pub struct ErrorReport {
    pub msg: String,
    pub stack: String,
}

/// The mathematical shape of an error report.
pub struct ErrorReportV {
    pub msg: Seq<char>,
    pub stack: Seq<char>,
}

impl ErrorReport {
    /// The mathematical value of this report.
    pub open spec fn deep(self) -> ErrorReportV {
        ErrorReportV { msg: self.msg@, stack: self.stack@ }
    }
}

} // verus!
