//! A client-side analytics beacon collector: JSON telemetry batches posted by
//! a browser script are decoded into a validated internal representation, and
//! every decode outcome is turned into the fixed beacon response together with
//! one record for the logging collaborator.

pub mod decode;
pub mod json;
pub mod laws;
pub mod policy;
pub mod schema;
