//! Decoding of activity-tracker telemetry messages into a session summary,
//! per-lap summaries and a time series of sample points.
//!
//! The input is a stream of already-tokenized messages; the output is a
//! [`types::FitStruct`]. Every function here is total: a field of the wrong
//! encoding decodes to zero, a reserved maximum decodes to an absent value,
//! and fields or messages that the model does not track are skipped.

pub mod value;
pub mod sentinel;
pub mod device;
pub mod types;
pub mod message;
pub mod reading;
pub mod lap;
pub mod record;
pub mod session;
pub mod decode;
pub mod guarantees;
