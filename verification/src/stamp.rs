//! What a handler cannot compute: the wall clock and fresh random
//! identifiers. They are drawn here and handed on as plain values, so that
//! everything that is decided from them is decided in verified code, for
//! every value they may take.

use vstd::prelude::*;

verus! {

/// A reading of the system clock, opaque to the verifier.
#[verifier::external_type_specification]
#[verifier::external_body]
pub struct ExSystemTime(std::time::SystemTime);

/// The error of a reading that lies before the time it is measured from,
/// opaque to the verifier.
#[verifier::external_type_specification]
#[verifier::external_body]
pub struct ExSystemTimeError(std::time::SystemTimeError);

/// `SystemTime::now` of the standard library reads the wall clock. Nothing
/// is claimed of the reading.
pub assume_specification[ std::time::SystemTime::now ]() -> (now: std::time::SystemTime);

/// `Duration::as_millis` of the standard library gives a duration in whole
/// milliseconds. Nothing is claimed of the number.
pub assume_specification[ std::time::Duration::as_millis ](d: &std::time::Duration) -> (millis:
    u128);

/// `SystemTime::duration_since` of the standard library, taken against the
/// Unix epoch: the time elapsed since the epoch, or an error where the
/// reading lies before it. Nothing is claimed of either.
#[verifier::external_body]
fn since_epoch(reading: &std::time::SystemTime) -> (elapsed: Result<
    std::time::Duration,
    std::time::SystemTimeError,
>) {
    reading.duration_since(std::time::UNIX_EPOCH)
}

/// `new_trace_id` of opentelemetry's default identifier generator: a random
/// 128-bit number from the thread's generator. Any value may come back,
/// zero included.
#[verifier::external_body]
fn random_trace_id() -> (id: u128) {
    opentelemetry::trace::IdGenerator::new_trace_id(
        &opentelemetry::sdk::trace::IdGenerator::default(),
    ).to_u128()
}

/// `new_span_id` of opentelemetry's default identifier generator: a random
/// 64-bit number from the thread's generator. Any value may come back,
/// zero included.
#[verifier::external_body]
fn random_span_id() -> (id: u64) {
    opentelemetry::trace::IdGenerator::new_span_id(
        &opentelemetry::sdk::trace::IdGenerator::default(),
    ).to_u64()
}

/// Whole milliseconds as a timestamp, where they fit one.
pub open spec fn timestamp_of(millis: u128) -> Option<u64> {
    if millis <= u64::MAX {
        Some(millis as u64)
    } else {
        None
    }
}

/// Whole milliseconds since the epoch as a 64-bit timestamp; `None` where
/// the number does not fit.
pub fn to_timestamp(millis: u128) -> (r: Option<u64>)
    ensures
        r == timestamp_of(millis),
{
    if millis <= u64::MAX as u128 {
        Some(millis as u64)
    } else {
        None
    }
}

/// The wall clock in milliseconds since the Unix epoch; `None` where the
/// clock reads a time before the epoch or the number does not fit 64 bits.
pub fn now_millis() -> (r: Option<u64>) {
    let reading = std::time::SystemTime::now();
    match since_epoch(&reading) {
        Ok(elapsed) => to_timestamp(elapsed.as_millis()),
        Err(_) => None,
    }
}

/// The values drawn for one span start: a clock reading and one candidate
/// for each identifier that the span may need.
#[derive(Clone, Copy, Debug, PartialEq, Eq, Structural)]
pub struct Stamp {
    /// Milliseconds since the epoch; zero where the clock gave no usable
    /// reading.
    pub millis: u64,
    /// Candidate for the identifier of a new trace.
    pub trace_id: u128,
    /// Candidate for the identifier of the new span.
    pub span_id: u64,
}

impl Stamp {
    /// A stamp from chosen values.
    pub fn new(millis: u64, trace_id: u128, span_id: u64) -> (s: Stamp)
        ensures
            s == (Stamp { millis, trace_id, span_id }),
    {
        Stamp { millis, trace_id, span_id }
    }

    /// A stamp for the given clock reading, with random identifiers.
    pub fn at(reading: Option<u64>) -> (s: Stamp)
        ensures
            s.millis == reading.unwrap_or(0),
    {
        Stamp {
            millis: reading.unwrap_or(0),
            trace_id: random_trace_id(),
            span_id: random_span_id(),
        }
    }

    /// A stamp for now, with random identifiers.
    pub fn draw() -> (s: Stamp) {
        Stamp::at(now_millis())
    }
}

} // verus!
