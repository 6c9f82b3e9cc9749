//! Time as the metrics need it: readings of the clocks, and the JSON number
//! that stands for a span of time in seconds.

use vstd::prelude::*;
use crate::json::{Json, JsonView};

verus! {

/// A span of time: whole seconds and the nanoseconds beyond them.
#[derive(Clone, Copy, Debug, PartialEq, Eq, Structural)]
pub struct Span {
    pub secs: u64,
    pub nanos: u32,
}

/// The JSON number that `serde_json` makes of a span of time in seconds, as
/// a floating-point value.
pub uninterp spec fn seconds_number(secs: u64, nanos: u32) -> JsonView;

/// Reads the system clock (`SystemTime::now`) as the time since the Unix
/// epoch; `None` where the clock stands before the epoch. Nothing is claimed
/// of the reading but that the nanoseconds stay below one second.
#[verifier::external_body]
pub(crate) fn since_epoch() -> (reading: Option<Span>)
    ensures
        reading matches Some(span) ==> span.nanos < 1_000_000_000,
{
    let elapsed = std::time::SystemTime::now().duration_since(std::time::UNIX_EPOCH).ok()?;
    Some(Span { secs: elapsed.as_secs(), nanos: elapsed.subsec_nanos() })
}

/// Makes the JSON number of a span in seconds: `Duration::as_secs_f64`, then
/// `serde_json`'s conversion of a floating-point value, which is a number
/// for every finite value, as the seconds of a span are.
#[verifier::external_body]
pub(crate) fn seconds(span: Span) -> (number: Json)
    requires
        span.nanos < 1_000_000_000,
    ensures
        number@ == seconds_number(span.secs, span.nanos),
        number@ is Number,
{
    let value = serde_json::Value::from(std::time::Duration::new(span.secs, span.nanos).as_secs_f64());
    Json::Number(value.to_string())
}

impl Span {
    /// The same span of time with its nanoseconds below one second: whole
    /// seconds among the nanoseconds are counted as seconds, which stop at
    /// the greatest number that they can hold.
    pub open spec fn spec_normal(self) -> Span {
        let secs = self.secs + self.nanos / 1_000_000_000;
        Span {
            secs: if secs > u64::MAX {
                u64::MAX
            } else {
                secs as u64
            },
            nanos: self.nanos % 1_000_000_000,
        }
    }

    /// The same span of time with its nanoseconds below one second.
    pub fn normal(self) -> (span: Span)
        ensures
            span == self.spec_normal(),
            span.nanos < 1_000_000_000,
    {
        let carry: u64 = (self.nanos / 1_000_000_000) as u64;
        let secs: u64 = if self.secs > u64::MAX - carry {
            u64::MAX
        } else {
            self.secs + carry
        };
        Span { secs, nanos: self.nanos % 1_000_000_000 }
    }
}

/// The JSON number of a span of time, in seconds.
pub open spec fn span_number(span: Span) -> JsonView {
    seconds_number(span.spec_normal().secs, span.spec_normal().nanos)
}

/// The JSON number of a span of time, in seconds.
pub fn seconds_json(span: Span) -> (number: Json)
    ensures
        number@ == span_number(span),
        number@ is Number,
{
    seconds(span.normal())
}

/// Reads the monotonic clock (`Instant::now`).
#[verifier::external_body]
pub(crate) fn now() -> std::time::Instant {
    std::time::Instant::now()
}

/// Calls `Instant::elapsed`: the time that has passed since the reading.
/// Nothing is claimed of it but that the nanoseconds stay below one second.
#[verifier::external_body]
pub(crate) fn elapsed(since: &std::time::Instant) -> (span: Span)
    ensures
        span.nanos < 1_000_000_000,
{
    let elapsed = since.elapsed();
    Span { secs: elapsed.as_secs(), nanos: elapsed.subsec_nanos() }
}

} // verus!
