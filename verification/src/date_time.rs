//! Points in time: 100-nanosecond ticks since 1601-01-01T00:00:00Z.

use crate::encoding::{BinaryEncoder, DecodingLimits, EncodingError, Parsed, Reader};
use vstd::prelude::*;

verus! {

/// Seconds from 1601-01-01 to 1970-01-01.
pub const SECONDS_TO_UNIX_EPOCH: i64 = 11_644_473_600;

/// Ticks in one second.
pub const TICKS_PER_SECOND: i64 = 10_000_000;

/// Nanoseconds in one tick.
pub const NANOS_PER_TICK: u32 = 100;

/// `chrono::Utc::now`: the seconds since 1970-01-01T00:00:00Z that the system
/// clock shows, and the nanoseconds into that second. Nothing is known of
/// either.
#[verifier::external_body]
fn clock_now() -> (r: (i64, u32)) {
    let now = chrono::Utc::now();
    (now.timestamp(), now.timestamp_subsec_nanos())
}

/// A point in time. Zero ticks is the null time.
#[derive(Clone, Copy, Debug, PartialEq, Eq, Hash, Structural)]
pub struct DateTime {
    /// Ticks of 100 nanoseconds since 1601-01-01T00:00:00Z.
    pub ticks: i64,
}

impl DeepView for DateTime {
    type V = DateTime;

    open spec fn deep_view(&self) -> DateTime {
        *self
    }
}

impl DateTime {
    /// The ticks that stand for a time given in seconds and nanoseconds since
    /// 1970-01-01T00:00:00Z, kept within zero and the largest tick count.
    pub open spec fn ticks_of_unix(seconds: i64, nanos: u32) -> i64 {
        let exact = (seconds + SECONDS_TO_UNIX_EPOCH) * TICKS_PER_SECOND + (nanos / NANOS_PER_TICK) as int;
        if exact < 0 {
            0
        } else if exact > i64::MAX {
            i64::MAX
        } else {
            exact as i64
        }
    }

    /// The null time.
    pub fn null() -> (r: DateTime)
        ensures
            r.ticks == 0,
    {
        DateTime { ticks: 0 }
    }

    /// Whether this is the null time.
    pub fn is_null(&self) -> (r: bool)
        ensures
            r == (self.ticks == 0),
    {
        self.ticks == 0
    }

    /// The time with the given tick count.
    pub fn from_ticks(ticks: i64) -> (r: DateTime)
        ensures
            r.ticks == ticks,
    {
        DateTime { ticks }
    }

    /// The tick count.
    pub fn ticks(&self) -> (r: i64)
        ensures
            r == self.ticks,
    {
        self.ticks
    }

    /// The time that is `seconds` and `nanos` after 1970-01-01T00:00:00Z.
    pub fn from_unix(seconds: i64, nanos: u32) -> (r: DateTime)
        ensures
            r.ticks == Self::ticks_of_unix(seconds, nanos),
    {
        let since_1601: i128 = seconds as i128 + SECONDS_TO_UNIX_EPOCH as i128;
        let exact: i128 = since_1601 * (TICKS_PER_SECOND as i128) + (nanos / NANOS_PER_TICK) as i128;
        if exact < 0 {
            DateTime { ticks: 0 }
        } else if exact > i64::MAX as i128 {
            DateTime { ticks: i64::MAX }
        } else {
            DateTime { ticks: exact as i64 }
        }
    }

    /// The time the system clock shows: what `from_unix` makes of the seconds
    /// and nanoseconds that the clock gives, whichever they are.
    pub fn now() -> (r: DateTime)
        ensures
            exists|seconds: i64, nanos: u32|
                r.ticks == #[trigger] Self::ticks_of_unix(seconds, nanos),
            r.ticks >= 0,
    {
        let (seconds, nanos) = clock_now();
        DateTime::from_unix(seconds, nanos)
    }
}

/// A time is its tick count as a 64-bit signed integer.
impl BinaryEncoder for DateTime {
    open spec fn wire(v: DateTime) -> Seq<u8> {
        i64::wire(v.ticks)
    }

    open spec fn parse(bytes: Seq<u8>, limits: DecodingLimits) -> Parsed<DateTime> {
        match i64::parse(bytes, limits) {
            Err(e) => Err(e),
            Ok((ticks, n)) => Ok((DateTime { ticks }, n)),
        }
    }

    open spec fn encodable(v: DateTime) -> bool {
        true
    }

    open spec fn within(v: DateTime, limits: DecodingLimits) -> bool {
        true
    }

    proof fn lemma_parse_wire(v: DateTime, rest: Seq<u8>, limits: DecodingLimits) {
        i64::lemma_parse_wire(v.ticks, rest, limits);
    }

    proof fn lemma_parse_truncated(v: DateTime, k: int, limits: DecodingLimits) {
        i64::lemma_parse_truncated(v.ticks, k, limits);
    }

    proof fn lemma_parse_bound(bytes: Seq<u8>, limits: DecodingLimits) {
    }

    fn byte_len(&self) -> (n: usize) {
        self.ticks.byte_len()
    }

    fn encode(&self, stream: &mut Vec<u8>) -> (r: Result<usize, EncodingError>) {
        self.ticks.encode(stream)
    }

    fn decode(stream: &mut Reader, limits: &DecodingLimits) -> (r: Result<Self, EncodingError>) {
        let ticks = i64::decode(stream, limits)?;
        Ok(DateTime { ticks })
    }
}

} // verus!
