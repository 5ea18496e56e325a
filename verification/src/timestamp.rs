//! Timestamp values: a signed 64-bit offset from the reference epoch paired
//! with the precision unit that gives the offset its meaning, with calendar
//! rendering and parsing.

use vstd::prelude::*;

verus! {

/// The time unit of a timestamp offset. `Unknown` stands for an
/// unrecognized numeric precision reported by the engine.
#[derive(Debug, Clone, Copy, PartialEq, Eq, Structural)]
pub enum TimestampPrecision {
    Milli,
    Micro,
    Nano,
    Unknown,
}

impl TimestampPrecision {
    /// The numeric value the engine uses for this precision.
    pub open spec fn spec_value(self) -> int {
        match self {
            TimestampPrecision::Milli => 0,
            TimestampPrecision::Micro => 1,
            TimestampPrecision::Nano => 2,
            TimestampPrecision::Unknown => -1,
        }
    }

    pub fn value(self) -> (r: i32)
        ensures
            r == self.spec_value(),
    {
        match self {
            TimestampPrecision::Milli => 0,
            TimestampPrecision::Micro => 1,
            TimestampPrecision::Nano => 2,
            TimestampPrecision::Unknown => -1,
        }
    }

    /// The precision for a numeric value: 0, 1 and 2 are the three units,
    /// every other value is `Unknown`.
    pub open spec fn spec_from_value(v: int) -> TimestampPrecision {
        if v == 0 {
            TimestampPrecision::Milli
        } else if v == 1 {
            TimestampPrecision::Micro
        } else if v == 2 {
            TimestampPrecision::Nano
        } else {
            TimestampPrecision::Unknown
        }
    }

    pub fn from_value(v: i32) -> (r: TimestampPrecision)
        ensures
            r == TimestampPrecision::spec_from_value(v as int),
    {
        match v {
            0 => TimestampPrecision::Milli,
            1 => TimestampPrecision::Micro,
            2 => TimestampPrecision::Nano,
            _ => TimestampPrecision::Unknown,
        }
    }
}

/// A point in time: a signed offset since (or before) the reference epoch,
/// meaningful only together with its precision unit.
#[derive(Debug, Clone, Copy, PartialEq, Eq, Structural)]
pub struct Timestamp {
    pub timestamp: i64,
    pub precision: TimestampPrecision,
}

/// The calendar rendering of a millisecond offset, with three fractional
/// digits, or `None` where the offset leaves the representable calendar
/// range; a function of the offset alone.
pub uninterp spec fn rendered_millis(offset: int) -> Option<Seq<char>>;

/// The calendar rendering of a microsecond offset, with six fractional
/// digits, or `None` outside the representable calendar range; a function
/// of the offset alone.
pub uninterp spec fn rendered_micros(offset: int) -> Option<Seq<char>>;

/// The calendar rendering of a nanosecond offset, with nine fractional
/// digits, or `None` outside the representable calendar range; a function
/// of the offset alone.
pub uninterp spec fn rendered_nanos(offset: int) -> Option<Seq<char>>;

/// The text a timestamp renders to, by precision unit, or `None` where its
/// offset leaves the representable calendar range. Meaningless for the
/// `Unknown` precision.
pub open spec fn spec_rendered(ts: Timestamp) -> Option<Seq<char>> {
    match ts.precision {
        TimestampPrecision::Milli => rendered_millis(ts.timestamp as int),
        TimestampPrecision::Micro => rendered_micros(ts.timestamp as int),
        TimestampPrecision::Nano => rendered_nanos(ts.timestamp as int),
        TimestampPrecision::Unknown => None,
    }
}

/// Relies on chrono's epoch arithmetic and date-time formatting
/// (`TimeDelta::try_milliseconds`, `NaiveDateTime::checked_add_signed`,
/// `format`): the result depends on the offset alone, and is `None`
/// exactly where chrono reports the offset unrepresentable — a delta below
/// the negative millisecond bound, or an instant outside the calendar
/// range.
#[verifier::external_body]
fn render_millis(offset: i64) -> (r: Option<String>)
    ensures
        r matches Some(s) ==> rendered_millis(offset as int) == Some(s@),
        r is None <==> rendered_millis(offset as int) is None,
{
    let delta = match chrono::TimeDelta::try_milliseconds(offset) {
        Some(delta) => delta,
        None => return None,
    };
    match chrono::DateTime::UNIX_EPOCH.naive_utc().checked_add_signed(delta) {
        Some(dt) => Some(dt.format("%Y-%m-%d %H:%M:%S%.3f").to_string()),
        None => None,
    }
}

/// Relies on chrono's epoch arithmetic and date-time formatting, as
/// `render_millis`, with the offset read as microseconds
/// (`TimeDelta::microseconds` accepts every `i64`).
#[verifier::external_body]
fn render_micros(offset: i64) -> (r: Option<String>)
    ensures
        r matches Some(s) ==> rendered_micros(offset as int) == Some(s@),
        r is None <==> rendered_micros(offset as int) is None,
{
    match chrono::DateTime::UNIX_EPOCH.naive_utc().checked_add_signed(
        chrono::TimeDelta::microseconds(offset),
    ) {
        Some(dt) => Some(dt.format("%Y-%m-%d %H:%M:%S%.6f").to_string()),
        None => None,
    }
}

/// Relies on chrono's epoch arithmetic and date-time formatting, as
/// `render_millis`, with the offset read as nanoseconds
/// (`TimeDelta::nanoseconds` accepts every `i64`).
#[verifier::external_body]
fn render_nanos(offset: i64) -> (r: Option<String>)
    ensures
        r matches Some(s) ==> rendered_nanos(offset as int) == Some(s@),
        r is None <==> rendered_nanos(offset as int) is None,
{
    match chrono::DateTime::UNIX_EPOCH.naive_utc().checked_add_signed(
        chrono::TimeDelta::nanoseconds(offset),
    ) {
        Some(dt) => Some(dt.format("%Y-%m-%d %H:%M:%S%.9f").to_string()),
        None => None,
    }
}

/// The millisecond offset that a `%Y-%m-%d %H:%M:%S%.f` date-time text
/// parses to, or `None` where the text does not parse; a function of the
/// text alone.
pub uninterp spec fn parsed_datetime_millis(s: Seq<char>) -> Option<i64>;

/// Relies on chrono's `NaiveDateTime::parse_from_str` with the
/// `%Y-%m-%d %H:%M:%S%.f` format: the result depends on the text alone.
#[verifier::external_body]
fn parse_datetime_text(s: &str) -> (r: Option<i64>)
    ensures
        r == parsed_datetime_millis(s@),
{
    match chrono::NaiveDateTime::parse_from_str(s, "%Y-%m-%d %H:%M:%S%.f") {
        Ok(dt) => Some(dt.and_utc().timestamp_millis()),
        Err(_) => None,
    }
}

/// Relies on chrono's `Local::now`: the result depends on the wall clock,
/// so nothing is promised of it.
#[verifier::external_body]
fn now_timestamp_millis() -> i64 {
    chrono::Local::now().timestamp_millis()
}

impl Timestamp {
    pub fn new(timestamp: i64, precision: TimestampPrecision) -> (r: Self)
        ensures
            r.timestamp == timestamp,
            r.precision == precision,
    {
        Self { timestamp, precision }
    }

    /// The current wall-clock time, as a millisecond offset.
    pub fn now() -> (r: Self)
        ensures
            r.precision == TimestampPrecision::Milli,
    {
        Self { timestamp: now_timestamp_millis(), precision: TimestampPrecision::Milli }
    }

    pub fn as_raw_timestamp(&self) -> (r: i64)
        ensures
            r == self.timestamp,
    {
        self.timestamp
    }

    /// Render as a calendar date-time with the fractional digits of the
    /// precision unit. `None` exactly where the offset leaves the
    /// representable calendar range.
    pub fn to_text(&self) -> (r: Option<String>)
        requires
            self.precision != TimestampPrecision::Unknown,
        ensures
            r matches Some(s) ==> spec_rendered(*self) == Some(s@),
            r is None <==> spec_rendered(*self) is None,
    {
        match self.precision {
            TimestampPrecision::Milli => render_millis(self.timestamp),
            TimestampPrecision::Micro => render_micros(self.timestamp),
            TimestampPrecision::Nano => render_nanos(self.timestamp),
            TimestampPrecision::Unknown => None,
        }
    }

    /// Parse a `%Y-%m-%d %H:%M:%S%.f` date-time text into a millisecond
    /// timestamp. `None` exactly where the text does not parse.
    pub fn parse_datetime(s: &str) -> (r: Option<Timestamp>)
        ensures
            match r {
                Some(ts) => {
                    &&& parsed_datetime_millis(s@) == Some(ts.timestamp)
                    &&& ts.precision == TimestampPrecision::Milli
                },
                None => parsed_datetime_millis(s@) is None,
            },
    {
        match parse_datetime_text(s) {
            Some(ms) => Some(Timestamp { timestamp: ms, precision: TimestampPrecision::Milli }),
            None => None,
        }
    }
}

} // verus!
