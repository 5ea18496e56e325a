//! Selectors for the schemaless bulk-insert path: the text-line protocol
//! and the timestamp precision the lines are written in. The insert call
//! itself goes through the connection handle, outside this library.

use vstd::prelude::*;

verus! {

/// The text-line protocol of a schemaless insert.
#[allow(non_camel_case_types)]
#[derive(Debug, Clone, Copy, PartialEq, Eq, Structural)]
pub enum TSDB_SML_PROTOCOL_TYPE {
    Unknown,
    Line,
    Telnet,
    Json,
}

impl TSDB_SML_PROTOCOL_TYPE {
    /// The numeric selector value the engine takes for this protocol.
    pub open spec fn spec_value(self) -> int {
        match self {
            TSDB_SML_PROTOCOL_TYPE::Unknown => 0,
            TSDB_SML_PROTOCOL_TYPE::Line => 1,
            TSDB_SML_PROTOCOL_TYPE::Telnet => 2,
            TSDB_SML_PROTOCOL_TYPE::Json => 3,
        }
    }

    pub fn value(self) -> (r: i32)
        ensures
            r == self.spec_value(),
    {
        match self {
            TSDB_SML_PROTOCOL_TYPE::Unknown => 0,
            TSDB_SML_PROTOCOL_TYPE::Line => 1,
            TSDB_SML_PROTOCOL_TYPE::Telnet => 2,
            TSDB_SML_PROTOCOL_TYPE::Json => 3,
        }
    }
}

pub const TSDB_SML_UNKNOWN_PROTOCOL: TSDB_SML_PROTOCOL_TYPE = TSDB_SML_PROTOCOL_TYPE::Unknown;

pub const TSDB_SML_LINE_PROTOCOL: TSDB_SML_PROTOCOL_TYPE = TSDB_SML_PROTOCOL_TYPE::Line;

pub const TSDB_SML_TELNET_PROTOCOL: TSDB_SML_PROTOCOL_TYPE = TSDB_SML_PROTOCOL_TYPE::Telnet;

pub const TSDB_SML_JSON_PROTOCOL: TSDB_SML_PROTOCOL_TYPE = TSDB_SML_PROTOCOL_TYPE::Json;

/// The timestamp precision the schemaless lines are written in.
#[allow(non_camel_case_types)]
#[derive(Debug, Clone, Copy, PartialEq, Eq, Structural)]
pub enum TSDB_SML_TIMESTAMP_TYPE {
    NonConfigured,
    Hours,
    Minutes,
    Seconds,
    Milliseconds,
    Microseconds,
    Nanoseconds,
}

impl TSDB_SML_TIMESTAMP_TYPE {
    /// The numeric selector value the engine takes for this precision.
    pub open spec fn spec_value(self) -> int {
        match self {
            TSDB_SML_TIMESTAMP_TYPE::NonConfigured => 0,
            TSDB_SML_TIMESTAMP_TYPE::Hours => 1,
            TSDB_SML_TIMESTAMP_TYPE::Minutes => 2,
            TSDB_SML_TIMESTAMP_TYPE::Seconds => 3,
            TSDB_SML_TIMESTAMP_TYPE::Milliseconds => 4,
            TSDB_SML_TIMESTAMP_TYPE::Microseconds => 5,
            TSDB_SML_TIMESTAMP_TYPE::Nanoseconds => 6,
        }
    }

    pub fn value(self) -> (r: i32)
        ensures
            r == self.spec_value(),
    {
        match self {
            TSDB_SML_TIMESTAMP_TYPE::NonConfigured => 0,
            TSDB_SML_TIMESTAMP_TYPE::Hours => 1,
            TSDB_SML_TIMESTAMP_TYPE::Minutes => 2,
            TSDB_SML_TIMESTAMP_TYPE::Seconds => 3,
            TSDB_SML_TIMESTAMP_TYPE::Milliseconds => 4,
            TSDB_SML_TIMESTAMP_TYPE::Microseconds => 5,
            TSDB_SML_TIMESTAMP_TYPE::Nanoseconds => 6,
        }
    }
}

pub const TSDB_SML_TIMESTAMP_NOT_CONFIGURED: TSDB_SML_TIMESTAMP_TYPE =
    TSDB_SML_TIMESTAMP_TYPE::NonConfigured;

pub const TSDB_SML_TIMESTAMP_HOURS: TSDB_SML_TIMESTAMP_TYPE = TSDB_SML_TIMESTAMP_TYPE::Hours;

pub const TSDB_SML_TIMESTAMP_MINUTES: TSDB_SML_TIMESTAMP_TYPE = TSDB_SML_TIMESTAMP_TYPE::Minutes;

pub const TSDB_SML_TIMESTAMP_SECONDS: TSDB_SML_TIMESTAMP_TYPE = TSDB_SML_TIMESTAMP_TYPE::Seconds;

pub const TSDB_SML_TIMESTAMP_MILLISECONDS: TSDB_SML_TIMESTAMP_TYPE =
    TSDB_SML_TIMESTAMP_TYPE::Milliseconds;

pub const TSDB_SML_TIMESTAMP_MICROSECONDS: TSDB_SML_TIMESTAMP_TYPE =
    TSDB_SML_TIMESTAMP_TYPE::Microseconds;

pub const TSDB_SML_TIMESTAMP_NANOSECONDS: TSDB_SML_TIMESTAMP_TYPE =
    TSDB_SML_TIMESTAMP_TYPE::Nanoseconds;

} // verus!
