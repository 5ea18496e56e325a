//! Client-side value model for a columnar time-series database engine:
//! typed field values, column metadata, timestamp handling, the engine's
//! status-code taxonomy, parameter-buffer encoding and the prepared-statement
//! binding state machine.

pub mod bind;
pub mod cfg;
pub mod decode;
pub mod error;
pub mod field;
pub mod ints;
pub mod json;
pub mod laws;
pub mod lifecycle;
pub mod query;
pub mod sml;
pub mod sql;
pub mod stmt;
pub mod text;
pub mod timestamp;

pub use bind::{BindParam, BufferLedger, IntoBindParam};
pub use cfg::TaosCfg;
pub use error::{Error, TaosCode, TaosError};
pub use field::{Field, FieldView, IntoField, TaosDataType};
pub use query::{ColumnMeta, TaosDescribe, TaosQueryData};
pub use sml::{
    TSDB_SML_JSON_PROTOCOL, TSDB_SML_LINE_PROTOCOL, TSDB_SML_PROTOCOL_TYPE,
    TSDB_SML_TELNET_PROTOCOL, TSDB_SML_TIMESTAMP_HOURS, TSDB_SML_TIMESTAMP_MICROSECONDS,
    TSDB_SML_TIMESTAMP_MILLISECONDS, TSDB_SML_TIMESTAMP_MINUTES, TSDB_SML_TIMESTAMP_NANOSECONDS,
    TSDB_SML_TIMESTAMP_NOT_CONFIGURED, TSDB_SML_TIMESTAMP_SECONDS, TSDB_SML_TIMESTAMP_TYPE,
    TSDB_SML_UNKNOWN_PROTOCOL,
};
pub use stmt::{IntoParams, Stmt, StmtState};
pub use timestamp::{Timestamp, TimestampPrecision};
