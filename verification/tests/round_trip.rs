//! Encoding a value and decoding the produced buffer reproduces the value,
//! for every supported kind; a null bind carries no buffer and a set null
//! cell, and a null-marked cell decodes to null whatever the kind.

use libtaos::bind::BindParam;
use libtaos::decode::decode_cell;
use libtaos::{Field, TaosDataType, Timestamp, TimestampPrecision};

fn round_trip(value: Field) {
    let tag = value.data_type();
    let param = BindParam::from_field(&value);
    assert_eq!(param.buffer_type(), tag);
    assert!(!param.is_null());
    assert!(param.is_live());
    let buffer = param.buffer().expect("a non-null value owns a buffer");
    assert_eq!(param.length(), Some(buffer.len()));
    let precision = match &value {
        Field::Timestamp(t) => t.precision,
        _ => TimestampPrecision::Milli,
    };
    let decoded = decode_cell(Some(buffer.as_slice()), tag, precision);
    assert_eq!(decoded, value);
}

#[test]
fn bool_round_trips() {
    round_trip(Field::Bool(true));
    round_trip(Field::Bool(false));
}

#[test]
fn signed_integers_round_trip() {
    round_trip(Field::TinyInt(-0x7f));
    round_trip(Field::TinyInt(0x7f));
    round_trip(Field::SmallInt(0x7fff));
    round_trip(Field::SmallInt(-0x8000));
    round_trip(Field::Int(0x7fffffff));
    round_trip(Field::Int(-1));
    round_trip(Field::BigInt(0x7fffffff_ffffffff));
    round_trip(Field::BigInt(-0x7fffffff_ffffffff));
}

#[test]
fn unsigned_integers_round_trip() {
    round_trip(Field::UTinyInt(0));
    round_trip(Field::UTinyInt(0xff));
    round_trip(Field::USmallInt(1));
    round_trip(Field::USmallInt(0xffff));
    round_trip(Field::UInt(1));
    round_trip(Field::UInt(0xffff_ffff));
    round_trip(Field::UBigInt(1));
    round_trip(Field::UBigInt(0xffff_ffff_ffff_ffff));
}

#[test]
fn float_bit_patterns_round_trip() {
    round_trip(Field::Float(1.0f32.to_bits()));
    round_trip(Field::Double(9.0f64.to_bits()));
    round_trip(Field::Float(f32::NAN.to_bits()));
}

#[test]
fn binary_and_text_round_trip() {
    round_trip(Field::Binary(b"0123456789".to_vec()));
    round_trip(Field::Binary(vec![0u8, 255, 128, 7]));
    round_trip(Field::NChar(String::from("nchar")));
    round_trip(Field::NChar(String::from("\u{4e00}\u{4e8c}\u{4e09}")));
}

#[test]
fn canonical_json_round_trips() {
    let canonical = libtaos::json::json_canonical(b"{\"tag1\": \"fff\", \"tag2\": 5}").unwrap();
    round_trip(Field::Json(canonical));
    round_trip(Field::Json(String::from("null")));
}

#[test]
fn timestamp_offset_round_trips_under_fixed_precision() {
    round_trip(Field::Timestamp(Timestamp::new(1591060618000, TimestampPrecision::Milli)));
    round_trip(Field::Timestamp(Timestamp::new(-1, TimestampPrecision::Nano)));
    round_trip(Field::Timestamp(Timestamp::new(0, TimestampPrecision::Micro)));
}

#[test]
fn null_bind_has_no_buffer_and_a_set_null_cell() {
    let param = BindParam::from_field(&Field::Null);
    assert!(param.buffer().is_none());
    assert!(param.length().is_none());
    assert!(param.is_null());
    assert_eq!(param.buffer_type(), TaosDataType::Null);
    let explicit = BindParam::null();
    assert!(explicit.buffer().is_none());
    assert!(explicit.is_null());
}

#[test]
fn null_marked_cells_decode_to_null_for_every_kind() {
    for tag in [
        TaosDataType::Bool,
        TaosDataType::TinyInt,
        TaosDataType::SmallInt,
        TaosDataType::Int,
        TaosDataType::BigInt,
        TaosDataType::Float,
        TaosDataType::Double,
        TaosDataType::Binary,
        TaosDataType::Timestamp,
        TaosDataType::NChar,
        TaosDataType::UTinyInt,
        TaosDataType::USmallInt,
        TaosDataType::UInt,
        TaosDataType::UBigInt,
        TaosDataType::Json,
    ] {
        assert_eq!(decode_cell(None, tag, TimestampPrecision::Milli), Field::Null);
    }
}

#[test]
fn released_descriptor_drops_its_buffers() {
    let mut param = BindParam::from_field(&Field::Int(7));
    assert!(param.is_live());
    param.release();
    assert!(!param.is_live());
    assert!(param.buffer().is_none());
    assert!(param.length().is_none());
}
