//! Field accessors, display text, type names, JSON leniency and equality.

use libtaos::json::json_canonical;
use libtaos::{Field, IntoField, TaosDataType, Timestamp, TimestampPrecision};

#[test]
fn accessors_narrow_to_their_variant() {
    assert_eq!(Field::Bool(true).as_bool(), Some(&true));
    assert_eq!(Field::Int(1).as_bool(), None);
    assert_eq!(Field::TinyInt(-3).as_tiny_int(), Some(&-3));
    assert_eq!(Field::SmallInt(7).as_small_int(), Some(&7));
    assert_eq!(Field::Int(42).as_int(), Some(&42));
    assert_eq!(Field::BigInt(-9).as_big_int(), Some(&-9));
    assert_eq!(Field::UTinyInt(5).as_unsigned_tiny_int(), Some(&5));
    assert_eq!(Field::USmallInt(6).as_unsigned_samll_int(), Some(&6));
    assert_eq!(Field::UInt(7).as_unsigned_int(), Some(&7));
    assert_eq!(Field::UBigInt(8).as_unsigned_big_int(), Some(&8));
    assert_eq!(Field::Float(1.5f32.to_bits()).as_float(), Some(&1.5f32.to_bits()));
    assert_eq!(Field::Double(2.5f64.to_bits()).as_double(), Some(&2.5f64.to_bits()));
    assert_eq!(Field::Binary(b"ab".to_vec()).as_binary(), Some(&b"ab".to_vec()));
    assert_eq!(Field::NChar(String::from("x")).as_nchar(), Some("x"));
    assert_eq!(Field::Json(String::from("{}")).as_json(), Some("{}"));
    let ts = Timestamp::new(5, TimestampPrecision::Milli);
    assert_eq!(Field::Timestamp(ts).as_timestamp(), Some(&ts));
    assert_eq!(Field::Timestamp(ts).as_raw_timestamp(), Some(5));
    assert_eq!(Field::Null.as_raw_timestamp(), None);
}

#[test]
fn as_string_reads_binary_and_nchar() {
    assert_eq!(Field::Binary(b"db3".to_vec()).as_string(), Some(String::from("db3")));
    assert_eq!(Field::NChar(String::from("db3")).as_string(), Some(String::from("db3")));
    assert_eq!(Field::Int(1).as_string(), None);
}

#[test]
fn data_type_names_the_variant() {
    assert_eq!(Field::Null.data_type(), TaosDataType::Null);
    assert_eq!(Field::Bool(false).data_type(), TaosDataType::Bool);
    assert_eq!(Field::Binary(vec![]).data_type(), TaosDataType::Binary);
    assert_eq!(Field::Json(String::from("{}")).data_type(), TaosDataType::Json);
}

#[test]
fn field_text_renders_each_kind() {
    assert_eq!(Field::Null.to_text().unwrap(), "NULL");
    assert_eq!(Field::Bool(true).to_text().unwrap(), "true");
    assert_eq!(Field::Bool(false).to_text().unwrap(), "false");
    assert_eq!(Field::TinyInt(-12).to_text().unwrap(), "-12");
    assert_eq!(Field::Int(0).to_text().unwrap(), "0");
    assert_eq!(Field::BigInt(-9223372036854775808).to_text().unwrap(), "-9223372036854775808");
    assert_eq!(Field::UBigInt(18446744073709551615).to_text().unwrap(), "18446744073709551615");
    assert_eq!(Field::Binary(b"db02".to_vec()).to_text().unwrap(), "db02");
    assert_eq!(Field::NChar(String::from("json1")).to_text().unwrap(), "json1");
    let ts = Timestamp::new(1591060618000, TimestampPrecision::Milli);
    assert_eq!(Field::Timestamp(ts).to_text().unwrap(), "2020-06-02 01:16:58.000");
}

#[test]
fn type_names_parse_case_insensitively() {
    assert_eq!(TaosDataType::from_type_name("timestamp"), Ok(TaosDataType::Timestamp));
    assert_eq!(TaosDataType::from_type_name("BOOL"), Ok(TaosDataType::Bool));
    assert_eq!(TaosDataType::from_type_name("TinyInt"), Ok(TaosDataType::TinyInt));
    assert_eq!(TaosDataType::from_type_name("BIGINT UNSIGNED"), Ok(TaosDataType::UBigInt));
    assert_eq!(TaosDataType::from_type_name("nchar"), Ok(TaosDataType::NChar));
    assert_eq!(
        TaosDataType::from_type_name("varchar2"),
        Err("not a valid data type string"),
    );
}

#[test]
fn type_values_match_the_engine_codes() {
    assert_eq!(TaosDataType::Bool.value(), 1);
    assert_eq!(TaosDataType::Json.value(), 15);
    assert_eq!(TaosDataType::Unknown.value(), 255);
    assert_eq!(TaosDataType::from_value(9), TaosDataType::Timestamp);
    assert_eq!(TaosDataType::from_value(77), TaosDataType::Unknown);
    assert_eq!(TaosDataType::Timestamp.fixed_width(), Some(8));
    assert_eq!(TaosDataType::Binary.fixed_width(), None);
}

#[test]
fn into_field_wraps_each_source_type() {
    assert_eq!(true.into_field(), Field::Bool(true));
    assert_eq!(0i8.into_field(), Field::TinyInt(0));
    assert_eq!(0i16.into_field(), Field::SmallInt(0));
    assert_eq!(0i32.into_field(), Field::Int(0));
    assert_eq!(0i64.into_field(), Field::BigInt(0));
    assert_eq!(0u8.into_field(), Field::UTinyInt(0));
    assert_eq!(0u16.into_field(), Field::USmallInt(0));
    assert_eq!(0u32.into_field(), Field::UInt(0));
    assert_eq!(0u64.into_field(), Field::UBigInt(0));
    assert_eq!(String::from("A").into_field(), Field::NChar(String::from("A")));
    assert_eq!("A".into_field(), Field::NChar(String::from("A")));
    assert_eq!(b"A".to_vec().into_field(), Field::Binary(b"A".to_vec()));
    let ts = Timestamp::new(1, TimestampPrecision::Milli);
    assert_eq!(ts.into_field(), Field::Timestamp(ts));
}

#[test]
fn json_payloads_canonicalize_or_fail() {
    let text = json_canonical(b"{\"tag1\": \"fff\", \"tag2\": 5}").unwrap();
    assert_eq!(text, "{\"tag1\":\"fff\",\"tag2\":5}");
    assert!(json_canonical(b"{not json").is_none());
    assert_eq!(json_canonical(b"null").unwrap(), "null");
}

#[test]
fn equality_compares_payloads() {
    assert_eq!(Field::Binary(b"db3".to_vec()), Field::Binary(b"db3".to_vec()));
    assert_ne!(Field::Binary(b"db3".to_vec()), Field::Binary(b"db02".to_vec()));
    assert_ne!(Field::Binary(b"db3".to_vec()), Field::NChar(String::from("db3")));
    assert_eq!(Field::Null, Field::Null);
    assert_ne!(Field::Int(1), Field::Int(2));
    assert_eq!(
        Field::Timestamp(Timestamp::new(7, TimestampPrecision::Nano)),
        Field::Timestamp(Timestamp::new(7, TimestampPrecision::Nano)),
    );
}
