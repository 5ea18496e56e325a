//! Row decoding against column metadata, result-table assembly, and the
//! describe partition.

use libtaos::decode::decode_row;
use libtaos::query::{ColumnMeta, TaosDescribe, TaosQueryData};
use libtaos::{Field, TaosDataType, TimestampPrecision};

fn meta(name: &str, type_: TaosDataType, bytes: i16) -> ColumnMeta {
    ColumnMeta { name: String::from(name), type_, bytes }
}

#[test]
fn rows_decode_by_column_kind() {
    let metas = vec![
        meta("ts", TaosDataType::Timestamp, 8),
        meta("n", TaosDataType::Int, 4),
        meta("name", TaosDataType::Binary, 10),
        meta("note", TaosDataType::NChar, 10),
    ];
    let cells: Vec<Option<Vec<u8>>> = vec![
        Some(1591060618000i64.to_le_bytes().to_vec()),
        Some(42i32.to_le_bytes().to_vec()),
        Some(b"db02".to_vec()),
        None,
    ];
    let row = decode_row(&cells, &metas, TimestampPrecision::Milli);
    assert_eq!(row.len(), 4);
    assert_eq!(row[1], Field::Int(42));
    assert_eq!(row[2], Field::Binary(b"db02".to_vec()));
    assert_eq!(row[3], Field::Null);
    assert_eq!(row[0].as_raw_timestamp(), Some(1591060618000));
}

#[test]
fn json_cells_decode_leniently() {
    let metas = vec![meta("jtag", TaosDataType::Json, 0)];
    let ok: Vec<Option<Vec<u8>>> = vec![Some(b"{\"tag1\": true}".to_vec())];
    let row = decode_row(&ok, &metas, TimestampPrecision::Milli);
    assert_eq!(row[0], Field::Json(String::from("{\"tag1\":true}")));
    let bad: Vec<Option<Vec<u8>>> = vec![Some(b"\t".to_vec())];
    let row = decode_row(&bad, &metas, TimestampPrecision::Milli);
    assert_eq!(row[0], Field::Null);
}

#[test]
fn zero_row_result_keeps_metadata_and_no_rows() {
    let metas = vec![meta("ts", TaosDataType::Timestamp, 8), meta("n", TaosDataType::Int, 4)];
    let data = TaosQueryData::new(metas);
    assert_eq!(data.rows(), 0);
    assert_eq!(data.rows.len(), 0);
    assert_eq!(data.column_meta.len(), 2);
    assert_eq!(data.column_meta[0].name, "ts");
    assert_eq!(data.column_meta[1].type_, TaosDataType::Int);
}

#[test]
fn pushed_rows_accumulate_in_order() {
    let metas = vec![meta("n", TaosDataType::Int, 4)];
    let mut data = TaosQueryData::new(metas);
    data.push_row(vec![Field::Int(1)]);
    data.push_row(vec![Field::Int(2)]);
    assert_eq!(data.rows(), 2);
    assert_eq!(data.rows[0][0], Field::Int(1));
    assert_eq!(data.rows[1][0], Field::Int(2));
}

fn describe_row(name: &str, kind_name: &str, bytes: i32, note: &str) -> Vec<Field> {
    vec![
        Field::Binary(name.as_bytes().to_vec()),
        Field::Binary(kind_name.as_bytes().to_vec()),
        Field::Int(bytes),
        Field::Binary(note.as_bytes().to_vec()),
    ]
}

#[test]
fn describe_rows_split_into_columns_and_tags() {
    let metas = vec![
        meta("field", TaosDataType::Binary, 64),
        meta("type", TaosDataType::Binary, 16),
        meta("length", TaosDataType::Int, 4),
        meta("note", TaosDataType::Binary, 8),
    ];
    let mut data = TaosQueryData::new(metas);
    data.push_row(describe_row("ts", "TIMESTAMP", 8, ""));
    data.push_row(describe_row("n", "INT", 4, ""));
    data.push_row(describe_row("b", "BINARY", 10, ""));
    data.push_row(describe_row("t1", "INT", 4, "TAG"));
    data.push_row(describe_row("t2", "NCHAR", 10, "TAG"));
    let desc = TaosDescribe::from_query_data(&data);
    assert_eq!(desc.cols.len(), 3);
    assert_eq!(desc.tags.len(), 2);
    assert_eq!(desc.cols[0].name, "ts");
    assert_eq!(desc.cols[0].type_, TaosDataType::Timestamp);
    assert_eq!(desc.cols[0].bytes, 8);
    assert_eq!(desc.cols[2].type_, TaosDataType::Binary);
    assert_eq!(desc.tags[0].name, "t1");
    assert_eq!(desc.tags[1].type_, TaosDataType::NChar);
    assert_eq!(
        desc.names(),
        vec![
            String::from("ts"),
            String::from("n"),
            String::from("b"),
            String::from("t1"),
            String::from("t2"),
        ],
    );
    assert_eq!(desc.col_names(), vec![String::from("ts"), String::from("n"), String::from("b")]);
    assert_eq!(desc.tag_names(), vec![String::from("t1"), String::from("t2")]);
}
