//! The statement binder's protocol: prepare, name the table, bind a batch,
//! execute — with the allocation/free ledger balanced around every bind,
//! on the success and failure paths alike.

use libtaos::stmt::{IntoParams, Stmt, StmtState};
use libtaos::{Field, TaosCode, Timestamp, TimestampPrecision};

fn sample_row() -> Vec<Field> {
    vec![
        Field::Timestamp(Timestamp::new(1591060618000, TimestampPrecision::Milli)),
        Field::Int(10),
    ]
}

#[test]
fn bind_batch_execute_counts_rows() {
    let mut stmt = Stmt::new();
    assert_eq!(stmt.state(), StmtState::Created);
    stmt.prepare_outcome(0, None).unwrap();
    assert_eq!(stmt.state(), StmtState::Prepared);
    stmt.set_tbname_outcome(0, None).unwrap();
    assert_eq!(stmt.state(), StmtState::TableBound);
    for _ in 0..100 {
        let row = stmt.encode_row(&sample_row());
        stmt.bind_outcome(row, 0, 0, None).unwrap();
    }
    assert_eq!(stmt.state(), StmtState::RowsBound);
    assert_eq!(stmt.batched_rows(), 100);
    stmt.execute_outcome(0, None).unwrap();
    assert_eq!(stmt.state(), StmtState::Executed);
    assert_eq!(stmt.batched_rows(), 0);
    assert_eq!(stmt.submitted_rows(), 100);
    stmt.close();
    assert_eq!(stmt.state(), StmtState::Closed);
}

#[test]
fn every_allocated_descriptor_is_released_once() {
    let mut stmt = Stmt::new();
    stmt.prepare_outcome(0, None).unwrap();
    stmt.set_tbname_outcome(0, None).unwrap();
    let row = stmt.encode_row(&sample_row());
    let ledger = stmt.ledger();
    assert_eq!(ledger.allocated, 2);
    assert_eq!(ledger.released, 0);
    stmt.bind_outcome(row, 0, 0, None).unwrap();
    let ledger = stmt.ledger();
    assert_eq!(ledger.allocated, 2);
    assert_eq!(ledger.released, 2);
}

#[test]
fn bind_failure_still_releases_the_row() {
    let mut stmt = Stmt::new();
    stmt.prepare_outcome(0, None).unwrap();
    stmt.set_tbname_outcome(0, None).unwrap();
    let row = stmt.encode_row(&sample_row());
    let err = stmt.bind_outcome(row, 0x0216, 0, Some(String::from("syntax"))).unwrap_err();
    assert_eq!(err.code, TaosCode::TscSqlSyntaxError);
    assert_eq!(err.err, "syntax");
    assert_eq!(stmt.batched_rows(), 0);
    let ledger = stmt.ledger();
    assert_eq!(ledger.allocated, 2);
    assert_eq!(ledger.released, 2);
    let row = stmt.encode_row(&sample_row());
    let err = stmt.bind_outcome(row, 0, 0x0102, None).unwrap_err();
    assert_eq!(err.code, TaosCode::ComOutOfMemory);
    assert_eq!(err.err, "unknown");
    let ledger = stmt.ledger();
    assert_eq!(ledger.allocated, 4);
    assert_eq!(ledger.released, 4);
}

#[test]
fn close_without_execute_leaves_ledger_balanced() {
    let mut stmt = Stmt::new();
    stmt.prepare_outcome(0, None).unwrap();
    stmt.set_tbname_outcome(0, None).unwrap();
    let row = stmt.encode_row(&sample_row());
    stmt.bind_outcome(row, 0, 0, None).unwrap();
    stmt.close();
    let ledger = stmt.ledger();
    assert_eq!(ledger.allocated, ledger.released);
}

#[test]
fn tags_are_released_like_rows() {
    let mut stmt = Stmt::new();
    stmt.prepare_outcome(0, None).unwrap();
    let tags = stmt.encode_row(&vec![Field::Int(2)]);
    stmt.set_tbname_tags_outcome(tags, 0, None).unwrap();
    assert_eq!(stmt.state(), StmtState::TableBound);
    let ledger = stmt.ledger();
    assert_eq!(ledger.allocated, 1);
    assert_eq!(ledger.released, 1);
}

#[test]
fn executing_again_accumulates_submitted_rows() {
    let mut stmt = Stmt::new();
    stmt.prepare_outcome(0, None).unwrap();
    for batch in [3u64, 4u64] {
        stmt.set_tbname_outcome(0, None).unwrap();
        for _ in 0..batch {
            let row = stmt.encode_row(&sample_row());
            stmt.bind_outcome(row, 0, 0, None).unwrap();
        }
        stmt.execute_outcome(0, None).unwrap();
    }
    assert_eq!(stmt.submitted_rows(), 7);
}

#[test]
fn hundred_subtables_with_tags_submit_hundred_rows() {
    let mut stmt = Stmt::new();
    stmt.prepare_outcome(0, None).unwrap();
    for _ in 0..100 {
        let tags = stmt.encode_row(&vec![Field::Int(2)]);
        stmt.set_tbname_tags_outcome(tags, 0, None).unwrap();
        let row = stmt.encode_row(&sample_row());
        stmt.bind_outcome(row, 0, 0, None).unwrap();
    }
    assert_eq!(stmt.batched_rows(), 100);
    stmt.execute_outcome(0, None).unwrap();
    assert_eq!(stmt.submitted_rows(), 100);
    let ledger = stmt.ledger();
    assert_eq!(ledger.allocated, 300);
    assert_eq!(ledger.released, 300);
}

#[test]
fn prepare_failure_keeps_the_statement_fresh() {
    let mut stmt = Stmt::new();
    let err = stmt.prepare_outcome(0x0216, Some(String::from("bad sql"))).unwrap_err();
    assert_eq!(err.code, TaosCode::TscSqlSyntaxError);
    assert_eq!(stmt.state(), StmtState::Created);
}

#[test]
fn into_params_encodes_one_descriptor_per_value() {
    let row = sample_row();
    let mut params = (&row).into_params();
    assert_eq!(params.len(), 2);
    assert!(!params[0].is_null());
    assert_eq!(params[1].buffer().unwrap().as_slice(), &10i32.to_le_bytes());
    for p in params.iter_mut() {
        p.release();
    }
}
