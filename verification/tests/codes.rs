//! The engine status taxonomy: the distinguished success value, named
//! classifications, the catch-all, and the error texts built from them.

use libtaos::error::{classify_status, result_from_status, stmt_result_from_status, TaosError};
use libtaos::TaosCode;

#[test]
fn zero_status_classifies_as_success() {
    assert_eq!(classify_status(0), TaosCode::Success);
    assert!(classify_status(0).success());
    assert!(result_from_status(0, String::from("fine")).is_ok());
}

#[test]
fn named_codes_classify_to_their_names() {
    assert_eq!(classify_status(0x0005), TaosCode::RpcNotReady);
    assert!(classify_status(0x0005).rpc_not_ready());
    assert_eq!(classify_status(0x0102), TaosCode::ComOutOfMemory);
    assert!(classify_status(0x0102).com_out_of_memory());
    assert_eq!(classify_status(0x0216), TaosCode::TscSqlSyntaxError);
    assert!(classify_status(0x0216).tsc_sql_syntax_error());
    assert_eq!(classify_status(0x0217), TaosCode::TscDbNotSelected);
    assert!(classify_status(0x0217).tsc_db_not_selected());
    assert_eq!(classify_status(0x0218), TaosCode::TscInvalidTableName);
    assert!(classify_status(0x0218).tsc_invalid_table_name());
    assert_eq!(classify_status(0x2208), TaosCode::FsNoValidDisk);
    assert!(classify_status(0x2208).fs_no_valid_disk());
    assert!(!classify_status(0x0216).success());
}

#[test]
fn classification_reads_the_low_sixteen_bits() {
    let status = 0x80000216u32 as i32;
    assert_eq!(classify_status(status), TaosCode::TscSqlSyntaxError);
    let status = 0x7fff0000u32 as i32;
    assert_eq!(classify_status(status), TaosCode::Success);
}

#[test]
fn unrecognized_codes_classify_to_unknown() {
    assert_eq!(classify_status(0x0a31), TaosCode::Unknown);
    assert_eq!(classify_status(0xfffe), TaosCode::Unknown);
    assert!(!classify_status(0x0a31).success());
}

#[test]
fn code_values_round_trip() {
    assert_eq!(TaosCode::Success.value(), 0);
    assert_eq!(TaosCode::TscInvalidTableName.value(), 0x0218);
    assert_eq!(TaosCode::from_value(0x0218), TaosCode::TscInvalidTableName);
    assert_eq!(TaosCode::from_value(TaosCode::FsNoValidDisk.value()), TaosCode::FsNoValidDisk);
    assert_eq!(TaosCode::Unknown.value(), 0xffff);
}

#[test]
fn failures_carry_code_and_message() {
    let err = result_from_status(0x0218, String::from("Table does not exist")).unwrap_err();
    assert_eq!(err.code, TaosCode::TscInvalidTableName);
    assert_eq!(err.err, "Table does not exist");
    let err = stmt_result_from_status(0x0216, None).unwrap_err();
    assert_eq!(err.code, TaosCode::TscSqlSyntaxError);
    assert_eq!(err.err, "unknown");
}

#[test]
fn error_text_shows_code_and_message() {
    let err = TaosError { code: TaosCode::TscInvalidTableName, err: String::from("no such table") };
    assert_eq!(err.to_text(), "[536] no such table");
    let err = TaosError { code: TaosCode::Success, err: String::from("fine") };
    assert_eq!(err.to_text(), "[0] fine");
}
