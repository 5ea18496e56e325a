//! The SQL texts of the convenience commands.

use libtaos::sql;
use libtaos::{TaosCfg, TSDB_SML_LINE_PROTOCOL, TSDB_SML_TIMESTAMP_SECONDS};

#[test]
fn command_texts_match_the_submitted_form() {
    assert_eq!(
        sql::create_table_sql("m1", Some("(ts timestamp, speed int)")),
        "create table m1 (ts timestamp, speed int)",
    );
    assert_eq!(sql::create_table_sql("m1", None), "create table m1 ");
    assert_eq!(
        sql::create_table_if_not_exists_sql("tb0", Some("(ts timestamp, n int)")),
        "create table if not exists tb0 (ts timestamp, n int)",
    );
    assert_eq!(sql::create_database_sql("demo"), "create database demo");
    assert_eq!(
        sql::create_database_if_not_exists_sql("demo"),
        "create database if not exists demo",
    );
    assert_eq!(sql::use_database_sql("demo"), "use demo");
    assert_eq!(sql::describe_sql("log.dn"), "describe log.dn");
}

#[test]
fn schemaless_selectors_carry_the_engine_values() {
    assert_eq!(TSDB_SML_LINE_PROTOCOL.value(), 1);
    assert_eq!(TSDB_SML_TIMESTAMP_SECONDS.value(), 3);
}

#[test]
fn configuration_keeps_its_coordinates() {
    let cfg = TaosCfg::new(
        String::from("127.0.0.1"),
        String::from("root"),
        String::from("taosdata"),
        Some(String::from("log")),
        6030,
    );
    assert_eq!(cfg.ip, "127.0.0.1");
    assert_eq!(cfg.user, "root");
    assert_eq!(cfg.db.as_deref(), Some("log"));
    assert_eq!(cfg.port, 6030);
}

#[test]
fn lifecycle_counts_decide_init_and_teardown() {
    assert_eq!(libtaos::lifecycle::connect_transition(0), (1, true));
    assert_eq!(libtaos::lifecycle::connect_transition(1), (2, false));
    assert_eq!(libtaos::lifecycle::disconnect_transition(2), (1, false));
    assert_eq!(libtaos::lifecycle::disconnect_transition(1), (0, true));
}
