//! The SQL texts of the convenience commands: built here, submitted to the
//! engine by the caller that owns the connection handle.

use vstd::prelude::*;

verus! {

/// `create table <table> <options>`; absent options leave the clause empty.
pub fn create_table_sql(table: &str, options: Option<&str>) -> (r: String)
    ensures
        r@ == "create table "@ + table@ + " "@ + (match options {
            Some(o) => o@,
            None => ""@,
        }),
{
    let mut s = String::from_str("create table ");
    s.append(table);
    s.append(" ");
    match options {
        Some(o) => s.append(o),
        None => (),
    }
    proof {
        reveal_strlit("");
        assert(""@ =~= Seq::<char>::empty());
        assert(s@ =~= "create table "@ + table@ + " "@ + (match options {
            Some(o) => o@,
            None => ""@,
        }));
    }
    s
}

/// `create table if not exists <table> <options>`.
pub fn create_table_if_not_exists_sql(table: &str, options: Option<&str>) -> (r: String)
    ensures
        r@ == "create table if not exists "@ + table@ + " "@ + (match options {
            Some(o) => o@,
            None => ""@,
        }),
{
    let mut s = String::from_str("create table if not exists ");
    s.append(table);
    s.append(" ");
    match options {
        Some(o) => s.append(o),
        None => (),
    }
    proof {
        reveal_strlit("");
        assert(""@ =~= Seq::<char>::empty());
        assert(s@ =~= "create table if not exists "@ + table@ + " "@ + (match options {
            Some(o) => o@,
            None => ""@,
        }));
    }
    s
}

/// `create database <database>`.
pub fn create_database_sql(database: &str) -> (r: String)
    ensures
        r@ == "create database "@ + database@,
{
    let mut s = String::from_str("create database ");
    s.append(database);
    s
}

/// `create database if not exists <database>`.
pub fn create_database_if_not_exists_sql(database: &str) -> (r: String)
    ensures
        r@ == "create database if not exists "@ + database@,
{
    let mut s = String::from_str("create database if not exists ");
    s.append(database);
    s
}

/// `use <database>`.
pub fn use_database_sql(database: &str) -> (r: String)
    ensures
        r@ == "use "@ + database@,
{
    let mut s = String::from_str("use ");
    s.append(database);
    s
}

/// `describe <table>`.
pub fn describe_sql(table: &str) -> (r: String)
    ensures
        r@ == "describe "@ + table@,
{
    let mut s = String::from_str("describe ");
    s.append(table);
    s
}

} // verus!
