//! Connection configuration: the plain values a caller supplies to open a
//! connection. Opening the connection itself goes through the engine
//! handle, outside this library.

use vstd::prelude::*;

verus! {

/// The coordinates of one connection: host, credentials, an optional
/// default database, and the port.
#[derive(Debug, Clone)]
pub struct TaosCfg {
    pub ip: String,
    pub user: String,
    pub pass: String,
    pub db: Option<String>,
    pub port: u16,
}

impl TaosCfg {
    pub fn new(ip: String, user: String, pass: String, db: Option<String>, port: u16) -> (r:
        TaosCfg)
        ensures
            r.ip@ == ip@,
            r.user@ == user@,
            r.pass@ == pass@,
            (match (r.db, db) {
                (Some(a), Some(b)) => a@ == b@,
                (None, None) => true,
                _ => false,
            }),
            r.port == port,
    {
        TaosCfg { ip, user, pass, db, port }
    }
}

} // verus!
