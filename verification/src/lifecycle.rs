//! The process-wide engine-library lifecycle: a connection count decides
//! when the one-time initialization and the final teardown run. The caller
//! holds the count under a mutual-exclusion lock and makes the native
//! calls; the decisions are made here.

use vstd::prelude::*;

verus! {

/// Count a newly opened connection: the count grows by one, and the
/// engine library is to be initialized exactly when this was the first
/// connection.
pub fn connect_transition(count: u64) -> (r: (u64, bool))
    requires
        count < 0xffffffffffffffff,
    ensures
        r.0 == count + 1,
        r.1 == (count == 0),
{
    (count + 1, count == 0)
}

/// Count a closed connection: the count shrinks by one, and the engine
/// library is to be torn down exactly when this was the last connection.
pub fn disconnect_transition(count: u64) -> (r: (u64, bool))
    requires
        count > 0,
    ensures
        r.0 == count - 1,
        r.1 == (count == 1),
{
    (count - 1, count == 1)
}

} // verus!
