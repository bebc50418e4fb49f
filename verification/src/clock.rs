//! The process clock: the single place the current time is read. Every
//! state transition takes the time as an argument, so tests can drive the
//! switch with a synthetic clock and the library is verified for every
//! reading this source can produce.

use vstd::prelude::*;

verus! {

/// Relies on chrono's `Utc::now` and `DateTime::timestamp`: the clock's
/// reading as Unix seconds. Nothing is assumed of the value; every caller
/// handles any reading.
#[verifier::external_body]
fn chrono_now_timestamp() -> i64 {
    chrono::Utc::now().timestamp()
}

/// The current time as the switch measures it: Unix seconds, clamped to
/// zero for readings before the epoch, so elapsed-time arithmetic stays in
/// unsigned seconds. No contract can pin a clock reading down; the state
/// transitions are verified for every value this returns.
pub fn current_unix_time() -> u64 {
    let t = chrono_now_timestamp();
    if t < 0 {
        0
    } else {
        t as u64
    }
}

} // verus!
