//! Declarations of the outside types that the models carry, and the calls
//! into outside crates whose results depend on the clock or on chance.

use crate::model::Timestamp;
use chrono::Utc;
use std::sync::atomic::AtomicBool;
use std::sync::Arc;
use uuid::Uuid;
use vstd::prelude::*;

verus! {

/// An identifier of `uuid`; carried and copied unread.
#[verifier::external_type_specification]
#[verifier::external_body]
pub struct ExUuid(Uuid);

/// `Clone` of `uuid::Uuid`, which the `uuid` crate derives on a `Copy` type: the
/// copy is the identifier itself.
pub assume_specification[ <Uuid as Clone>::clone ](id: &Uuid) -> (res: Uuid)
    ensures
        res == *id,
;

/// A JSON document of `serde_json`; carried unread.
#[verifier::external_type_specification]
#[verifier::external_body]
pub struct ExJsonValue(serde_json::Value);

/// `Clone` of `serde_json::Value`, which the `serde_json` crate derives: the copy holds
/// the same document.
pub assume_specification[ <serde_json::Value as Clone>::clone ](value: &serde_json::Value) -> (res: serde_json::Value)
    ensures
        res == *value,
;

/// Calls `std::sync::Arc::clone`, which std documents as making another
/// pointer to the same allocation: the result points to the very flag that
/// `flag` points to. (std aborts the process when the count of pointers would
/// pass `isize::MAX`, a condition on the machine that no argument can express.)
#[verifier::external_body]
pub(crate) fn share_flag(flag: &Arc<AtomicBool>) -> (shared: Arc<AtomicBool>)
    ensures
        shared == *flag,
{
    Arc::clone(flag)
}

/// Calls `chrono::Utc::now`, which reads the system clock, and hands back its
/// whole seconds since the Unix epoch (`timestamp`) and the nanoseconds past
/// that second (`timestamp_subsec_nanos`). `chrono` builds the time from
/// `SystemTime::now().duration_since(UNIX_EPOCH)`: whole seconds since the
/// epoch and the fraction of a second in nanoseconds, which std documents as
/// less than one billion, and `timestamp` and `timestamp_subsec_nanos` give
/// them back. So the result is at or after the epoch with a nanosecond part
/// below one second; which time it is, is not stated: it depends on the clock,
/// and two calls may differ. `chrono` panics when the clock reads a time
/// before the Unix epoch, a condition on the machine that no argument can
/// express.
#[verifier::external_body]
pub(crate) fn current_time() -> (now: Timestamp)
    ensures
        now.seconds >= 0,
        now.nanos < 1_000_000_000,
{
    let now = Utc::now();
    Timestamp { seconds: now.timestamp(), nanos: now.timestamp_subsec_nanos() }
}

/// Calls `uuid::Uuid::new_v4`, which draws a random identifier. Nothing is
/// stated of the result: it depends on chance, and two calls may differ.
/// `uuid` panics when the operating system's random source fails, a condition
/// on the machine that no argument can express.
#[verifier::external_body]
pub(crate) fn fresh_id() -> Uuid {
    Uuid::new_v4()
}

} // verus!
