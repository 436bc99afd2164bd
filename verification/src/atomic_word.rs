//! The compare-and-swap operations that the locks are built on, with what
//! their documentation promises of the value they return.

use std::sync::atomic::AtomicBool;
use std::sync::atomic::AtomicU32;
use std::sync::atomic::Ordering;
use vstd::prelude::*;

verus! {

/// `AtomicBool::compare_exchange`: stores `new` if the flag holds `current`.
/// As its documentation says, the result is `Ok` of the previous value,
/// which equals `current`, when `new` was written, and `Err` of the previous
/// value otherwise; this (strong) form fails only when that value differs
/// from `current`. Which case happens depends on other threads and is not
/// claimed. The failure ordering may not be `Release` or `AcqRel`: `std`
/// panics on those.
#[verifier::external_body]
pub(crate) fn compare_exchange_bool(
    flag: &AtomicBool,
    current: bool,
    new: bool,
    success: Ordering,
    failure: Ordering,
) -> (r: Result<bool, bool>)
    requires
        !(failure is Release),
        !(failure is AcqRel),
    ensures
        r matches Ok(prev) ==> prev == current,
        r matches Err(prev) ==> prev != current,
{
    flag.compare_exchange(current, new, success, failure)
}

/// `AtomicU32::compare_exchange`: stores `new` if the word holds `current`.
/// As its documentation says, the result is `Ok` of the previous value,
/// which equals `current`, when `new` was written, and `Err` of the previous
/// value otherwise; this (strong) form fails only when that value differs
/// from `current`. Which case happens depends on other threads and is not
/// claimed. The failure ordering may not be `Release` or `AcqRel`: `std`
/// panics on those.
#[verifier::external_body]
pub(crate) fn compare_exchange_u32(
    word: &AtomicU32,
    current: u32,
    new: u32,
    success: Ordering,
    failure: Ordering,
) -> (r: Result<u32, u32>)
    requires
        !(failure is Release),
        !(failure is AcqRel),
    ensures
        r matches Ok(prev) ==> prev == current,
        r matches Err(prev) ==> prev != current,
{
    word.compare_exchange(current, new, success, failure)
}

} // verus!
