//! How the result of a futex system call is judged.

use vstd::prelude::*;

verus! {

/// A futex call failed in a way the lock cannot recover from: it returned
/// -1 and the error is other than `would_block` (the error a wait gets when
/// the word no longer holds the expected value, which is no failure).
pub fn futex_error_is_fatal(rc: i64, errno: Option<i32>, would_block: i32) -> (fatal: bool)
    ensures
        fatal == (rc == -1 && errno != Some(would_block)),
{
    if rc == -1 {
        match errno {
            Some(e) => e != would_block,
            None => true,
        }
    } else {
        false
    }
}

} // verus!
