//! A second spin lock word, with the same protocol as `spin_lock`: its
//! actions and their invariant are `spin_lock::SpinLockModel`.

use std::sync::atomic::AtomicBool;
use std::sync::atomic::Ordering;
use vstd::prelude::*;

use crate::atomic_word::compare_exchange_bool;
use crate::spin_lock::FlagAttempt;

verus! {

/// The lock flag of a spin lock. The flag's value depends on other
/// threads, so the methods claim nothing of it: `try_lock` hands back what
/// its compare-and-swap returned and what it decided from it; the protocol is stated by
/// `spin_lock::SpinLockModel`.
pub struct Lock {
    locked: AtomicBool,
}

impl Lock {
    /// An unlocked flag: the atomic is made holding `false`. What it holds
    /// changes with the threads that use it, so nothing is claimed of it;
    /// `SpinLockModel::initial` is this state in the model.
    pub fn new() -> (r: Self) {
        Lock { locked: AtomicBool::new(false) }
    }

    /// One attempt of `lock`: move the flag from clear to set; the call took
    /// the lock exactly when the compare-and-swap succeeded.
    pub fn try_lock(&self) -> (r: FlagAttempt)
        ensures
            r.acquired == r.observed is Ok,
            r.observed == Ok::<bool, bool>(false) || r.observed == Err::<bool, bool>(true),
    {
        let observed = compare_exchange_bool(
            &self.locked,
            false,
            true,
            Ordering::Relaxed,
            Ordering::Relaxed,
        );
        let acquired = observed.is_ok();
        FlagAttempt { observed, acquired }
    }

    /// Release the lock: clear the flag.
    pub fn unlock(&self) {
        self.locked.store(false, Ordering::Relaxed);
    }
}

} // verus!
