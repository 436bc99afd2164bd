//! A spin lock word: a flag set while some thread holds the lock.

use std::sync::atomic::AtomicBool;
use std::sync::atomic::Ordering;
use vstd::prelude::*;

use crate::lock_model::{run_actions, LockModel};

use crate::atomic_word::compare_exchange_bool;

verus! {

/// The outcome of one attempt to take a spin lock: what the
/// compare-and-swap from clear to set returned, and whether the call took
/// the lock.
pub struct FlagAttempt {
    pub observed: Result<bool, bool>,
    pub acquired: bool,
}

/// The lock flag of a spin lock. The flag's value depends on other
/// threads, so the methods claim nothing of it: `try_lock` hands back what
/// its compare-and-swap returned and what it decided from it; the protocol is stated by
/// `SpinLockModel` below.
pub struct SpinLock {
    locked: AtomicBool,
}

impl SpinLock {
    /// An unlocked flag: the atomic is made holding `false`. What it holds
    /// changes with the threads that use it, so nothing is claimed of it;
    /// `SpinLockModel::initial` is this state in the model.
    pub fn new() -> (r: Self) {
        SpinLock { locked: AtomicBool::new(false) }
    }

    /// One attempt of `lock`: move the flag from clear to set; the call took
    /// the lock exactly when the compare-and-swap succeeded. `lock`
    /// spins on this until it succeeds.
    pub fn try_lock(&self) -> (r: FlagAttempt)
        ensures
            r.acquired == r.observed is Ok,
            r.observed == Ok::<bool, bool>(false) || r.observed == Err::<bool, bool>(true),
    {
        let observed = compare_exchange_bool(
            &self.locked,
            false,
            true,
            Ordering::Relaxed,
            Ordering::Relaxed,
        );
        let acquired = observed.is_ok();
        FlagAttempt { observed, acquired }
    }

    /// Release the lock: clear the flag.
    pub fn unlock(&self) {
        self.locked.store(false, Ordering::Relaxed);
    }
}

/// The flag together with the number of threads holding the lock.
pub struct SpinLockModel {
    pub locked: bool,
    pub holding: nat,
}

/// One atomic action of one thread.
pub enum SpinLockAction {
    /// The compare-and-swap of `try_lock`.
    Attempt,
    /// The store of `unlock` by the holder.
    Release,
}

impl LockModel for SpinLockModel {
    type Action = SpinLockAction;

    /// The threads that own the lock.
    open spec fn owners(self) -> nat {
        self.holding
    }

    /// The state after `new`.
    open spec fn initial() -> Self {
        SpinLockModel { locked: false, holding: 0 }
    }

    /// At most one holder, and the flag is set exactly when there is one.
    open spec fn inv(self) -> bool {
        &&& self.holding <= 1
        &&& (self.locked <==> self.holding == 1)
    }

    /// Whether `action` can happen now: only a holder releases.
    open spec fn enabled(self, action: SpinLockAction) -> bool {
        match action {
            SpinLockAction::Attempt => true,
            SpinLockAction::Release => self.holding > 0,
        }
    }

    /// The state after `action`.
    open spec fn next(self, action: SpinLockAction) -> Self {
        match action {
            SpinLockAction::Attempt => {
                if self.attempt_succeeds() {
                    SpinLockModel { locked: true, holding: self.holding + 1 }
                } else {
                    self
                }
            },
            SpinLockAction::Release => SpinLockModel {
                locked: false,
                holding: (self.holding - 1) as nat,
            },
        }
    }

    /// A new flag satisfies the invariant.
    proof fn lemma_initial_inv() {
    }

    /// Mutual exclusion: every enabled action keeps the invariant, so in every
    /// reachable state at most one thread holds the lock.
    proof fn lemma_action_keeps_inv(s: Self, action: SpinLockAction) {
    }

    proof fn lemma_inv_exclusive(s: Self) {
    }
}

impl SpinLockModel {
    /// Whether `Attempt` now succeeds: the compare-and-swap from clear to
    /// set succeeds exactly when the flag is clear.
    pub open spec fn attempt_succeeds(self) -> bool {
        !self.locked
    }
}

/// While one thread holds the lock, every other attempt fails and changes
/// nothing.
pub proof fn lemma_attempt_while_held(s: SpinLockModel)
    requires
        s.inv(),
        s.holding == 1,
    ensures
        !s.attempt_succeeds(),
        s.next(SpinLockAction::Attempt) == s,
{
}

/// Progress: from a state with no owner, an attempt is enabled and makes
/// its thread the owner.
pub proof fn lemma_free_lock_can_be_taken(s: SpinLockModel)
    requires
        s.inv(),
        s.owners() == 0,
    ensures
        run_actions(s, seq![SpinLockAction::Attempt]) matches Some(t) && t.owners() == 1,
{
    reveal_with_fuel(run_actions, 3);
    assert(seq![SpinLockAction::Attempt].drop_last() =~= Seq::<SpinLockAction>::empty());
}

/// Whatever the flag held, an attempt leaves it set: a failed attempt
/// writes nothing over a set flag, and a successful one sets it. So the
/// owner count grows only from a clear flag.
pub proof fn lemma_attempt_leaves_flag_set(s: SpinLockModel)
    ensures
        s.next(SpinLockAction::Attempt).locked,
        s.next(SpinLockAction::Attempt).holding == (if s.locked {
            s.holding
        } else {
            s.holding + 1
        }),
{
}

/// While one thread holds the lock, any number of further attempts all fail
/// and leave the state as it was: two attempts in a row change nothing.
pub proof fn lemma_attempts_while_held_fail(s: SpinLockModel)
    requires
        s.inv(),
        s.owners() == 1,
    ensures
        !s.attempt_succeeds(),
        !s.next(SpinLockAction::Attempt).attempt_succeeds(),
        s.next(SpinLockAction::Attempt).next(SpinLockAction::Attempt) == s,
{
}

} // verus!
