//! A futex lock word: the top bit is the lock bit, the low 31 bits count
//! the threads that registered in the slow path of `lock`.

use std::sync::atomic::AtomicU32;
use std::sync::atomic::Ordering;
use vstd::prelude::*;

use crate::lock_model::{run_actions, LockModel};

verus! {

/// The lock bit: set while some thread holds the lock.
pub const LOCK_MASK: u32 = 0x8000_0000;

/// The low bits: the number of threads registered as waiting.
pub const WAITER_MASK: u32 = 0x7fff_ffff;

/// The lock bit of `word` is set.
pub open spec fn is_locked(word: u32) -> bool {
    word & LOCK_MASK != 0
}

/// The waiter count held in the low bits of `word`.
pub open spec fn waiter_count(word: u32) -> u32 {
    word & WAITER_MASK
}

/// A `fetch_or(LOCK_MASK)` that returned `prev` took the lock exactly when
/// the lock bit of `prev` was clear.
pub fn took_lock(prev: u32) -> (r: bool)
    ensures
        r == !is_locked(prev),
{
    prev & LOCK_MASK == 0
}

/// After a failed attempt, a loaded word `loaded` is worth sleeping on only
/// while its lock bit is set; otherwise the waiter retries at once.
pub fn sleep_target(loaded: u32) -> (r: Option<u32>)
    ensures
        r == (if is_locked(loaded) {
            Some(loaded)
        } else {
            None::<u32>
        }),
{
    if loaded & LOCK_MASK == 0 {
        None
    } else {
        Some(loaded)
    }
}

/// An unlock whose `fetch_and(!LOCK_MASK)` returned `prev` must wake a
/// waiter exactly when `prev` counted some.
pub fn must_wake(prev: u32) -> (r: bool)
    ensures
        r == (waiter_count(prev) != 0),
{
    proof {
        assert(!LOCK_MASK == WAITER_MASK) by (bit_vector);
    }
    prev & !LOCK_MASK != 0
}

/// What one round of the slow path of `lock` decided.
#[derive(PartialEq, Eq, Structural, Debug)]
pub enum ContendedStep {
    /// The lock was taken and the caller removed from the waiter count.
    Acquired,
    /// The lock bit was seen clear after the failed attempt: try again.
    Retry,
    /// The lock is held: sleep on the futex word while it still holds this value.
    Sleep(u32),
}

/// What a round of the slow path does after a failed attempt, given the
/// word it then loaded.
pub open spec fn step_after_load(loaded: u32) -> ContendedStep {
    if is_locked(loaded) {
        ContendedStep::Sleep(loaded)
    } else {
        ContendedStep::Retry
    }
}

/// The outcome of the fast path: the word the `fetch_or` saw, and whether
/// the call took the lock.
pub struct LockAttempt {
    pub observed: u32,
    pub acquired: bool,
}

/// The outcome of a round of the slow path: the word its `fetch_or` saw,
/// the word it loaded after a failed attempt, and what it decided.
pub struct ContendedRound {
    pub observed: u32,
    pub loaded: Option<u32>,
    pub step: ContendedStep,
}

/// The outcome of an unlock: the word its `fetch_and` saw, and whether a
/// waiter must be woken.
pub struct Release {
    pub observed: u32,
    pub wake: bool,
}

/// The lock word of a futex lock. Callers that sleep and wake through the
/// futex system call use `futex_word` as the address; the word must then
/// stay in place, which the caller ensures by pinning it. The word's value
/// depends on other threads, so the methods claim nothing of it: each hands
/// back the values its atomic operations saw and states what it decided
/// from them; the protocol as a whole is `FutexLockModel` below.
pub struct FutexLock {
    fword: AtomicU32,
}

impl FutexLock {
    /// The atomic word of this lock.
    pub closed spec fn word(&self) -> &AtomicU32 {
        &self.fword
    }

    /// A lock word that is unlocked and counts no waiters: the atomic is made
    /// holding 0. What it holds changes with the threads that use it, so
    /// nothing is claimed of it; `FutexLockModel::initial` is this state in
    /// the model.
    pub fn new() -> (r: Self) {
        FutexLock { fword: AtomicU32::new(0) }
    }

    /// The atomic word that the futex system calls take as their address:
    /// this lock's own word.
    pub fn futex_word(&self) -> (r: &AtomicU32)
        ensures
            r == self.word(),
    {
        &self.fword
    }

    /// The fast path of `lock`: set the lock bit; the call took the lock
    /// exactly when the word it saw had the lock bit clear.
    pub fn try_acquire(&self) -> (r: LockAttempt)
        ensures
            r.acquired == !is_locked(r.observed),
    {
        let prev = self.fword.fetch_or(LOCK_MASK, Ordering::AcqRel);
        LockAttempt { observed: prev, acquired: took_lock(prev) }
    }

    /// Enter the slow path: count the caller as a waiter.
    pub fn register_waiter(&self) {
        self.fword.fetch_add(1, Ordering::Relaxed);
    }

    /// One round of the slow path: try to set the lock bit; on success leave
    /// the waiter count, else look at the word to decide between retrying at
    /// once and sleeping on the value seen.
    pub fn contended_step(&self) -> (r: ContendedRound)
        ensures
            !is_locked(r.observed) ==> r.loaded is None && r.step == ContendedStep::Acquired,
            is_locked(r.observed) ==> r.loaded is Some && r.step == step_after_load(
                r.loaded->Some_0,
            ),
            r.step matches ContendedStep::Sleep(expected) ==> is_locked(expected),
    {
        let prev = self.fword.fetch_or(LOCK_MASK, Ordering::AcqRel);
        if took_lock(prev) {
            self.fword.fetch_sub(1, Ordering::Relaxed);
            return ContendedRound { observed: prev, loaded: None, step: ContendedStep::Acquired };
        }
        let loaded = self.fword.load(Ordering::Relaxed);
        let step = match sleep_target(loaded) {
            Some(expected) => ContendedStep::Sleep(expected),
            None => ContendedStep::Retry,
        };
        ContendedRound { observed: prev, loaded: Some(loaded), step }
    }

    /// Clear the lock bit; a waiter must be woken exactly when the word it
    /// saw counted some.
    pub fn unlock(&self) -> (r: Release)
        ensures
            r.wake == (waiter_count(r.observed) != 0),
    {
        let prev = self.fword.fetch_and(!LOCK_MASK, Ordering::AcqRel);
        Release { observed: prev, wake: must_wake(prev) }
    }
}

/// The effect of `fetch_or(LOCK_MASK)` on the word: the lock bit is set and
/// the waiter count kept.
pub proof fn lemma_set_lock_bit(w: u32)
    ensures
        is_locked(w | LOCK_MASK),
        waiter_count(w | LOCK_MASK) == waiter_count(w),
        is_locked(w) ==> (w | LOCK_MASK) == w,
{
    assert(is_locked(w | LOCK_MASK)) by (bit_vector);
    assert(waiter_count(w | LOCK_MASK) == waiter_count(w)) by (bit_vector);
    assert(is_locked(w) ==> (w | LOCK_MASK) == w) by (bit_vector);
}

/// The effect of `fetch_and(!LOCK_MASK)` on the word: the lock bit is
/// cleared and the waiter count kept.
pub proof fn lemma_clear_lock_bit(w: u32)
    ensures
        !is_locked(w & !LOCK_MASK),
        waiter_count(w & !LOCK_MASK) == waiter_count(w),
{
    assert(!is_locked(w & !LOCK_MASK)) by (bit_vector);
    assert(waiter_count(w & !LOCK_MASK) == waiter_count(w)) by (bit_vector);
}

/// The effect of `fetch_add(1)` while the count is below its maximum: one
/// more waiter, the lock bit unchanged, and no wrap-around.
pub proof fn lemma_add_waiter(w: u32)
    requires
        waiter_count(w) < WAITER_MASK,
    ensures
        w + 1 <= u32::MAX,
        is_locked((w + 1) as u32) == is_locked(w),
        waiter_count((w + 1) as u32) == waiter_count(w) + 1,
{
    assert(w + 1 <= u32::MAX) by (bit_vector)
        requires
            w & WAITER_MASK < WAITER_MASK,
    ;
    assert(is_locked((w + 1) as u32) == is_locked(w)) by (bit_vector)
        requires
            w & WAITER_MASK < WAITER_MASK,
    ;
    assert(waiter_count((w + 1) as u32) == waiter_count(w) + 1) by (bit_vector)
        requires
            w & WAITER_MASK < WAITER_MASK,
    ;
}

/// The effect of `fetch_sub(1)` while some waiter is counted: one waiter
/// fewer and the lock bit unchanged.
pub proof fn lemma_remove_waiter(w: u32)
    requires
        waiter_count(w) > 0,
    ensures
        w >= 1,
        is_locked((w - 1) as u32) == is_locked(w),
        waiter_count((w - 1) as u32) == waiter_count(w) - 1,
{
    assert(w >= 1) by (bit_vector)
        requires
            w & WAITER_MASK > 0,
    ;
    assert(is_locked((w - 1) as u32) == is_locked(w)) by (bit_vector)
        requires
            w & WAITER_MASK > 0,
    ;
    assert(waiter_count((w - 1) as u32) == waiter_count(w) - 1) by (bit_vector)
        requires
            w & WAITER_MASK > 0,
    ;
}

/// The lock word together with how many threads stand at each point of
/// `lock` and `unlock`. Threads are counted, not named: the protocol treats
/// them alike.
pub struct FutexLockModel {
    pub word: u32,
    /// Threads that returned from `lock` and have not unlocked.
    pub holding: nat,
    /// Threads that took the lock in the slow path and are still counted as
    /// waiters (between their successful `fetch_or` and their `fetch_sub`).
    pub deregistering: nat,
    /// Registered waiters that are running.
    pub awake: nat,
    /// Registered waiters asleep in the futex wait.
    pub sleeping: nat,
    /// Unlocking threads that saw waiters and have yet to call the futex wake.
    pub waking: nat,
}

/// One atomic action of one thread.
pub enum FutexLockAction {
    /// `try_acquire` by a thread outside the lock.
    FastAttempt,
    /// `register_waiter` after a failed fast attempt.
    Register,
    /// The `fetch_or` of `contended_step` by an awake waiter.
    ContendedAttempt,
    /// The `fetch_sub` of `contended_step` after a successful attempt.
    Deregister,
    /// The futex wait on a word that held the given value when loaded.
    Sleep(u32),
    /// A sleeper returns without being woken.
    SpuriousWake,
    /// The `fetch_and` of `unlock`.
    Unlock,
    /// The futex wake that follows an `unlock` that reported waiters.
    Wake,
}

impl LockModel for FutexLockModel {
    type Action = FutexLockAction;

    /// The threads that own the lock: they returned from `lock`, or took the
    /// lock bit and are finishing `lock`.
    open spec fn owners(self) -> nat {
        self.holding + self.deregistering
    }

    /// The state after `FutexLock::new`: no thread anywhere.
    open spec fn initial() -> Self {
        FutexLockModel { word: 0, holding: 0, deregistering: 0, awake: 0, sleeping: 0, waking: 0 }
    }

    /// The invariant: at most one owner, the lock bit set exactly when there
    /// is one, the waiter count equal to the registered threads, and a
    /// sleeper only while the lock is held or someone will wake it or an
    /// awake waiter will see the word change.
    open spec fn inv(self) -> bool {
        &&& self.holding + self.deregistering <= 1
        &&& (is_locked(self.word) <==> self.holding + self.deregistering == 1)
        &&& waiter_count(self.word) == self.deregistering + self.awake + self.sleeping
        &&& (self.sleeping > 0 ==> (is_locked(self.word) || self.awake > 0 || self.waking > 0))
    }

    /// Whether `action` can happen now.
    open spec fn enabled(self, action: FutexLockAction) -> bool {
        match action {
            FutexLockAction::FastAttempt => true,
            FutexLockAction::Register => waiter_count(self.word) < WAITER_MASK,
            FutexLockAction::ContendedAttempt => self.awake > 0,
            FutexLockAction::Deregister => self.deregistering > 0,
            FutexLockAction::Sleep(expected) => self.awake > 0 && is_locked(expected),
            FutexLockAction::SpuriousWake => self.sleeping > 0,
            FutexLockAction::Unlock => self.holding > 0,
            FutexLockAction::Wake => self.waking > 0,
        }
    }

    /// The state after `action`.
    open spec fn next(self, action: FutexLockAction) -> Self {
        match action {
            FutexLockAction::FastAttempt => {
                if is_locked(self.word) {
                    self
                } else {
                    FutexLockModel { word: self.word | LOCK_MASK, holding: self.holding + 1, ..self }
                }
            },
            FutexLockAction::Register => {
                FutexLockModel { word: (self.word + 1) as u32, awake: self.awake + 1, ..self }
            },
            FutexLockAction::ContendedAttempt => {
                if is_locked(self.word) {
                    self
                } else {
                    FutexLockModel {
                        word: self.word | LOCK_MASK,
                        awake: (self.awake - 1) as nat,
                        deregistering: self.deregistering + 1,
                        ..self
                    }
                }
            },
            FutexLockAction::Deregister => {
                FutexLockModel {
                    word: (self.word - 1) as u32,
                    deregistering: (self.deregistering - 1) as nat,
                    holding: self.holding + 1,
                    ..self
                }
            },
            FutexLockAction::Sleep(expected) => {
                if self.word == expected {
                    FutexLockModel {
                        awake: (self.awake - 1) as nat,
                        sleeping: self.sleeping + 1,
                        ..self
                    }
                } else {
                    self
                }
            },
            FutexLockAction::SpuriousWake => {
                FutexLockModel {
                    sleeping: (self.sleeping - 1) as nat,
                    awake: self.awake + 1,
                    ..self
                }
            },
            FutexLockAction::Unlock => {
                FutexLockModel {
                    word: self.word & !LOCK_MASK,
                    holding: (self.holding - 1) as nat,
                    waking: if waiter_count(self.word) != 0 {
                        self.waking + 1
                    } else {
                        self.waking
                    },
                    ..self
                }
            },
            FutexLockAction::Wake => {
                if self.sleeping > 0 {
                    FutexLockModel {
                        waking: (self.waking - 1) as nat,
                        sleeping: (self.sleeping - 1) as nat,
                        awake: self.awake + 1,
                        ..self
                    }
                } else {
                    FutexLockModel { waking: (self.waking - 1) as nat, ..self }
                }
            },
        }
    }

    /// A new lock word satisfies the invariant.
    proof fn lemma_initial_inv() {
        assert(0u32 & LOCK_MASK == 0) by (bit_vector);
        assert(0u32 & WAITER_MASK == 0) by (bit_vector);
    }

    /// Every enabled action keeps the invariant, so in every reachable state
    /// at most one thread owns the lock and the waiter count is exact.
    proof fn lemma_action_keeps_inv(s: Self, action: FutexLockAction) {
        lemma_set_lock_bit(s.word);
        lemma_clear_lock_bit(s.word);
        match action {
            FutexLockAction::Register => {
                lemma_add_waiter(s.word);
            },
            FutexLockAction::Deregister => {
                lemma_remove_waiter(s.word);
            },
            _ => {},
        }
    }

    proof fn lemma_inv_exclusive(s: Self) {
    }
}

/// No lost wake-up: an unlock that reports no waiters leaves no thread in
/// the slow path, neither awake nor asleep.
pub proof fn lemma_unlock_without_wake(s: FutexLockModel)
    requires
        s.inv(),
        s.enabled(FutexLockAction::Unlock),
        waiter_count(s.word) == 0,
    ensures
        s.awake == 0,
        s.sleeping == 0,
        s.next(FutexLockAction::Unlock).waking == s.waking,
{
}

/// Progress: from a state with no owner in which some registered waiter is
/// awake or asleep, some sequence of enabled actions makes one of them take
/// the lock bit: an awake one takes the free word at its next attempt, and
/// when all are asleep a wake is on its way that rouses one of them first.
pub proof fn lemma_waiter_can_take_free_lock(s: FutexLockModel)
    requires
        s.inv(),
        s.owners() == 0,
        s.awake + s.sleeping > 0,
    ensures
        exists|actions: Seq<FutexLockAction>|
            #[trigger] run_actions(s, actions) matches Some(t) && t.owners() == 1,
{
    reveal_with_fuel(run_actions, 3);
    lemma_set_lock_bit(s.word);
    let attempt = seq![FutexLockAction::ContendedAttempt];
    assert(attempt.drop_last() =~= Seq::<FutexLockAction>::empty());
    if s.awake > 0 {
        assert(run_actions(s, attempt) matches Some(t) && t.owners() == 1);
    } else {
        let both = seq![FutexLockAction::Wake, FutexLockAction::ContendedAttempt];
        assert(both.drop_last() =~= seq![FutexLockAction::Wake]);
        assert(seq![FutexLockAction::Wake].drop_last() =~= Seq::<FutexLockAction>::empty());
        assert(run_actions(s, both) matches Some(t) && t.owners() == 1);
    }
}

/// The fast attempt changes the word only by setting the lock bit: the word
/// after it is the word before with the lock bit set, so every registered
/// waiter stays counted; it takes the lock exactly when the bit was clear.
pub proof fn lemma_fast_attempt_sets_only_lock_bit(s: FutexLockModel)
    ensures
        s.next(FutexLockAction::FastAttempt).word == s.word | LOCK_MASK,
        is_locked(s.next(FutexLockAction::FastAttempt).word),
        waiter_count(s.next(FutexLockAction::FastAttempt).word) == waiter_count(s.word),
        s.next(FutexLockAction::FastAttempt).owners() == (if is_locked(s.word) {
            s.owners()
        } else {
            s.owners() + 1
        }),
{
    lemma_set_lock_bit(s.word);
}

/// Unlock clears only the lock bit: the word after it is the word before
/// with the lock bit cleared, so every registered waiter stays counted, and
/// a wake is owed exactly when that count is not zero.
pub proof fn lemma_unlock_clears_only_lock_bit(s: FutexLockModel)
    requires
        s.enabled(FutexLockAction::Unlock),
    ensures
        s.next(FutexLockAction::Unlock).word == s.word & !LOCK_MASK,
        !is_locked(s.next(FutexLockAction::Unlock).word),
        waiter_count(s.next(FutexLockAction::Unlock).word) == waiter_count(s.word),
        s.next(FutexLockAction::Unlock).waking == s.waking + (if waiter_count(s.word) != 0 {
            1nat
        } else {
            0nat
        }),
{
    lemma_clear_lock_bit(s.word);
}

/// A waiter that registers while the lock is held is woken by the unlock,
/// whatever fast attempts other threads make in between: with the lock held,
/// registering counts the waiter, a fast attempt changes nothing, and the
/// unlock then owes a wake.
pub proof fn lemma_registered_waiter_is_woken(s: FutexLockModel)
    requires
        s.inv(),
        s.holding == 1,
        s.enabled(FutexLockAction::Register),
    ensures
        s.next(FutexLockAction::Register).next(FutexLockAction::FastAttempt) == s.next(
            FutexLockAction::Register,
        ),
        waiter_count(s.next(FutexLockAction::Register).word) > 0,
        s.next(FutexLockAction::Register).next(FutexLockAction::Unlock).waking == s.waking + 1,
{
    lemma_add_waiter(s.word);
    let t = s.next(FutexLockAction::Register);
    lemma_set_lock_bit(t.word);
}

} // verus!
