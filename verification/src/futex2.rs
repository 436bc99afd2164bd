//! A three-state futex lock word: unlocked, locked, or locked with threads
//! that may be asleep on it.

use std::sync::atomic::AtomicU32;
use std::sync::atomic::Ordering;
use vstd::prelude::*;

use crate::lock_model::{run_actions, LockModel};

use crate::atomic_word::compare_exchange_u32;

verus! {

/// No thread holds the lock.
pub const UNLOCKED: u32 = 0;

/// A thread holds the lock and no other thread has marked it contended.
pub const LOCKED: u32 = 1;

/// A thread holds the lock and others may be asleep waiting for it.
pub const CONTENDED: u32 = 2;

/// A `swap(CONTENDED)` that returned `prev` took the lock exactly when the
/// lock was free.
pub fn took_lock(prev: u32) -> (r: bool)
    ensures
        r == (prev == UNLOCKED),
{
    prev == UNLOCKED
}

/// An unlock whose `swap(UNLOCKED)` returned `prev` must wake a sleeper
/// exactly when the lock had been marked contended.
pub fn must_wake(prev: u32) -> (r: bool)
    ensures
        r == (prev == CONTENDED),
{
    prev == CONTENDED
}

/// The outcome of the fast path: what the compare-and-swap from unlocked to
/// locked returned, and whether the call took the lock.
pub struct LockAttempt {
    pub observed: Result<u32, u32>,
    pub acquired: bool,
}

/// The outcome of a round of the slow path: the word its
/// `swap(CONTENDED)` saw, and `None` when the call took the lock or
/// `Some(v)` when it must sleep while the word holds `v`.
pub struct ContendedRound {
    pub observed: u32,
    pub sleep_on: Option<u32>,
}

/// The outcome of an unlock: the word its `swap(UNLOCKED)` saw, and whether
/// a sleeper must be woken.
pub struct Release {
    pub observed: u32,
    pub wake: bool,
}

/// The lock word of a three-state futex lock. Callers that sleep and wake
/// through the futex system call use `futex_word` as the address and keep
/// the word in place (the caller boxes it). The word's value depends on
/// other threads, so the methods claim nothing of it: each hands back the
/// value its atomic operation saw and states what it decided from it; the
/// protocol as a whole is `Futex2Model` below.
pub struct FutexLock {
    fword: AtomicU32,
}

impl FutexLock {
    /// The atomic word of this lock.
    pub closed spec fn word(&self) -> &AtomicU32 {
        &self.fword
    }

    /// An unlocked lock word: the atomic is made holding `UNLOCKED`. What it
    /// holds changes with the threads that use it, so nothing is claimed of
    /// it; `Futex2Model::initial` is this state in the model.
    pub fn new() -> (r: Self) {
        FutexLock { fword: AtomicU32::new(UNLOCKED) }
    }

    /// The atomic word that the futex system calls take as their address:
    /// this lock's own word.
    pub fn futex_word(&self) -> (r: &AtomicU32)
        ensures
            r == self.word(),
    {
        &self.fword
    }

    /// The fast path of `lock`: move the word from unlocked to locked.
    pub fn try_acquire(&self) -> (r: LockAttempt)
        ensures
            r.acquired == r.observed is Ok,
            r.observed matches Ok(prev) ==> prev == UNLOCKED,
            r.observed matches Err(prev) ==> prev != UNLOCKED,
    {
        let observed = compare_exchange_u32(
            &self.fword,
            UNLOCKED,
            LOCKED,
            Ordering::Relaxed,
            Ordering::Relaxed,
        );
        let acquired = observed.is_ok();
        LockAttempt { observed, acquired }
    }

    /// One round of the slow path: mark the lock contended and take it if the
    /// word seen was unlocked; otherwise sleep while the word stays contended.
    pub fn contended_step(&self) -> (r: ContendedRound)
        ensures
            r.sleep_on == (if r.observed == UNLOCKED {
                None::<u32>
            } else {
                Some(CONTENDED)
            }),
    {
        let prev = self.fword.swap(CONTENDED, Ordering::Relaxed);
        let sleep_on = if took_lock(prev) {
            None
        } else {
            Some(CONTENDED)
        };
        ContendedRound { observed: prev, sleep_on }
    }

    /// Release the lock; a sleeper must be woken exactly when the word seen
    /// was contended.
    pub fn unlock(&self) -> (r: Release)
        ensures
            r.wake == (r.observed == CONTENDED),
    {
        let prev = self.fword.swap(UNLOCKED, Ordering::Relaxed);
        Release { observed: prev, wake: must_wake(prev) }
    }
}

/// The lock word together with how many threads stand at each point of
/// `lock` and `unlock`.
pub struct Futex2Model {
    pub word: u32,
    /// Threads that returned from `lock` and have not unlocked.
    pub holding: nat,
    /// Threads in the slow path of `lock` that are running.
    pub awake: nat,
    /// Threads in the slow path asleep in the futex wait.
    pub sleeping: nat,
    /// Unlocking threads that saw the word contended and have yet to call
    /// the futex wake.
    pub waking: nat,
}

/// One atomic action of one thread.
pub enum Futex2Action {
    /// `try_acquire` by a thread outside the lock; on failure it enters the
    /// slow path.
    FastAttempt,
    /// The `swap(CONTENDED)` of `contended_step` by an awake thread.
    ContendedAttempt,
    /// The futex wait on `CONTENDED`.
    Sleep,
    /// A sleeper returns without being woken.
    SpuriousWake,
    /// The `swap(UNLOCKED)` of `unlock`.
    Unlock,
    /// The futex wake that follows an `unlock` of a contended word.
    Wake,
}

impl LockModel for Futex2Model {
    type Action = Futex2Action;

    /// The threads that own the lock.
    open spec fn owners(self) -> nat {
        self.holding
    }

    /// The state after `FutexLock::new`: no thread anywhere.
    open spec fn initial() -> Self {
        Futex2Model { word: UNLOCKED, holding: 0, awake: 0, sleeping: 0, waking: 0 }
    }

    /// The invariant: the word holds one of the three states, it is other
    /// than unlocked exactly when one thread owns the lock, and a sleeper
    /// exists only while the word says contended, or a thread of the slow
    /// path is awake, or a wake is on its way.
    open spec fn inv(self) -> bool {
        &&& self.holding <= 1
        &&& (self.word == UNLOCKED || self.word == LOCKED || self.word == CONTENDED)
        &&& (self.word != UNLOCKED <==> self.holding == 1)
        &&& (self.sleeping > 0 ==> (self.word == CONTENDED || self.awake > 0 || self.waking > 0))
    }

    /// Whether `action` can happen now.
    open spec fn enabled(self, action: Futex2Action) -> bool {
        match action {
            Futex2Action::FastAttempt => true,
            Futex2Action::ContendedAttempt => self.awake > 0,
            Futex2Action::Sleep => self.awake > 0,
            Futex2Action::SpuriousWake => self.sleeping > 0,
            Futex2Action::Unlock => self.holding > 0,
            Futex2Action::Wake => self.waking > 0,
        }
    }

    /// The state after `action`.
    open spec fn next(self, action: Futex2Action) -> Self {
        match action {
            Futex2Action::FastAttempt => {
                if self.word == UNLOCKED {
                    Futex2Model { word: LOCKED, holding: self.holding + 1, ..self }
                } else {
                    Futex2Model { awake: self.awake + 1, ..self }
                }
            },
            Futex2Action::ContendedAttempt => {
                if self.word == UNLOCKED {
                    Futex2Model {
                        word: CONTENDED,
                        awake: (self.awake - 1) as nat,
                        holding: self.holding + 1,
                        ..self
                    }
                } else {
                    Futex2Model { word: CONTENDED, ..self }
                }
            },
            Futex2Action::Sleep => {
                if self.word == CONTENDED {
                    Futex2Model {
                        awake: (self.awake - 1) as nat,
                        sleeping: self.sleeping + 1,
                        ..self
                    }
                } else {
                    self
                }
            },
            Futex2Action::SpuriousWake => {
                Futex2Model {
                    sleeping: (self.sleeping - 1) as nat,
                    awake: self.awake + 1,
                    ..self
                }
            },
            Futex2Action::Unlock => {
                Futex2Model {
                    word: UNLOCKED,
                    holding: (self.holding - 1) as nat,
                    waking: if self.word == CONTENDED {
                        self.waking + 1
                    } else {
                        self.waking
                    },
                    ..self
                }
            },
            Futex2Action::Wake => {
                if self.sleeping > 0 {
                    Futex2Model {
                        waking: (self.waking - 1) as nat,
                        sleeping: (self.sleeping - 1) as nat,
                        awake: self.awake + 1,
                        ..self
                    }
                } else {
                    Futex2Model { waking: (self.waking - 1) as nat, ..self }
                }
            },
        }
    }

    /// A new lock word satisfies the invariant.
    proof fn lemma_initial_inv() {
    }

    /// Every enabled action keeps the invariant, so in every reachable state
    /// at most one thread owns the lock.
    proof fn lemma_action_keeps_inv(s: Self, action: Futex2Action) {
    }

    proof fn lemma_inv_exclusive(s: Self) {
    }
}

/// No lost wake-up: an unlock that wakes nobody leaves every sleeper with
/// an awake thread of the slow path, which will mark the word contended,
/// or with a wake already on its way.
pub proof fn lemma_unlock_without_wake(s: Futex2Model)
    requires
        s.inv(),
        s.enabled(Futex2Action::Unlock),
        s.word != CONTENDED,
    ensures
        s.next(Futex2Action::Unlock).sleeping > 0 ==> (s.awake > 0 || s.waking > 0),
{
}

/// Progress: from a state with no owner in which some thread is in the slow
/// path of `lock` (awake or asleep), some sequence of enabled actions makes
/// one of those threads the owner: an awake one takes the free word at its
/// next attempt, and when all are asleep a wake is on its way that rouses
/// one of them first.
pub proof fn lemma_waiter_can_take_free_lock(s: Futex2Model)
    requires
        s.inv(),
        s.owners() == 0,
        s.awake + s.sleeping > 0,
    ensures
        exists|actions: Seq<Futex2Action>|
            #[trigger] run_actions(s, actions) matches Some(t) && t.owners() == 1,
{
    reveal_with_fuel(run_actions, 3);
    let attempt = seq![Futex2Action::ContendedAttempt];
    assert(attempt.drop_last() =~= Seq::<Futex2Action>::empty());
    if s.awake > 0 {
        assert(run_actions(s, attempt) matches Some(t) && t.owners() == 1);
    } else {
        let both = seq![Futex2Action::Wake, Futex2Action::ContendedAttempt];
        assert(both.drop_last() =~= seq![Futex2Action::Wake]);
        assert(seq![Futex2Action::Wake].drop_last() =~= Seq::<Futex2Action>::empty());
        assert(run_actions(s, both) matches Some(t) && t.owners() == 1);
    }
}

/// The fast attempt writes `LOCKED` only over an `UNLOCKED` word and
/// otherwise leaves the word as it was, so the word keeps to the three
/// states; it takes the lock exactly when the word was unlocked.
pub proof fn lemma_fast_attempt_writes_only_unlocked(s: Futex2Model)
    ensures
        s.next(Futex2Action::FastAttempt).word == (if s.word == UNLOCKED {
            LOCKED
        } else {
            s.word
        }),
        s.next(Futex2Action::FastAttempt).owners() == (if s.word == UNLOCKED {
            s.owners() + 1
        } else {
            s.owners()
        }),
{
}

/// A thread that marked the word contended while the lock is held is woken
/// by the unlock, whatever fast attempts other threads make in between:
/// those attempts leave the contended word as it is, and the unlock of a
/// contended word owes a wake.
pub proof fn lemma_contended_mark_survives_fast_attempt(s: Futex2Model)
    requires
        s.inv(),
        s.holding == 1,
        s.awake > 0,
    ensures
        s.next(Futex2Action::ContendedAttempt).word == CONTENDED,
        s.next(Futex2Action::ContendedAttempt).next(Futex2Action::FastAttempt).word == CONTENDED,
        s.next(Futex2Action::ContendedAttempt).next(Futex2Action::FastAttempt).next(
            Futex2Action::Unlock,
        ).waking == s.waking + 1,
{
}

} // verus!
