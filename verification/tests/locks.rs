use std::sync::atomic::Ordering;

use simple_locks::futex2;
use simple_locks::futex_call::futex_error_is_fatal;
use simple_locks::futex_lock;
use simple_locks::futex_lock::ContendedStep;
use simple_locks::sl1::Lock;
use simple_locks::spin_lock::SpinLock;

#[test]
fn spin_lock_flag_excludes_second_holder() {
    let lock = SpinLock::new();
    let first = lock.try_lock();
    assert!(first.acquired);
    assert_eq!(first.observed, Ok(false));
    let second = lock.try_lock();
    assert!(!second.acquired);
    assert_eq!(second.observed, Err(true));
    assert!(!lock.try_lock().acquired);
    lock.unlock();
    assert!(lock.try_lock().acquired);
    lock.unlock();
}

#[test]
fn sl1_flag_excludes_second_holder() {
    let lock = Lock::new();
    assert!(lock.try_lock().acquired);
    let second = lock.try_lock();
    assert!(!second.acquired);
    assert_eq!(second.observed, Err(true));
    lock.unlock();
    assert!(lock.try_lock().acquired);
    assert!(!lock.try_lock().acquired);
}

#[test]
fn futex_lock_word_decisions() {
    assert!(futex_lock::took_lock(0));
    assert!(futex_lock::took_lock(7));
    assert!(!futex_lock::took_lock(futex_lock::LOCK_MASK));
    assert!(!futex_lock::took_lock(futex_lock::LOCK_MASK | 3));
    assert_eq!(futex_lock::sleep_target(5), None);
    assert_eq!(
        futex_lock::sleep_target(futex_lock::LOCK_MASK | 5),
        Some(futex_lock::LOCK_MASK | 5)
    );
    assert!(!futex_lock::must_wake(futex_lock::LOCK_MASK));
    assert!(!futex_lock::must_wake(0));
    assert!(futex_lock::must_wake(futex_lock::LOCK_MASK | 1));
    assert!(futex_lock::must_wake(2));
}

#[test]
fn futex_lock_slow_path_round_trip() {
    let lock = futex_lock::FutexLock::new();
    assert_eq!(lock.futex_word().load(Ordering::Relaxed), 0);
    let first = lock.try_acquire();
    assert!(first.acquired);
    assert_eq!(first.observed, 0);
    let second = lock.try_acquire();
    assert!(!second.acquired);
    assert_eq!(second.observed, futex_lock::LOCK_MASK);
    // a second thread registers and finds the lock held with one waiter
    lock.register_waiter();
    let round = lock.contended_step();
    assert_eq!(round.observed, futex_lock::LOCK_MASK | 1);
    assert_eq!(round.loaded, Some(futex_lock::LOCK_MASK | 1));
    assert_eq!(round.step, ContendedStep::Sleep(futex_lock::LOCK_MASK | 1));
    // the holder leaves and must wake the waiter
    let release = lock.unlock();
    assert!(release.wake);
    assert_eq!(release.observed, futex_lock::LOCK_MASK | 1);
    // the waiter takes the lock and leaves the waiter count
    let round = lock.contended_step();
    assert_eq!(round.observed, 1);
    assert_eq!(round.loaded, None);
    assert_eq!(round.step, ContendedStep::Acquired);
    assert_eq!(lock.futex_word().load(Ordering::Relaxed), futex_lock::LOCK_MASK);
    // no waiter is left, so unlock wakes nobody
    let release = lock.unlock();
    assert!(!release.wake);
    assert_eq!(release.observed, futex_lock::LOCK_MASK);
    assert_eq!(lock.futex_word().load(Ordering::Relaxed), 0);
    assert!(lock.try_acquire().acquired);
}

#[test]
fn futex_lock_retry_when_released_between() {
    let lock = futex_lock::FutexLock::new();
    lock.register_waiter();
    // unlocked: the contended attempt takes it at once
    assert_eq!(lock.contended_step().step, ContendedStep::Acquired);
    assert!(!lock.unlock().wake);
}

#[test]
fn futex2_word_decisions() {
    assert!(futex2::took_lock(futex2::UNLOCKED));
    assert!(!futex2::took_lock(futex2::LOCKED));
    assert!(!futex2::took_lock(futex2::CONTENDED));
    assert!(futex2::must_wake(futex2::CONTENDED));
    assert!(!futex2::must_wake(futex2::LOCKED));
    assert!(!futex2::must_wake(futex2::UNLOCKED));
}

#[test]
fn futex2_slow_path_round_trip() {
    let lock = futex2::FutexLock::new();
    assert_eq!(lock.futex_word().load(Ordering::Relaxed), futex2::UNLOCKED);
    let first = lock.try_acquire();
    assert!(first.acquired);
    assert_eq!(first.observed, Ok(futex2::UNLOCKED));
    let second = lock.try_acquire();
    assert!(!second.acquired);
    assert_eq!(second.observed, Err(futex2::LOCKED));
    // a second thread marks the word contended and must sleep on it
    let round = lock.contended_step();
    assert_eq!(round.observed, futex2::LOCKED);
    assert_eq!(round.sleep_on, Some(futex2::CONTENDED));
    assert_eq!(lock.futex_word().load(Ordering::Relaxed), futex2::CONTENDED);
    // the holder sees the contended word and wakes a sleeper
    let release = lock.unlock();
    assert!(release.wake);
    assert_eq!(release.observed, futex2::CONTENDED);
    // the woken thread takes the lock, leaving the word contended
    let round = lock.contended_step();
    assert_eq!(round.observed, futex2::UNLOCKED);
    assert_eq!(round.sleep_on, None);
    assert!(lock.unlock().wake);
    // uncontended lock and unlock wake nobody
    assert!(lock.try_acquire().acquired);
    let release = lock.unlock();
    assert!(!release.wake);
    assert_eq!(release.observed, futex2::LOCKED);
    assert_eq!(lock.futex_word().load(Ordering::Relaxed), futex2::UNLOCKED);
}

#[test]
fn futex_error_judgement() {
    let would_block = 11;
    assert!(!futex_error_is_fatal(0, None, would_block));
    assert!(!futex_error_is_fatal(1, Some(4), would_block));
    assert!(!futex_error_is_fatal(-1, Some(would_block), would_block));
    assert!(futex_error_is_fatal(-1, Some(22), would_block));
    assert!(futex_error_is_fatal(-1, None, would_block));
}
