use simple_locks::semaphore::Semaphore;

#[test]
fn semaphore_wait_takes_permits_until_none() {
    let mut s = Semaphore::new(2);
    assert!(s.try_wait());
    assert_eq!(s.permits(), 1);
    assert!(s.try_wait());
    assert_eq!(s.permits(), 0);
    assert!(!s.try_wait());
    assert_eq!(s.permits(), 0);
}

#[test]
fn semaphore_negative_start_blocks_until_enough_posts() {
    let mut s = Semaphore::new(-2);
    assert!(!s.try_wait());
    s.post();
    s.post();
    assert_eq!(s.permits(), 0);
    assert!(!s.try_wait());
    s.post();
    assert!(s.try_wait());
    assert_eq!(s.permits(), 0);
}

#[test]
fn semaphore_wait_undoes_post() {
    let mut s = Semaphore::new(3);
    s.post();
    assert_eq!(s.permits(), 4);
    assert!(s.try_wait());
    assert_eq!(s.permits(), 3);
}

#[test]
fn semaphore_post_up_to_max() {
    let mut s = Semaphore::new(i32::MAX - 1);
    s.post();
    assert_eq!(s.permits(), i32::MAX);
    assert!(s.try_wait());
    assert_eq!(s.permits(), i32::MAX - 1);
}
