//! Lock words and queue buffers whose protocols are verified: each lock is
//! an atomic word plus decision functions over the values its atomic
//! operations return, and a counting model of the threads using it in
//! which the lock's safety properties are proved.

pub mod atomic_word;
pub mod futex2;
pub mod lock_model;
pub mod futex_lock;
pub mod sl1;
pub mod spin_lock;
pub mod semaphore;
pub mod bounded_queue;
pub mod futex_call;
