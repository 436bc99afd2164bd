# simple_locks

Spin locks, futex locks, a semaphore and a bounded blocking queue, split in two:

- `src/` is the verified library.
  - Each lock is an atomic lock word with the atomic operations of its
    protocol. The decision functions over the values those operations return
    (`took_lock`, `sleep_target`, `must_wake`, ...) have exact contracts. The
    methods that perform the operations hand back what they observed and
    state what they decided from it. They cannot state what they do to the
    word itself: an atomic's contents are invisible to Verus here.
  - Beside each lock word stands a counting model of the threads that use
    it. In the model, mutual exclusion, the absence of lost wake-ups (for the
    futex locks) and progress of a waiter on a free lock are proved for every
    interleaving. The model is written after the methods' operations;
    nothing in the proofs ties it to the executable methods.
  - The semaphore's count and the queue's buffer are plain values with exact
    contracts and laws: permits are conserved, and items leave in FIFO order
    and never exceed the bound.
- `app/` holds the user-facing types: the data behind an `UnsafeCell`, the
  guards, and the loops that spin, sleep on the futex, or wait on condition
  variables, each round driven by the verified functions.

The models treat atomic operations as sequentially consistent; memory
orderings are not modelled.
