//! The count of a counting semaphore and the rules by which `wait` and
//! `post` change it. The count may start negative; `wait` blocks while it
//! is not positive.

use vstd::prelude::*;

verus! {

/// The count left after a `wait` that finds `permits`, and whether that
/// `wait` may go on (otherwise it blocks and the count is unchanged).
pub open spec fn wait_step(permits: int) -> (int, bool) {
    if permits > 0 {
        (permits - 1, true)
    } else {
        (permits, false)
    }
}

/// The count left after a `post` that finds `permits`.
pub open spec fn post_step(permits: int) -> int {
    permits + 1
}

/// The count of a semaphore: the state that the semaphore's mutex guards.
pub struct Semaphore {
    permits: i32,
}

impl View for Semaphore {
    type V = int;

    closed spec fn view(&self) -> int {
        self.permits as int
    }
}

impl Semaphore {
    /// A count of `permits`.
    pub fn new(permits: i32) -> (r: Self)
        ensures
            r@ == permits,
    {
        Semaphore { permits }
    }

    /// One round of `wait`: take a permit if there is one. When the result is
    /// `false` the caller must block until a `post` and try again.
    pub fn try_wait(&mut self) -> (took: bool)
        ensures
            (final(self)@, took) == wait_step(old(self)@),
            took == (old(self)@ > 0),
            took ==> final(self)@ == old(self)@ - 1,
            !took ==> final(self)@ == old(self)@,
    {
        if self.permits <= 0 {
            false
        } else {
            self.permits = self.permits - 1;
            true
        }
    }

    /// Return a permit. The count must be below `i32::MAX`: adding one to the
    /// largest count overflows.
    pub fn post(&mut self)
        requires
            old(self)@ < i32::MAX,
        ensures
            final(self)@ == post_step(old(self)@),
            final(self)@ == old(self)@ + 1,
    {
        self.permits = self.permits + 1;
    }

    /// The current count.
    pub fn permits(&self) -> (r: i32)
        ensures
            r == self@,
    {
        self.permits
    }
}

/// A `wait` that goes on leaves a non-negative count, and one that blocks
/// found no positive count: a count that starts non-negative stays so.
pub proof fn lemma_wait_keeps_non_negative(permits: int)
    requires
        permits >= 0,
    ensures
        wait_step(permits).0 >= 0,
        post_step(permits) >= 0,
{
}

/// A `wait` that goes on undoes the `post` before it: from a non-negative
/// count, `post` then `wait` returns to the same count, and the `wait`
/// does not block.
pub proof fn lemma_wait_undoes_post(permits: int)
    requires
        permits >= 0,
    ensures
        wait_step(post_step(permits)) == (permits, true),
{
}

/// A `post` undoes a `wait` that went on.
pub proof fn lemma_post_undoes_wait(permits: int)
    requires
        wait_step(permits).1,
    ensures
        post_step(wait_step(permits).0) == permits,
{
}

/// An operation on a semaphore's count, as a run of them is applied.
pub enum SemaphoreOp {
    /// One round of `wait` (it goes on or blocks).
    Wait,
    /// A `post`.
    Post,
}

/// Apply `ops` in order to a count of `permits`. The result is the count
/// left, the number of posts, and the number of waits that went on.
pub open spec fn run(permits: int, ops: Seq<SemaphoreOp>) -> (int, nat, nat)
    decreases ops.len(),
{
    if ops.len() == 0 {
        (permits, 0, 0)
    } else {
        let (left, posts, taken) = run(permits, ops.drop_last());
        match ops.last() {
            SemaphoreOp::Wait => {
                if wait_step(left).1 {
                    (wait_step(left).0, posts, taken + 1)
                } else {
                    (left, posts, taken)
                }
            },
            SemaphoreOp::Post => (post_step(left), posts + 1, taken),
        }
    }
}

/// Permits are conserved over any run: the count left is the count at the
/// start plus the posts minus the waits that went on; and a count that
/// starts non-negative is never driven below zero.
pub proof fn lemma_run_conserves_permits(permits: int, ops: Seq<SemaphoreOp>)
    ensures
        run(permits, ops).0 == permits + run(permits, ops).1 - run(permits, ops).2,
        permits >= 0 ==> run(permits, ops).0 >= 0,
    decreases ops.len(),
{
    if ops.len() > 0 {
        lemma_run_conserves_permits(permits, ops.drop_last());
    }
}

/// A `wait` goes on exactly on a positive count, taking one permit; on any
/// count that is zero or negative it blocks and leaves the count as it was.
pub proof fn lemma_wait_goes_on_only_on_positive(permits: int)
    ensures
        wait_step(permits).1 <==> permits > 0,
        permits > 0 ==> wait_step(permits).0 == permits - 1,
        permits <= 0 ==> wait_step(permits) == (permits, false),
{
}

/// From a negative start `-k`, `k` posts still leave every `wait` blocked:
/// a `wait` goes on only after more posts than the start lacks.
pub proof fn lemma_negative_start_needs_posts(start: int, posts: nat)
    requires
        start + posts <= 0,
    ensures
        !wait_step(start + posts).1,
        wait_step(start + posts).0 == start + posts,
{
}

} // verus!
