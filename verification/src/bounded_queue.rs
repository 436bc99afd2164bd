//! The buffer shared by the blocking queue and the channel: a FIFO queue
//! that holds at most as many items as its deque had room for when made.

use std::collections::VecDeque;
use vstd::prelude::*;

verus! {

/// `VecDeque::capacity`: the number of items the deque holds without
/// reallocating. Its documentation promises at least the current length;
/// how much more depends on the allocator, so nothing more is claimed.
#[verifier::external_body]
fn deque_capacity<T>(items: &VecDeque<T>) -> (c: usize)
    ensures
        c >= items@.len(),
{
    items.capacity()
}

/// The queue after a `push` of `value` onto `items` that found room.
pub open spec fn push_spec<T>(items: Seq<T>, value: T) -> Seq<T> {
    items.push(value)
}

/// What a `pop` from `items` returns, and the queue it leaves.
pub open spec fn pop_spec<T>(items: Seq<T>) -> (Option<T>, Seq<T>) {
    if items.len() == 0 {
        (None, items)
    } else {
        (Some(items[0]), items.drop_first())
    }
}

/// A bounded FIFO queue: items leave in the order they came, and never
/// more than `bound()` of them are held.
#[derive(Debug)]
pub struct BoundedQueue<T> {
    items: VecDeque<T>,
    bound: usize,
}

impl<T> View for BoundedQueue<T> {
    type V = Seq<T>;

    closed spec fn view(&self) -> Seq<T> {
        self.items@
    }
}

impl<T> BoundedQueue<T> {
    /// How many items the queue holds at most.
    pub closed spec fn bound(&self) -> nat {
        self.bound as nat
    }

    #[verifier::type_invariant]
    closed spec fn within_bound(&self) -> bool {
        self.items@.len() <= self.bound
    }

    /// A queue over the deque `items`, asked to hold `cap` items, whose deque
    /// reported `capacity`: the bound is that capacity, but never below
    /// `cap`, and the items already held must fit within it.
    pub fn from_deque(items: VecDeque<T>, capacity: usize, cap: usize) -> (r: Self)
        requires
            items@.len() <= (if capacity < cap {
                cap as nat
            } else {
                capacity as nat
            }),
        ensures
            r@ == items@,
            r.bound() == (if capacity < cap {
                cap as nat
            } else {
                capacity as nat
            }),
    {
        let bound = if capacity < cap {
            cap
        } else {
            capacity
        };
        BoundedQueue { items, bound }
    }

    /// An empty queue with room for `cap` items: the bound is the capacity
    /// the deque got for `cap` items (as `from_deque` fixes it), and never
    /// below `cap`.
    pub fn new(cap: usize) -> (r: Self)
        ensures
            r@ == Seq::<T>::empty(),
            r.bound() >= cap,
    {
        let items: VecDeque<T> = VecDeque::with_capacity(cap);
        let capacity = deque_capacity(&items);
        Self::from_deque(items, capacity, cap)
    }

    /// The number of items held.
    pub fn len(&self) -> (r: usize)
        ensures
            r == self@.len(),
            self@.len() <= self.bound(),
    {
        proof {
            use_type_invariant(self);
        }
        self.items.len()
    }

    /// Whether a `push` now would find room.
    pub fn has_room(&self) -> (r: bool)
        ensures
            r == (self@.len() < self.bound()),
            self@.len() <= self.bound(),
    {
        proof {
            use_type_invariant(self);
        }
        self.items.len() < self.bound
    }

    /// Append `value` if there is room; otherwise hand it back and change
    /// nothing (the caller then waits for room).
    pub fn try_push(&mut self, value: T) -> (r: Result<(), T>)
        ensures
            final(self).bound() == old(self).bound(),
            final(self)@.len() <= final(self).bound(),
            old(self)@.len() < old(self).bound() ==> r is Ok && final(self)@ == push_spec(
                old(self)@,
                value,
            ),
            old(self)@.len() >= old(self).bound() ==> r == Err::<(), T>(value) && final(self)@
                == old(self)@,
    {
        proof {
            use_type_invariant(&*self);
        }
        if self.items.len() < self.bound {
            let mut items = VecDeque::new();
            std::mem::swap(&mut items, &mut self.items);
            items.push_back(value);
            self.items = items;
            Ok(())
        } else {
            Err(value)
        }
    }

    /// Remove and return the oldest item, or `None` when the queue is empty
    /// (the caller then waits for an item).
    pub fn try_pop(&mut self) -> (r: Option<T>)
        ensures
            final(self).bound() == old(self).bound(),
            final(self)@.len() <= final(self).bound(),
            (r, final(self)@) == pop_spec(old(self)@),
    {
        proof {
            use_type_invariant(&*self);
        }
        let mut items = VecDeque::new();
        std::mem::swap(&mut items, &mut self.items);
        let r = items.pop_front();
        self.items = items;
        r
    }

    /// The newest item, if any.
    pub fn back(&self) -> (r: Option<&T>)
        ensures
            r == (if self@.len() == 0 {
                None::<&T>
            } else {
                Some(&self@.last())
            }),
    {
        let n = self.items.len();
        if n == 0 {
            None
        } else {
            Some(&self.items[n - 1])
        }
    }
}

impl<T> Default for BoundedQueue<T> {
    /// An empty queue over a deque made by `VecDeque::new`, asked for no
    /// items: its bound is the capacity that deque reports (as `from_deque`
    /// fixes it). For items that take memory that capacity is 0, so every
    /// push finds the queue full.
    fn default() -> (r: Self)
        ensures
            r@ == Seq::<T>::empty(),
    {
        let items: VecDeque<T> = VecDeque::new();
        let capacity = deque_capacity(&items);
        Self::from_deque(items, capacity, 0)
    }
}

/// FIFO: on a queue that is not empty, a `push` and a `pop` commute, so
/// the `pop` returns the oldest item and the new one goes to the back.
pub proof fn lemma_push_pop_commute<T>(items: Seq<T>, value: T)
    requires
        items.len() > 0,
    ensures
        pop_spec(push_spec(items, value)) == (
            pop_spec(items).0,
            push_spec(pop_spec(items).1, value),
        ),
{
    assert(push_spec(items, value).drop_first() =~= push_spec(items.drop_first(), value));
}

/// On an empty queue, a `pop` undoes a `push`: it returns the value pushed
/// and leaves the queue empty.
pub proof fn lemma_pop_undoes_push_on_empty<T>(value: T)
    ensures
        pop_spec(push_spec(Seq::<T>::empty(), value)) == (Some(value), Seq::<T>::empty()),
{
    assert(push_spec(Seq::<T>::empty(), value).drop_first() =~= Seq::<T>::empty());
}

/// An operation on a bounded queue, as a run of them is applied.
pub enum QueueOp<T> {
    /// A `try_push` of the value.
    Push(T),
    /// A `try_pop`.
    Pop,
}

/// Apply `ops` in order to a queue holding `items` with room for `bound`
/// items, as `try_push` and `try_pop` do. The result is the queue left,
/// the items popped in order, and the items accepted by pushes in order.
pub open spec fn run<T>(items: Seq<T>, bound: nat, ops: Seq<QueueOp<T>>) -> (Seq<T>, Seq<T>, Seq<T>)
    decreases ops.len(),
{
    if ops.len() == 0 {
        (items, Seq::<T>::empty(), Seq::<T>::empty())
    } else {
        let (left, popped, accepted) = run(items, bound, ops.drop_last());
        match ops.last() {
            QueueOp::Push(value) => {
                if left.len() < bound {
                    (push_spec(left, value), popped, accepted.push(value))
                } else {
                    (left, popped, accepted)
                }
            },
            QueueOp::Pop => {
                match pop_spec(left).0 {
                    Some(item) => (pop_spec(left).1, popped.push(item), accepted),
                    None => (left, popped, accepted),
                }
            },
        }
    }
}

/// FIFO over any run of pushes and pops: what the queue held, followed by
/// what it accepted, is what came out followed by what is left. So items
/// leave in the order they came, none is lost or made up, and the bound is
/// never exceeded.
pub proof fn lemma_run_is_fifo<T>(items: Seq<T>, bound: nat, ops: Seq<QueueOp<T>>)
    requires
        items.len() <= bound,
    ensures
        items + run(items, bound, ops).2 == run(items, bound, ops).1 + run(items, bound, ops).0,
        run(items, bound, ops).0.len() <= bound,
    decreases ops.len(),
{
    if ops.len() > 0 {
        lemma_run_is_fifo(items, bound, ops.drop_last());
        let (left, popped, accepted) = run(items, bound, ops.drop_last());
        match ops.last() {
            QueueOp::Push(value) => {
                if left.len() < bound {
                    assert(items + accepted.push(value) =~= popped + push_spec(left, value)) by {
                        assert(items + accepted.push(value) =~= (items + accepted).push(value));
                        assert(popped + left.push(value) =~= (popped + left).push(value));
                    }
                }
            },
            QueueOp::Pop => {
                if left.len() > 0 {
                    assert(popped.push(left[0]) + left.drop_first() =~= popped + left);
                }
            },
        }
    }
}

} // verus!
