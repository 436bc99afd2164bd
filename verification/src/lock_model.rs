//! What the lock models have in common: a state, the atomic actions of the
//! threads, an invariant that every action keeps, and the owners of the
//! lock; and the law that follows for every interleaving.

use vstd::prelude::*;

verus! {

/// A model of a lock word together with how many threads stand at each
/// point of its protocol.
pub trait LockModel: Sized {
    /// One atomic action of one thread.
    type Action;

    /// The state of a new lock.
    spec fn initial() -> Self;

    /// The invariant of the protocol.
    spec fn inv(self) -> bool;

    /// Whether `action` can happen now.
    spec fn enabled(self, action: Self::Action) -> bool;

    /// The state after `action`.
    spec fn next(self, action: Self::Action) -> Self;

    /// The threads that own the lock.
    spec fn owners(self) -> nat;

    /// A new lock satisfies the invariant.
    proof fn lemma_initial_inv()
        ensures
            Self::initial().inv(),
    ;

    /// Every enabled action keeps the invariant.
    proof fn lemma_action_keeps_inv(s: Self, action: Self::Action)
        requires
            s.inv(),
            s.enabled(action),
        ensures
            s.next(action).inv(),
    ;

    /// The invariant allows at most one owner.
    proof fn lemma_inv_exclusive(s: Self)
        requires
            s.inv(),
        ensures
            s.owners() <= 1,
    ;
}

/// Apply `actions` in order from `s`; `None` when one of them cannot happen
/// at its turn.
pub open spec fn run_actions<M: LockModel>(s: M, actions: Seq<M::Action>) -> Option<M>
    decreases actions.len(),
{
    if actions.len() == 0 {
        Some(s)
    } else {
        match run_actions(s, actions.drop_last()) {
            Some(t) => if t.enabled(actions.last()) {
                Some(t.next(actions.last()))
            } else {
                None
            },
            None => None,
        }
    }
}

/// Mutual exclusion: in every state that a new lock reaches by any
/// interleaving of its threads' actions, the invariant holds, so at most
/// one thread owns the lock.
pub proof fn lemma_reachable_exclusive<M: LockModel>(actions: Seq<M::Action>)
    requires
        run_actions(M::initial(), actions) is Some,
    ensures
        run_actions(M::initial(), actions)->Some_0.inv(),
        run_actions(M::initial(), actions)->Some_0.owners() <= 1,
    decreases actions.len(),
{
    if actions.len() == 0 {
        M::lemma_initial_inv();
    } else {
        lemma_reachable_exclusive::<M>(actions.drop_last());
        let t = run_actions(M::initial(), actions.drop_last())->Some_0;
        M::lemma_action_keeps_inv(t, actions.last());
    }
    M::lemma_inv_exclusive(run_actions(M::initial(), actions)->Some_0);
}

} // verus!
