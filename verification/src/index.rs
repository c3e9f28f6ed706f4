//! The index and the handle through which it is shared.
//!
//! The index is opaque here: whatever a build of the root path yields. It is
//! only ever replaced as a whole.

use std::sync::Arc;
use vstd::prelude::*;
use vstd::rwlock::RwLock;

verus! {

/// What the index is once a build has run to its end: the new index where the
/// build succeeded, the one that was there where it failed.
pub open spec fn installed<T, E>(current: T, outcome: Result<T, E>) -> T {
    match outcome {
        Ok(fresh) => fresh,
        Err(_) => current,
    }
}

/// What is reported of a build: nothing on success, the builder's error on
/// failure.
pub open spec fn verdict<T, E>(outcome: Result<T, E>) -> Result<(), E> {
    match outcome {
        Ok(_) => Ok(()),
        Err(error) => Err(error),
    }
}

/// The index after the builds with the outcomes `outcomes`, in order.
pub open spec fn index_after<T, E>(initial: T, outcomes: Seq<Result<T, E>>) -> T
    decreases outcomes.len(),
{
    if outcomes.len() == 0 {
        initial
    } else {
        installed(index_after(initial, outcomes.drop_last()), outcomes.last())
    }
}

/// Settles a build: a successful one replaces the index as a whole, a failed
/// one leaves it as it was and hands the error back.
pub fn install<T, E>(current: T, outcome: Result<T, E>) -> (settled: (T, Result<(), E>))
    ensures
        settled.0 == installed(current, outcome),
        settled.1 == verdict(outcome),
{
    match outcome {
        Ok(fresh) => (fresh, Ok(())),
        Err(error) => (current, Err(error)),
    }
}

/// Whether the build at position `at` succeeded and none after it did.
pub open spec fn is_latest_success<T, E>(outcomes: Seq<Result<T, E>>, at: int) -> bool {
    &&& 0 <= at < outcomes.len()
    &&& outcomes[at] is Ok
    &&& forall|later: int| at < later < outcomes.len() ==> outcomes[later] is Err
}

/// Whatever the builds did, the index is never a mixture: it is what the
/// latest successful build yielded, and the initial index where none
/// succeeded.
pub proof fn lemma_index_is_a_whole_build<T, E>(initial: T, outcomes: Seq<Result<T, E>>)
    ensures
        (forall|at: int| 0 <= at < outcomes.len() ==> outcomes[at] is Err) ==> index_after(
            initial,
            outcomes,
        ) == initial,
        forall|at: int| #[trigger]
            is_latest_success(outcomes, at) ==> index_after(initial, outcomes)
                == outcomes[at]->Ok_0,
    decreases outcomes.len(),
{
    if outcomes.len() > 0 {
        let before = outcomes.drop_last();
        lemma_index_is_a_whole_build(initial, before);
        assert forall|at: int| #[trigger] is_latest_success(outcomes, at) implies index_after(
            initial,
            outcomes,
        ) == outcomes[at]->Ok_0 by {
            if at < outcomes.len() - 1 {
                assert(outcomes.last() is Err);
                assert(is_latest_success(before, at));
            }
        }
    }
}

/// One more build changes the index in one of two ways only: it leaves the
/// index that was there, or puts its own in place.
pub proof fn lemma_build_keeps_or_replaces<T, E>(
    initial: T,
    outcomes: Seq<Result<T, E>>,
    outcome: Result<T, E>,
)
    ensures
        outcome is Err ==> index_after(initial, outcomes.push(outcome)) == index_after(
            initial,
            outcomes,
        ),
        outcome is Ok ==> index_after(initial, outcomes.push(outcome)) == outcome->Ok_0,
{
    assert(outcomes.push(outcome).drop_last() == outcomes);
}

/// A handle to the one index of the process.
///
/// Every handle made by [`SharedIndex::share`] leads to the same index. Any
/// number of readers may look at it at once; a rebuild has it alone.
#[verifier::reject_recursive_types(T)]
pub struct SharedIndex<T> {
    store: Arc<RwLock<T, spec_fn(T) -> bool>>,
}

impl<T> SharedIndex<T> {
    /// The lock that all handles to this index go through.
    pub closed spec fn store(&self) -> RwLock<T, spec_fn(T) -> bool> {
        *self.store
    }

    /// Whether `index` may stand behind this handle.
    pub open spec fn allows(&self, index: T) -> bool {
        self.store().inv(index)
    }

    /// A handle to a new index that starts as `initial` and allows every
    /// index.
    pub fn new(initial: T) -> (handle: Self)
        ensures
            forall|index: T| handle.allows(index),
    {
        SharedIndex::with_invariant(initial, Ghost(|index: T| true))
    }

    /// A handle to a new index that starts as `initial` and allows the
    /// indexes that satisfy `whole`, and no others.
    pub fn with_invariant(initial: T, Ghost(whole): Ghost<spec_fn(T) -> bool>) -> (handle: Self)
        requires
            whole(initial),
        ensures
            forall|index: T| handle.allows(index) == whole(index),
    {
        SharedIndex { store: Arc::new(RwLock::new(initial, Ghost(whole))) }
    }

    /// Another handle to the same index.
    pub fn share(&self) -> (handle: Self)
        ensures
            handle.store() == self.store(),
    {
        SharedIndex { store: self.store.clone() }
    }

    /// Runs `query` on the index under shared access, which is given up as
    /// soon as the query returns. The query meets an index that the handle
    /// allows: the initial one, or one that a build yielded whole.
    pub fn read_with<R, F: FnOnce(&T) -> R>(&self, query: F) -> (answer: R)
        requires
            forall|index: T| self.allows(index) ==> query.requires((&index,)),
        ensures
            exists|index: T| self.allows(index) && query.ensures((&index,), answer),
    {
        let guard = self.store.acquire_read();
        let index = guard.borrow();
        assert(self.allows(*index));
        let answer = query(index);
        guard.release_read();
        answer
    }

    /// Rebuilds the index from `root` under exclusive access, held from
    /// before the build starts until its outcome is settled by [`install`].
    /// Gives the builder's error back where the build failed.
    pub fn rebuild_with<E, F: FnOnce(&str) -> Result<T, E>>(&self, root: &str, build: F) -> (report:
        Result<(), E>)
        requires
            build.requires((root,)),
            forall|fresh: T| build.ensures((root,), Ok(fresh)) ==> self.allows(fresh),
        ensures
            exists|outcome: Result<T, E>|
                build.ensures((root,), outcome) && report == verdict(outcome),
    {
        let (current, guard) = self.store.acquire_write();
        let outcome = build(root);
        let (next, report) = install(current, outcome);
        assert(self.allows(next)) by {
            assert(self.allows(current));
        }
        guard.release_write(next);
        report
    }
}

impl<T> Clone for SharedIndex<T> {
    /// Another handle to the same index.
    fn clone(&self) -> (handle: Self)
        ensures
            handle.store() == self.store(),
    {
        self.share()
    }
}

} // verus!
