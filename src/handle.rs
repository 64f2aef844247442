//! The shared handle.
use vstd::prelude::*;
use async_rwlock::{RwLock, RwLockReadGuard, RwLockWriteGuard};
use std::future::Future;
use std::sync::Arc;
use crate::lock::{read_access, same_allocation, take_if_sole, write_access};

verus! {

/// A reference-counted handle to a value behind an asynchronous read-write lock.
///
/// Clones share one allocation; the value is dropped with the last of them.
/// Many read guards or one write guard may be alive at a time. A handle can
/// be sent to and shared with other threads when `T` is `Send` and `Sync`.
#[verifier::reject_recursive_types(T)]
pub struct Handle<T: ?Sized> {
    data: Arc<RwLock<T>>,
}

impl<T> Handle<T> {
    /// The lock object in the allocation that this handle owns a share of.
    pub closed spec fn allocation(&self) -> RwLock<T> {
        *self.data
    }

    /// Whether `self` and `other` refer to one shared allocation.
    pub open spec fn shares(&self, other: &Self) -> bool {
        self.allocation() == other.allocation()
    }

    /// Creates a new handle wrapping `value`.
    pub fn new(value: T) -> (r: Self) {
        Handle { data: Arc::new(RwLock::new(value)) }
    }

    /// Locks the contained value for reading: the future yields once no writer
    /// holds or waits for the lock.
    pub fn read(&self) -> impl Future<Output = RwLockReadGuard<'_, T>> + '_ {
        read_access(&*self.data)
    }

    /// Locks the contained value for writing: the future yields once no other
    /// guard of the lock is alive.
    pub fn write(&self) -> impl Future<Output = RwLockWriteGuard<'_, T>> + '_ {
        write_access(&*self.data)
    }

    /// Takes the value out when this is the only handle to it, else gives the
    /// handle back unchanged.
    pub fn try_unwrap(self) -> (r: Result<T, Self>)
        ensures
            r matches Err(back) ==> back == self,
    {
        match take_if_sole(self.data) {
            Ok(lock) => Ok(lock.into_inner()),
            Err(data) => Err(Handle { data }),
        }
    }

    /// Returns true if the two handles point to the same allocation.
    pub fn ptr_eq(this: &Self, other: &Self) -> (r: bool)
        ensures
            r == this.shares(other),
    {
        same_allocation(&this.data, &other.data)
    }
}

impl<T: ?Sized> Clone for Handle<T> {
    /// Another owner of the same allocation; the value is not touched.
    fn clone(&self) -> (r: Self)
        ensures
            r == *self,
    {
        Handle { data: self.data.clone() }
    }
}

impl<T: Default> Default for Handle<T> {
    /// A new handle wrapping the default value of `T`.
    fn default() -> (r: Self) {
        Self::new(T::default())
    }
}

/// Each handle after the first is a clone of an earlier one, which is what
/// `clone` returns: a handle equal to its source.
pub open spec fn clone_chain<T>(hs: Seq<Handle<T>>) -> bool {
    forall|i: int|
        #![trigger hs[i]]
        0 < i < hs.len() ==> exists|j: int| 0 <= j < i && hs[i] == hs[j]
}

/// Handles obtained from one another by cloning all share one allocation,
/// whichever of the earlier ones each was cloned from, and however many of
/// them were dropped meanwhile.
pub proof fn lemma_clones_share<T>(hs: Seq<Handle<T>>)
    requires
        clone_chain(hs),
    ensures
        forall|i: int, j: int|
            #![trigger hs[i], hs[j]]
            0 <= i < hs.len() && 0 <= j < hs.len() ==> hs[i].shares(&hs[j]),
{
    assert forall|i: int, j: int|
        #![trigger hs[i], hs[j]]
        0 <= i < hs.len() && 0 <= j < hs.len() implies hs[i].shares(&hs[j]) by {
        lemma_clone_of_first(hs, i);
        lemma_clone_of_first(hs, j);
    }
}

/// Each handle of such a sequence is the first one.
proof fn lemma_clone_of_first<T>(hs: Seq<Handle<T>>, k: int)
    requires
        clone_chain(hs),
        0 <= k < hs.len(),
    ensures
        hs[k] == hs[0],
    decreases k,
{
    if k > 0 {
        let j = choose|j: int| 0 <= j < k && hs[k] == hs[j];
        lemma_clone_of_first(hs, j);
    }
}

/// A handle that `try_unwrap` gave back because another owner was alive still
/// shares its allocation with that other owner.
pub proof fn lemma_refused_unwrap_keeps_sharing<T>(h: Handle<T>, kept: Handle<T>, back: Handle<T>)
    requires
        kept == h,
        back == h,
    ensures
        back.shares(&kept),
{
}

/// Sharing an allocation is an equivalence: every handle shares with itself,
/// and the relation is symmetric and transitive.
pub proof fn lemma_shares_equivalence<T>(a: Handle<T>, b: Handle<T>, c: Handle<T>)
    ensures
        a.shares(&a),
        a.shares(&b) ==> b.shares(&a),
        a.shares(&b) && b.shares(&c) ==> a.shares(&c),
{
}

} // verus!
