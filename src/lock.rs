//! The asynchronous read-write lock and the shared allocation that hold a handle's value.
use vstd::prelude::*;
use async_rwlock::{RwLock, RwLockReadGuard, RwLockWriteGuard};
use std::future::Future;
use std::sync::Arc;

verus! {

/// The lock of `async_rwlock`. Verus sees nothing inside it: a value of this
/// type stands for one lock object, whose state and contents change behind it.
#[verifier::external_type_specification]
#[verifier::external_body]
#[verifier::reject_recursive_types(T)]
pub struct ExRwLock<T: ?Sized>(RwLock<T>);

/// Shared access to a lock's value, held until it is dropped.
#[verifier::external_type_specification]
#[verifier::external_body]
#[verifier::reject_recursive_types(T)]
pub struct ExRwLockReadGuard<'a, T: ?Sized>(RwLockReadGuard<'a, T>);

/// Exclusive access to a lock's value, held until it is dropped.
#[verifier::external_type_specification]
#[verifier::external_body]
#[verifier::reject_recursive_types(T)]
pub struct ExRwLockWriteGuard<'a, T: ?Sized>(RwLockWriteGuard<'a, T>);

/// Relies on `async_rwlock::RwLock::read`: a future that, once no writer holds
/// or waits for the lock, counts one more reader and yields a read guard. The
/// lock aborts the process past `isize::MAX` readers at once.
#[verifier::external_body]
pub(crate) fn read_access<T>(lock: &RwLock<T>) -> impl Future<Output = RwLockReadGuard<'_, T>> + '_ {
    lock.read()
}

/// Relies on `async_rwlock::RwLock::write`: a future that, once no reader or
/// writer holds the lock, yields the write guard.
#[verifier::external_body]
pub(crate) fn write_access<T>(lock: &RwLock<T>) -> impl Future<Output = RwLockWriteGuard<'_, T>> + '_ {
    lock.write()
}

/// Relies on `async_rwlock::RwLock::new`: builds an unlocked lock over `t`;
/// it cannot fail.
pub assume_specification<T>[ RwLock::<T>::new ](t: T) -> RwLock<T>;

/// Relies on `async_rwlock::RwLock::into_inner`: takes the value out of a lock
/// that nobody else can reach any more; it cannot fail.
pub assume_specification<T>[ RwLock::<T>::into_inner ](lock: RwLock<T>) -> T;

/// Relies on `Arc::ptr_eq`: true exactly when both point to one allocation.
/// To Verus a shared pointer is the value it points to, and a lock, which is
/// not `Clone` and is never built from another lock, stands for one lock
/// object: two pointers to locks are equal exactly when they share it.
#[verifier::external_body]
pub(crate) fn same_allocation<T>(a: &Arc<RwLock<T>>, b: &Arc<RwLock<T>>) -> (r: bool)
    ensures
        r == (a == b),
{
    Arc::ptr_eq(a, b)
}

/// Relies on `Arc::try_unwrap`: hands out the pointee when this is the only
/// owner at that instant, else gives the same pointer back untouched.
#[verifier::external_body]
pub(crate) fn take_if_sole<T>(a: Arc<RwLock<T>>) -> (r: Result<RwLock<T>, Arc<RwLock<T>>>)
    ensures
        match r {
            Ok(lock) => lock == *a,
            Err(back) => back == a,
        },
{
    Arc::try_unwrap(a)
}

} // verus!
