//! What the balancers use of `std::sync`, with what may be relied on.
//!
//! A lock hides its contents from Verus: another handle may replace
//! them between two calls. So nothing is claimed about what a guard gives
//! access to, only that the access has the type of the guarded value.

use std::sync::Arc;
use std::sync::PoisonError;
use std::sync::RwLock;
use std::sync::RwLockReadGuard;
use std::sync::RwLockWriteGuard;
use vstd::prelude::*;

verus! {

/// `std::sync::RwLock`, opaque.
#[verifier::external_type_specification]
#[verifier::external_body]
#[verifier::reject_recursive_types(T)]
pub struct ExRwLock<T: ?Sized>(RwLock<T>);

/// `std::sync::RwLockReadGuard`, opaque.
#[verifier::external_type_specification]
#[verifier::external_body]
#[verifier::reject_recursive_types(T)]
pub struct ExRwLockReadGuard<'a, T: ?Sized>(RwLockReadGuard<'a, T>);

/// `std::sync::RwLockWriteGuard`, opaque.
#[verifier::external_type_specification]
#[verifier::external_body]
#[verifier::reject_recursive_types(T)]
pub struct ExRwLockWriteGuard<'a, T: ?Sized + 'a>(RwLockWriteGuard<'a, T>);

/// `std::sync::PoisonError`, opaque.
#[verifier::external_type_specification]
#[verifier::external_body]
#[verifier::reject_recursive_types(T)]
pub struct ExPoisonError<T>(PoisonError<T>);

/// `RwLock::new`: a fresh, unlocked lock around `value`.
pub assume_specification<T>[ RwLock::<T>::new ](value: T) -> (lock: RwLock<T>);

/// `RwLock::read`: shared access, or the poison error if a writer panicked.
/// Nothing is said of the outcome. std documents that the call may panic or
/// block forever when the calling thread already holds the lock; the
/// balancers release every guard before they return.
pub assume_specification<'a, T: ?Sized>[ RwLock::<T>::read ](lock: &'a RwLock<T>) -> (outcome:
    Result<RwLockReadGuard<'a, T>, PoisonError<RwLockReadGuard<'a, T>>>);

/// `RwLock::write`: exclusive access, or the poison error if a holder
/// panicked. Nothing is said of the outcome; the remark on `read` about a
/// thread that already holds the lock applies here too.
pub assume_specification<'a, T: ?Sized>[ RwLock::<T>::write ](lock: &'a RwLock<T>) -> (outcome:
    Result<RwLockWriteGuard<'a, T>, PoisonError<RwLockWriteGuard<'a, T>>>);

/// `Deref::deref` of a read guard: the guarded value, for reading.
#[verifier::external_body]
pub(crate) fn shared_ref<'a, 'b, T: ?Sized>(guard: &'b RwLockReadGuard<'a, T>) -> (value: &'b T) {
    &**guard
}

/// `DerefMut::deref_mut` of a write guard: the guarded value, for writing.
#[verifier::external_body]
pub(crate) fn exclusive_ref<'a, 'b, T: ?Sized>(guard: &'b mut RwLockWriteGuard<'a, T>) -> (value:
    &'b mut T) {
    &mut **guard
}

/// `Arc::clone`: another pointer to the same allocation, hence to the same
/// value.
#[verifier::external_body]
pub(crate) fn share<T: ?Sized>(pointer: &Arc<T>) -> (other: Arc<T>)
    ensures
        other == *pointer,
{
    Arc::clone(pointer)
}

} // verus!
