//! Trusted surface over the two `std::sync` collaborators the handle is built
//! on: the shared owning pointer (`Arc`) and the reader/writer lock
//! (`RwLock`).
//!
//! The lock and its guard/error types are declared opaque: the verifier never
//! looks inside a lock, so ghost equality of two lock values states exactly
//! that two handles share the same underlying lock. Each wrapper below makes
//! one `std` call and states only what that call's documentation promises.

use vstd::prelude::*;

use std::sync::Arc;
use std::sync::PoisonError;
use std::sync::RwLock;
use std::sync::RwLockReadGuard;
use std::sync::TryLockError;

verus! {

#[verifier::external_type_specification]
#[verifier::external_body]
#[verifier::reject_recursive_types(T)]
pub struct ExRwLock<T: ?Sized>(RwLock<T>);

#[verifier::external_type_specification]
#[verifier::external_body]
#[verifier::reject_recursive_types(T)]
pub struct ExRwLockReadGuard<'a, T: ?Sized>(RwLockReadGuard<'a, T>);

#[verifier::external_type_specification]
#[verifier::external_body]
#[verifier::reject_recursive_types(T)]
pub struct ExPoisonError<T>(PoisonError<T>);

#[verifier::external_type_specification]
#[verifier::external_body]
#[verifier::reject_recursive_types(T)]
pub struct ExTryLockError<T>(TryLockError<T>);

/// Relies on `Arc::clone`: the new pointer shares the allocation of the old
/// one, so both point to the very same lock.
#[verifier::external_body]
pub(crate) fn arc_clone<T>(ptr: &Arc<RwLock<T>>) -> (r: Arc<RwLock<T>>)
    ensures
        r == *ptr,
{
    Arc::clone(ptr)
}

/// Relies on `Arc::try_unwrap`: when the caller holds the only strong
/// reference it yields the pointed-to lock, and otherwise it hands the same
/// pointer back unchanged. Which of the two happens depends on how many
/// owners are alive at the moment of the call, so no outcome is promised.
#[verifier::external_body]
pub(crate) fn arc_try_unwrap<T>(ptr: Arc<RwLock<T>>) -> (r: Result<RwLock<T>, Arc<RwLock<T>>>)
    ensures
        r matches Ok(lock) ==> lock == ptr,
        r matches Err(same) ==> same == ptr,
{
    Arc::try_unwrap(ptr)
}

/// Relies on `Arc::strong_count`: returns the number of strong pointers to
/// the allocation. The pointer passed in is itself alive, so the count is at
/// least one; beyond that the count is a momentary snapshot that other
/// threads may change at any time.
#[verifier::external_body]
pub(crate) fn arc_strong_count<T>(ptr: &Arc<RwLock<T>>) -> (n: usize)
    ensures
        n >= 1,
{
    Arc::strong_count(ptr)
}

/// Relies on `RwLock::new`: creates a fresh, unpoisoned lock owning `value`.
/// The lock is opaque to the verifier, so nothing is stated of the result.
#[verifier::external_body]
pub(crate) fn rw_new<T>(value: T) -> (lock: RwLock<T>) {
    RwLock::new(value)
}

/// Relies on `RwLock::read`: blocks until no writer holds the lock, then
/// grants shared read access through a guard; on a poisoned lock the guard
/// comes wrapped in the error instead. Which case occurs depends on whether
/// some writer ever failed while holding the lock.
#[verifier::external_body]
pub(crate) fn rw_read<'a, T>(ptr: &'a Arc<RwLock<T>>) -> (r: Result<
    RwLockReadGuard<'a, T>,
    PoisonError<RwLockReadGuard<'a, T>>,
>) {
    ptr.read()
}

/// Relies on `RwLock::try_read`: like `RwLock::read` but never blocks; if the
/// lock is held exclusively it reports `WouldBlock` at once.
#[verifier::external_body]
pub(crate) fn rw_try_read<'a, T>(ptr: &'a Arc<RwLock<T>>) -> (r: Result<
    RwLockReadGuard<'a, T>,
    TryLockError<RwLockReadGuard<'a, T>>,
>) {
    ptr.try_read()
}

/// Relies on `RwLock::is_poisoned`: a momentary, lock-free snapshot of the
/// poison flag, which other threads may change at any time.
#[verifier::external_body]
pub(crate) fn rw_is_poisoned<T>(ptr: &Arc<RwLock<T>>) -> (b: bool) {
    ptr.is_poisoned()
}

/// Relies on `RwLock::into_inner`: consumes the lock and returns the
/// protected value, inside the error when the lock was poisoned. The lock is
/// opaque to the verifier, so the value cannot be related to it here.
#[verifier::external_body]
pub(crate) fn rw_into_inner<T>(lock: RwLock<T>) -> (r: Result<T, PoisonError<T>>) {
    RwLock::into_inner(lock)
}

/// Relies on `Option::unwrap`: panics, ending the calling thread, when a
/// reclaim that the caller required to succeed has failed. It never returns.
#[verifier::external_body]
pub(crate) fn reclaim_failure<T>() -> (value: T) {
    None::<T>.unwrap()
}

} // verus!
