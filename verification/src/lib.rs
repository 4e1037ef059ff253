//! Read Only Lock.
//!
//! [`RoLock`] is a wrapper around `Arc<RwLock<T>>` that exposes only the
//! read-facing operations of the lock: a holder of a `RoLock` can read the
//! protected value but can never acquire write access, because no write
//! operation exists on the type and the inner pointer is private.
//!
//! Cloning a `RoLock` is cheap shared-pointer aliasing: every clone refers to
//! the identical underlying lock, which the contracts state through ghost
//! equality of the locks the handles hold.

mod sync_specs;

use vstd::prelude::*;

use std::sync::Arc;
use std::sync::PoisonError;
use std::sync::RwLock;
use std::sync::RwLockReadGuard;
use std::sync::TryLockError;

use crate::sync_specs::arc_clone;
use crate::sync_specs::arc_strong_count;
use crate::sync_specs::arc_try_unwrap;
use crate::sync_specs::reclaim_failure;
use crate::sync_specs::rw_into_inner;
use crate::sync_specs::rw_is_poisoned;
use crate::sync_specs::rw_new;
use crate::sync_specs::rw_read;
use crate::sync_specs::rw_try_read;

verus! {

/// Read Only Lock.
///
/// A shared owning pointer to a reader/writer lock, restricted by the type
/// itself to the lock's read operations.
#[derive(Debug)]
#[verifier::reject_recursive_types(T)]
pub struct RoLock<T>(Arc<RwLock<T>>);

impl<T> RoLock<T> {
    /// The lock this handle points to. Ghost equality of two lock values
    /// means the two handles share the same underlying lock.
    pub closed spec fn lock(self) -> Arc<RwLock<T>> {
        self.0
    }

    /// Aliases an existing `Arc<RwLock<T>>` as a [`RoLock`], incrementing
    /// its reference count by one.
    pub fn new(value: &Arc<RwLock<T>>) -> (r: Self)
        ensures
            r.lock() == *value,
    {
        Self::from(value)
    }

    /// Creates a whole new `Arc<RwLock<T>>` holding `value`, returning it
    /// together with a [`RoLock`] aliasing the same lock, so that the count
    /// of owners starts at two.
    pub fn new_pair(value: T) -> (r: (Arc<RwLock<T>>, Self))
        ensures
            r.1.lock() == r.0,
    {
        let rw = Arc::new(rw_new(value));
        let ro = Self::from(&rw);
        (rw, ro)
    }

    /// Wraps a caller-supplied `RwLock<T>` in an `Arc`, returning the pointer
    /// alongside a [`RoLock`] aliasing the same lock.
    pub fn from_rw(value: RwLock<T>) -> (r: (Arc<RwLock<T>>, Self))
        ensures
            r.0 == value,
            r.1.lock() == r.0,
    {
        let rw = Arc::new(value);
        let ro = Self::new(&rw);
        (rw, ro)
    }

    /// Calls `RwLock::read`: blocks until no writer holds the lock, then
    /// grants read access to the protected value through the guard. On a
    /// poisoned lock the guard comes wrapped in the error instead.
    pub fn read(&self) -> Result<RwLockReadGuard<'_, T>, PoisonError<RwLockReadGuard<'_, T>>> {
        rw_read(&self.0)
    }

    /// Calls `RwLock::try_read`: like [`RoLock::read`] but never blocks; if a
    /// writer holds the lock it returns the `WouldBlock` error at once.
    pub fn try_read(&self) -> Result<RwLockReadGuard<'_, T>, TryLockError<RwLockReadGuard<'_, T>>> {
        rw_try_read(&self.0)
    }

    /// Calls `RwLock::is_poisoned`: a non-blocking snapshot of the poison
    /// flag, taken without acquiring the lock.
    pub fn is_poisoned(&self) -> bool {
        rw_is_poisoned(&self.0)
    }

    /// Calls `Arc::strong_count`: the number of live owners of the
    /// underlying allocation, this handle included — so at least one. The
    /// count is a momentary snapshot; other threads may clone or drop owners
    /// at any time.
    pub fn strong_count(&self) -> (n: usize)
        ensures
            n >= 1,
    {
        arc_strong_count(&self.0)
    }

    /// Consumes the handle and reclaims the protected value. It succeeds iff
    /// this handle is the sole owner of the allocation and the lock is not
    /// poisoned. When other owners remain, an equivalent handle — one
    /// aliasing the very same lock — comes back inside
    /// [`IntoInnerError::Multiple`], so the caller loses nothing; when this
    /// was the sole owner but the lock was poisoned, the value is
    /// unrecoverable and [`IntoInnerError::Poison`] comes back empty.
    pub fn into_inner(self) -> (r: Result<T, IntoInnerError<T>>)
        ensures
            r matches Err(IntoInnerError::Multiple(h)) ==> h.lock() == self.lock(),
    {
        let rw = match arc_try_unwrap(self.0) {
            Ok(rw) => rw,
            Err(e) => {
                return Err(IntoInnerError::Multiple(RoLock(e)));
            },
        };
        finish_reclaim(rw_into_inner(rw))
    }

    /// Same as [`RoLock::into_inner`], but panics on either failure instead
    /// of returning an error. Intended only for call sites that have already
    /// established sole ownership and an unpoisoned lock by construction.
    pub fn into_inner_unchecked(self) -> T {
        match self.into_inner() {
            Ok(value) => value,
            Err(_) => reclaim_failure(),
        }
    }
}

/// Maps the outcome of the final reclaim step onto the library's error type:
/// a reclaimed value passes through unchanged, and a poison failure is
/// reported as the empty [`IntoInnerError::Poison`], dropping the value.
pub fn finish_reclaim<T>(reclaimed: Result<T, PoisonError<T>>) -> (r: Result<T, IntoInnerError<T>>)
    ensures
        reclaimed matches Ok(value) ==> r matches Ok(v) && v == value,
        reclaimed matches Err(_) ==> r matches Err(e) && e is Poison,
{
    match reclaimed {
        Ok(value) => Ok(value),
        Err(_) => Err(IntoInnerError::Poison),
    }
}

/// The error returned when [`RoLock::into_inner`] fails.
///
/// `Multiple` carries back a handle equivalent to the consumed one, because
/// other owners of the allocation still exist; `Poison` reports that the
/// handle was the sole owner but the lock was poisoned, so the value was
/// dropped as unrecoverable.
#[derive(Debug)]
#[verifier::reject_recursive_types(T)]
pub enum IntoInnerError<T> {
    Multiple(RoLock<T>),
    Poison,
}

impl<T> Clone for RoLock<T> {
    /// Aliases the same lock; nothing of the protected value is copied.
    fn clone(&self) -> (r: Self)
        ensures
            r.lock() == self.lock(),
    {
        Self(arc_clone(&self.0))
    }
}

impl<T> From<&Arc<RwLock<T>>> for RoLock<T> {
    /// Aliases the existing pointer's lock, incrementing its count by one.
    fn from(value: &Arc<RwLock<T>>) -> (r: Self)
        ensures
            r.lock() == *value,
    {
        Self(arc_clone(value))
    }
}

/// What `RoLock::from` returns, for use in contracts: a handle holding the
/// very lock the pointer points to.
impl<T> vstd::std_specs::convert::FromSpecImpl<&Arc<RwLock<T>>> for RoLock<T> {
    open spec fn obeys_from_spec() -> bool {
        true
    }

    closed spec fn from_spec(value: &Arc<RwLock<T>>) -> Self {
        RoLock(*value)
    }
}

} // verus!
