use std::sync::Arc;
use std::sync::PoisonError;
use std::sync::RwLock;
use std::sync::TryLockError;

use rolock::finish_reclaim;
use rolock::IntoInnerError;
use rolock::RoLock;

#[test]
fn new_aliases_existing_lock() {
    let rw = Arc::new(RwLock::new(0));
    let ro = RoLock::new(&rw);

    assert_eq!(*rw.read().unwrap(), 0);
    assert_eq!(*ro.read().unwrap(), 0);
}

#[test]
fn write_through_owner_is_visible_to_handle() {
    let rw = Arc::new(RwLock::new(0));
    let ro = RoLock::new(&rw);

    *rw.write().unwrap() = 1;

    assert_eq!(*ro.read().unwrap(), 1);
}

#[test]
fn clones_observe_identical_values() {
    let (rw, ro) = RoLock::new_pair(5);
    let first = ro.clone();
    let second = first.clone();

    assert_eq!(*first.read().unwrap(), 5);
    assert_eq!(*second.read().unwrap(), 5);

    *rw.write().unwrap() = 9;

    assert_eq!(*ro.read().unwrap(), 9);
    assert_eq!(*first.read().unwrap(), 9);
    assert_eq!(*second.read().unwrap(), 9);
}

#[test]
fn strong_count_tracks_clone_and_drop() {
    let (rw, ro) = RoLock::new_pair(0);
    assert_eq!(Arc::strong_count(&rw), 2);
    assert_eq!(ro.strong_count(), 2);

    let extra = ro.clone();
    assert_eq!(ro.strong_count(), 3);
    assert_eq!(extra.strong_count(), 3);

    let another = extra.clone();
    assert_eq!(ro.strong_count(), 4);

    drop(another);
    assert_eq!(ro.strong_count(), 3);
    drop(extra);
    assert_eq!(ro.strong_count(), 2);
    drop(rw);
    assert_eq!(ro.strong_count(), 1);
}

#[test]
fn into_inner_returns_value_for_sole_owner() {
    let (rw, ro) = RoLock::new_pair(42);
    drop(rw);

    assert_eq!(ro.into_inner().unwrap(), 42);
}

#[test]
fn into_inner_with_second_owner_returns_equivalent_handle() {
    let (rw, ro) = RoLock::new_pair(7);

    let handle = match ro.into_inner() {
        Err(IntoInnerError::Multiple(handle)) => handle,
        _ => panic!("a second owner was alive, so reclaiming must fail"),
    };

    assert_eq!(*handle.read().unwrap(), 7);
    assert_eq!(handle.strong_count(), 2);

    drop(rw);
    assert_eq!(handle.into_inner().unwrap(), 7);
}

#[test]
fn finish_reclaim_passes_value_through() {
    let r: Result<i32, IntoInnerError<i32>> = finish_reclaim(Ok(5));
    assert_eq!(r.unwrap(), 5);
}

#[test]
fn finish_reclaim_reports_poison_empty() {
    let r = finish_reclaim(Err(PoisonError::new(3)));
    assert!(matches!(r, Err(IntoInnerError::Poison)));
}

#[test]
fn into_inner_unchecked_returns_value_for_sole_owner() {
    let (rw, ro) = RoLock::new_pair(1);
    drop(rw);

    assert_eq!(ro.into_inner_unchecked(), 1);
}

#[test]
fn try_read_would_block_while_writer_holds_the_lock() {
    let (rw, ro) = RoLock::new_pair(10);

    let writing = rw.write().unwrap();
    assert!(matches!(ro.try_read(), Err(TryLockError::WouldBlock)));
    drop(writing);

    assert_eq!(*ro.try_read().unwrap(), 10);
}

#[test]
fn fresh_lock_is_not_poisoned() {
    let (rw, ro) = RoLock::new_pair(0);

    assert!(!ro.is_poisoned());
    assert!(!rw.is_poisoned());
}

#[test]
fn from_rw_wraps_and_aliases_a_standalone_lock() {
    let lock = RwLock::new(true);
    let (rw, ro) = RoLock::from_rw(lock);

    assert_eq!(*rw.read().unwrap(), *ro.read().unwrap());

    *rw.write().unwrap() = false;

    assert!(!*ro.read().unwrap());
}
