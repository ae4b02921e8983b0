use guardcell::lock_state::{Acquisition, LockState};

#[test]
fn exclusive_lock_starts_free() {
    let state = LockState::exclusive();
    assert!(!state.is_locked());
    assert_eq!(state.depth(), 0);
    assert!(!state.is_held_by(1));
}

#[test]
fn exclusive_lock_admits_one_thread() {
    let mut state = LockState::exclusive();
    assert_eq!(state.acquire(1), Acquisition::Granted);
    assert!(state.is_locked());
    assert!(state.is_held_by(1));
    assert_eq!(state.depth(), 1);
    assert_eq!(state.acquire(2), Acquisition::Blocked);
    assert!(state.is_held_by(1));
    assert!(!state.is_held_by(2));
    assert_eq!(state.depth(), 1);
}

#[test]
fn exclusive_lock_blocks_its_own_holder() {
    let mut state = LockState::exclusive();
    assert_eq!(state.acquire(7), Acquisition::Granted);
    assert_eq!(state.acquire(7), Acquisition::Blocked);
    assert_eq!(state.acquire(7), Acquisition::Blocked);
    assert_eq!(state.depth(), 1);
    assert!(state.is_held_by(7));
}

#[test]
fn exclusive_lock_is_free_after_release() {
    let mut state = LockState::exclusive();
    assert_eq!(state.acquire(1), Acquisition::Granted);
    state.release(1);
    assert!(!state.is_locked());
    assert_eq!(state.depth(), 0);
    assert_eq!(state.acquire(2), Acquisition::Granted);
    assert!(state.is_held_by(2));
}

#[test]
fn reentrant_lock_counts_nested_acquisitions() {
    let mut state = LockState::reentrant();
    assert_eq!(state.acquire(3), Acquisition::Granted);
    assert_eq!(state.depth(), 1);
    assert_eq!(state.acquire(3), Acquisition::Granted);
    assert_eq!(state.acquire(3), Acquisition::Granted);
    assert_eq!(state.depth(), 3);
    assert!(state.is_held_by(3));
}

#[test]
fn reentrant_lock_stays_held_until_last_release() {
    let mut state = LockState::reentrant();
    assert_eq!(state.acquire(3), Acquisition::Granted);
    assert_eq!(state.acquire(3), Acquisition::Granted);
    assert_eq!(state.acquire(4), Acquisition::Blocked);
    state.release(3);
    assert!(state.is_held_by(3));
    assert_eq!(state.depth(), 1);
    assert_eq!(state.acquire(4), Acquisition::Blocked);
    state.release(3);
    assert!(!state.is_locked());
    assert_eq!(state.depth(), 0);
    assert_eq!(state.acquire(4), Acquisition::Granted);
    assert!(state.is_held_by(4));
    assert_eq!(state.depth(), 1);
}

#[test]
fn blocked_request_changes_nothing() {
    let mut state = LockState::reentrant();
    assert_eq!(state.acquire(1), Acquisition::Granted);
    assert_eq!(state.acquire(1), Acquisition::Granted);
    assert_eq!(state.acquire(2), Acquisition::Blocked);
    assert_eq!(state.depth(), 2);
    assert!(state.is_held_by(1));
    assert!(!state.is_held_by(2));
}
