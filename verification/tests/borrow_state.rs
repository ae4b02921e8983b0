use guardcell::borrow_state::{BorrowConflict, BorrowState};

#[test]
fn new_counter_is_free() {
    let state = BorrowState::new();
    assert!(state.free());
    assert!(!state.exclusive());
    assert_eq!(state.shared(), 0);
}

#[test]
fn shared_borrows_are_counted() {
    let mut state = BorrowState::new();
    assert_eq!(state.borrow(), Ok(()));
    assert_eq!(state.shared(), 1);
    assert_eq!(state.borrow(), Ok(()));
    assert_eq!(state.borrow(), Ok(()));
    assert_eq!(state.shared(), 3);
    assert!(!state.free());
    assert!(!state.exclusive());
}

#[test]
fn exclusive_request_fails_while_shared_token_lives() {
    let mut state = BorrowState::new();
    assert_eq!(state.borrow(), Ok(()));
    assert_eq!(state.borrow_mut(), Err(BorrowConflict));
    assert_eq!(state.shared(), 1);
    assert!(!state.exclusive());
}

#[test]
fn exclusive_request_fails_while_exclusive_token_lives() {
    let mut state = BorrowState::new();
    assert_eq!(state.borrow_mut(), Ok(()));
    assert!(state.exclusive());
    assert_eq!(state.borrow_mut(), Err(BorrowConflict));
    assert!(state.exclusive());
}

#[test]
fn shared_request_fails_while_exclusive_token_lives() {
    let mut state = BorrowState::new();
    assert_eq!(state.borrow_mut(), Ok(()));
    assert_eq!(state.borrow(), Err(BorrowConflict));
    assert!(state.exclusive());
    assert_eq!(state.shared(), 0);
}

#[test]
fn refused_requests_leave_the_counter_usable() {
    let mut state = BorrowState::new();
    assert_eq!(state.borrow(), Ok(()));
    assert_eq!(state.borrow(), Ok(()));
    assert_eq!(state.borrow_mut(), Err(BorrowConflict));
    assert_eq!(state.borrow_mut(), Err(BorrowConflict));
    state.release_shared();
    assert_eq!(state.shared(), 1);
    assert_eq!(state.borrow_mut(), Err(BorrowConflict));
    state.release_shared();
    assert!(state.free());
    assert_eq!(state.borrow_mut(), Ok(()));
    assert_eq!(state.borrow(), Err(BorrowConflict));
    state.release_exclusive();
    assert!(state.free());
    assert_eq!(state.borrow(), Ok(()));
    assert_eq!(state.shared(), 1);
}

#[test]
fn release_exclusive_frees_the_cell() {
    let mut state = BorrowState::new();
    assert_eq!(state.borrow_mut(), Ok(()));
    state.release_exclusive();
    assert!(state.free());
    assert!(!state.exclusive());
    assert_eq!(state.borrow_mut(), Ok(()));
}
