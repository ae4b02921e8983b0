use guardcell::borrow_cell::{exclusive_outcome, shared_outcome, DynamicBorrowCell};
use guardcell::borrow_state::{BorrowConflict, BorrowEvent, BorrowState};
use std::cell::RefCell;

#[test]
fn shared_borrow_reads_the_value() {
    let cell = DynamicBorrowCell::new(String::from("dave"));
    let token = cell.borrow().unwrap();
    assert_eq!(token.get(), "dave");
}

#[test]
fn shared_borrows_coexist() {
    let cell = DynamicBorrowCell::new(3u32);
    let first = cell.borrow().unwrap();
    let second = cell.borrow().unwrap();
    let third = cell.borrow().unwrap();
    assert_eq!(*first.get() + *second.get() + *third.get(), 9);
}

#[test]
fn exclusive_borrow_writes_the_value() {
    let cell = DynamicBorrowCell::new(String::from("dave"));
    {
        let mut token = cell.borrow_mut().unwrap();
        assert_eq!(token.get(), "dave");
        *token.get_mut() = String::from("sam");
        assert_eq!(token.get(), "sam");
    }
    assert_eq!(cell.borrow().unwrap().get(), "sam");
}

#[test]
fn exclusive_request_conflicts_with_a_shared_token() {
    let cell = DynamicBorrowCell::new(1u8);
    let reader = cell.borrow().unwrap();
    assert_eq!(cell.borrow_mut().err(), Some(BorrowConflict));
    assert_eq!(*reader.get(), 1);
}

#[test]
fn exclusive_request_conflicts_with_the_exclusive_token() {
    let cell = DynamicBorrowCell::new(1u8);
    let writer = cell.borrow_mut().unwrap();
    assert_eq!(cell.borrow_mut().err(), Some(BorrowConflict));
    assert_eq!(*writer.get(), 1);
}

#[test]
fn shared_request_conflicts_with_the_exclusive_token() {
    let cell = DynamicBorrowCell::new(1u8);
    let writer = cell.borrow_mut().unwrap();
    assert_eq!(cell.borrow().err(), Some(BorrowConflict));
    assert_eq!(*writer.get(), 1);
}

#[test]
fn cell_recovers_after_conflicts() {
    let cell = DynamicBorrowCell::new(0u32);
    let first = cell.borrow().unwrap();
    let second = cell.borrow().unwrap();
    assert!(cell.borrow_mut().is_err());
    assert!(cell.borrow_mut().is_err());
    drop(first);
    assert!(cell.borrow_mut().is_err());
    drop(second);
    {
        let mut writer = cell.borrow_mut().unwrap();
        *writer.get_mut() = 7;
        assert!(cell.borrow().is_err());
    }
    assert_eq!(*cell.borrow().unwrap().get(), 7);
    assert!(cell.borrow_mut().is_ok());
}

#[test]
fn cell_agrees_with_the_counter_rule() {
    let cell = DynamicBorrowCell::new(0u32);
    let mut rule = BorrowState::new();

    let first = cell.borrow();
    assert_eq!(first.is_ok(), rule.borrow().is_ok());
    let second = cell.borrow();
    assert_eq!(second.is_ok(), rule.borrow().is_ok());
    assert_eq!(rule.shared(), 2);
    assert_eq!(cell.borrow_mut().is_ok(), rule.borrow_mut().is_ok());

    drop(first);
    rule.release_shared();
    assert_eq!(cell.borrow_mut().is_ok(), rule.borrow_mut().is_ok());
    drop(second);
    rule.release_shared();
    assert!(rule.free());

    let writer = cell.borrow_mut();
    assert_eq!(writer.is_ok(), rule.borrow_mut().is_ok());
    assert!(writer.is_ok());
    assert_eq!(cell.borrow().is_ok(), rule.borrow().is_ok());
    assert_eq!(cell.borrow_mut().is_ok(), rule.borrow_mut().is_ok());
    drop(writer);
    rule.release_exclusive();

    assert_eq!(cell.borrow().is_ok(), rule.borrow().is_ok());
    assert!(rule.free() || rule.shared() == 1);
}

#[test]
fn shared_outcome_keeps_a_granted_borrow() {
    let cell = RefCell::new(5u32);
    let outcome = shared_outcome(cell.try_borrow());
    assert_eq!(*outcome.unwrap().get(), 5);
}

#[test]
fn shared_outcome_names_a_refusal() {
    let cell = RefCell::new(5u32);
    let writer = cell.borrow_mut();
    assert_eq!(shared_outcome(cell.try_borrow()).err(), Some(BorrowConflict));
    drop(writer);
}

#[test]
fn exclusive_outcome_keeps_a_granted_borrow() {
    let cell = RefCell::new(5u32);
    let mut token = exclusive_outcome(cell.try_borrow_mut()).unwrap();
    *token.get_mut() = 6;
    drop(token);
    assert_eq!(*cell.borrow(), 6);
}

#[test]
fn exclusive_outcome_names_a_refusal() {
    let cell = RefCell::new(5u32);
    let reader = cell.borrow();
    assert_eq!(exclusive_outcome(cell.try_borrow_mut()).err(), Some(BorrowConflict));
    drop(reader);
}

fn run_on_cell_and_model(events: &[BorrowEvent]) {
    let cell = DynamicBorrowCell::new(0u32);
    let mut model = BorrowState::new();
    let mut readers = Vec::new();
    let mut writer = None;
    for event in events {
        match event {
            BorrowEvent::RequestShared => {
                let answer = cell.borrow();
                assert_eq!(answer.is_ok(), model.borrow().is_ok());
                if let Ok(token) = answer {
                    readers.push(token);
                }
            }
            BorrowEvent::RequestExclusive => {
                let answer = cell.borrow_mut();
                assert_eq!(answer.is_ok(), model.borrow_mut().is_ok());
                if let Ok(token) = answer {
                    writer = Some(token);
                }
            }
            BorrowEvent::DropShared => {
                if readers.pop().is_some() {
                    model.release_shared();
                }
            }
            BorrowEvent::DropExclusive => {
                if writer.take().is_some() {
                    model.release_exclusive();
                }
            }
        }
        assert_eq!(model.shared(), readers.len() as u64);
        assert_eq!(model.exclusive(), writer.is_some());
        assert_eq!(model.free(), readers.is_empty() && writer.is_none());
    }
}

#[test]
fn cell_and_model_agree_on_readers_then_writer() {
    run_on_cell_and_model(&[
        BorrowEvent::RequestShared,
        BorrowEvent::RequestShared,
        BorrowEvent::RequestExclusive,
        BorrowEvent::DropShared,
        BorrowEvent::RequestExclusive,
        BorrowEvent::DropShared,
        BorrowEvent::RequestExclusive,
        BorrowEvent::RequestShared,
        BorrowEvent::RequestExclusive,
        BorrowEvent::DropExclusive,
        BorrowEvent::RequestShared,
    ]);
}

#[test]
fn cell_and_model_agree_on_writer_then_readers() {
    run_on_cell_and_model(&[
        BorrowEvent::RequestExclusive,
        BorrowEvent::RequestShared,
        BorrowEvent::RequestShared,
        BorrowEvent::DropExclusive,
        BorrowEvent::RequestShared,
        BorrowEvent::RequestShared,
        BorrowEvent::RequestShared,
        BorrowEvent::DropShared,
        BorrowEvent::DropShared,
        BorrowEvent::RequestExclusive,
        BorrowEvent::DropShared,
        BorrowEvent::RequestExclusive,
    ]);
}

#[test]
fn cell_and_model_agree_on_drops_without_tokens() {
    run_on_cell_and_model(&[
        BorrowEvent::DropShared,
        BorrowEvent::DropExclusive,
        BorrowEvent::RequestExclusive,
        BorrowEvent::DropShared,
        BorrowEvent::RequestExclusive,
        BorrowEvent::DropExclusive,
        BorrowEvent::DropExclusive,
        BorrowEvent::RequestShared,
    ]);
}
