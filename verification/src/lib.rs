//! Mutual-exclusion locks with two re-entrancy policies, a run-time checked
//! borrow cell and a shared-ownership handle.
//!
//! The primitives stand in `shared`, `exclusive`, `reentrant` and
//! `borrow_cell`, over `std::sync::Arc`, `parking_lot::Mutex`,
//! `parking_lot::ReentrantMutex` and `std::cell::RefCell`. What these keep
//! behind a shared reference is hidden from Verus. `borrow_state`, `lock_state`
//! and `ref_count` are models of it, small state machines whose laws are
//! proved; that the primitives agree with their models is not proved, and the
//! tests hold them side by side. `record` is a named record, and `scenario`
//! puts it behind each lock and walks through what the lock allows.

pub mod borrow_state;
pub mod lock_state;
pub mod ref_count;
pub mod record;
pub mod shared;
pub mod exclusive;
pub mod reentrant;
pub mod borrow_cell;
pub mod scenario;
