//! The non-reentrant lock: at most one guard at a time, and a thread that asks
//! again while it holds the guard waits for itself without end.
//!
//! The lock is `parking_lot::Mutex`. Its state changes behind a shared
//! reference and is hidden from Verus, so nothing is stated of when a guard is
//! given nor of the value that a new guard finds. `lock_state` under
//! `Policy::Exclusive` is a model of the lock, proved on its own; nothing
//! proves that the mutex agrees with the model, and the tests hold the two
//! side by side.
//!
//! What a guard leads to, once it is held, is a function of the guard. It has
//! a name where the value is a `SomeData`: a name takes no type parameter, so
//! the getters for any `T` state nothing, and the guard of a record has
//! getters of its own that do.

use crate::record::SomeData;
use vstd::prelude::*;

verus! {

/// `parking_lot::RawMutex`, the raw lock inside both locks of this library.
#[verifier::external_type_specification]
#[verifier::external_body]
pub struct ExRawMutex(parking_lot::RawMutex);

/// `lock_api::Mutex`, of which `parking_lot::Mutex<T>` is an instance.
#[verifier::external_type_specification]
#[verifier::external_body]
#[verifier::reject_recursive_types(R)]
#[verifier::reject_recursive_types(T)]
pub struct ExMutex<R, T: ?Sized>(parking_lot::lock_api::Mutex<R, T>);

/// A value that only the holder of the lock's guard can reach.
#[verifier::reject_recursive_types(T)]
pub struct ExclusiveLock<T> {
    inner: parking_lot::Mutex<T>,
}

/// The proof that the calling thread holds an `ExclusiveLock`. The lock is
/// given back when the guard goes out of scope.
///
/// It holds a `parking_lot::MutexGuard`, which cannot be declared to Verus:
/// that type is bounded by a trait of its crate.
#[verifier::external_body]
#[verifier::reject_recursive_types(T)]
pub struct ExclusiveGuard<'a, T> {
    inner: parking_lot::MutexGuard<'a, T>,
}

/// The record that a guard of a mutex leads to. It changes only through that
/// guard. What a new guard finds is what the last holder left, and has no
/// name.
pub uninterp spec fn held_record(guard: ExclusiveGuard<'static, SomeData>) -> SomeData;

impl<'a> View for ExclusiveGuard<'a, SomeData> {
    type V = SomeData;

    /// The record that the guard reads and writes.
    closed spec fn view(&self) -> SomeData {
        held_record(*self)
    }
}

impl<'a> ExclusiveGuard<'a, SomeData> {
    /// Read access to the locked record.
    pub fn record(&self) -> (record: &SomeData)
        ensures
            *record == self@,
    {
        record_held_target(self)
    }

    /// Write access to the locked record: what is written through the
    /// reference is what the guard leads to afterwards.
    pub fn record_mut(&mut self) -> (record: &mut SomeData)
        ensures
            *record == old(self)@,
            *final(record) == final(self)@,
    {
        record_held_target_mut(self)
    }
}

impl<T> ExclusiveLock<T> {
    /// A free lock around `value`.
    pub fn new(value: T) -> (lock: Self) {
        ExclusiveLock { inner: mutex_new(value) }
    }

    /// Waits until the lock is free and takes it. A thread that already holds
    /// the guard of this lock never comes back from the call.
    pub fn acquire(&self) -> (guard: ExclusiveGuard<'_, T>) {
        mutex_lock(&self.inner)
    }
}

impl<'a, T> ExclusiveGuard<'a, T> {
    /// Read access to the locked value.
    pub fn get(&self) -> (value: &T) {
        guard_target(self)
    }

    /// Write access to the locked value: the only way to change it.
    pub fn get_mut(&mut self) -> (value: &mut T) {
        guard_target_mut(self)
    }
}

/// `parking_lot::Mutex::new`: an unlocked mutex that holds `value`. Nothing is
/// claimed of it.
#[verifier::external_body]
fn mutex_new<T>(value: T) -> (mutex: parking_lot::Mutex<T>) {
    parking_lot::Mutex::new(value)
}

/// `parking_lot::Mutex::lock`: blocks until the mutex is free, then returns its
/// guard. Nothing is claimed of the guard. The call does not return while the
/// calling thread itself holds the mutex.
#[verifier::external_body]
fn mutex_lock<'a, T>(mutex: &'a parking_lot::Mutex<T>) -> (guard: ExclusiveGuard<'a, T>) {
    ExclusiveGuard { inner: mutex.lock() }
}

/// `Deref::deref` of `parking_lot::MutexGuard`: the locked value. Nothing is
/// claimed of it.
#[verifier::external_body]
fn guard_target<'g, 'a, T>(guard: &'g ExclusiveGuard<'a, T>) -> (value: &'g T) {
    &*guard.inner
}

/// `DerefMut::deref_mut` of `parking_lot::MutexGuard`: the locked value, to
/// write to. Nothing is claimed of it.
#[verifier::external_body]
fn guard_target_mut<'g, 'a, T>(guard: &'g mut ExclusiveGuard<'a, T>) -> (value: &'g mut T) {
    &mut *guard.inner
}

/// `Deref::deref` of `parking_lot::MutexGuard` on a guard of a record: the
/// reference leads to the record that the guard leads to.
#[verifier::external_body]
fn record_held_target<'g, 'a>(guard: &'g ExclusiveGuard<'a, SomeData>) -> (record: &'g SomeData)
    ensures
        *record == held_record(*guard),
{
    &*guard.inner
}

/// `DerefMut::deref_mut` of `parking_lot::MutexGuard` on a guard of a record:
/// the reference starts at the record that the guard leads to, and what it
/// holds in the end is what the guard leads to from then on.
#[verifier::external_body]
fn record_held_target_mut<'g, 'a>(guard: &'g mut ExclusiveGuard<'a, SomeData>) -> (record:
    &'g mut SomeData)
    ensures
        *record == held_record(*old(guard)),
        *final(record) == held_record(*final(guard)),
{
    &mut *guard.inner
}

} // verus!
