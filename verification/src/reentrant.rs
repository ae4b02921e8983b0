//! The reentrant lock: the thread that owns it may take it again without
//! waiting, and it is free once every guard of that thread has ended.
//!
//! The lock is `parking_lot::ReentrantMutex`, which keeps the owner's identity
//! and a count of its acquisitions. Both change behind a shared reference and
//! are hidden from Verus. `lock_state` under `Policy::Reentrant` is a model of
//! them, proved on its own; nothing proves that the mutex agrees with the
//! model, and the tests hold the two side by side.
//!
//! A guard gives read access only: two nested guards of one thread would
//! otherwise lead to two writers. A value that has to change goes into a
//! `DynamicBorrowCell` inside the lock. So the value in the lock is a function
//! of the lock. It has a name where the value is a `SomeData`: a name takes no
//! type parameter, so `new`, `acquire` and `get` for any `T` state nothing, and
//! the lock of a record has `of_record`, `acquire_record` and `record`, which
//! do.

use crate::record::SomeData;
use vstd::prelude::*;

verus! {

/// `parking_lot::RawThreadId`, by which the lock tells threads apart.
#[verifier::external_type_specification]
#[verifier::external_body]
pub struct ExRawThreadId(parking_lot::RawThreadId);

/// `lock_api::ReentrantMutex`, of which `parking_lot::ReentrantMutex<T>` is an
/// instance.
#[verifier::external_type_specification]
#[verifier::external_body]
#[verifier::reject_recursive_types(R)]
#[verifier::reject_recursive_types(G)]
#[verifier::reject_recursive_types(T)]
pub struct ExReentrantMutex<R, G, T: ?Sized>(parking_lot::lock_api::ReentrantMutex<R, G, T>);

/// A value that only the threads holding a guard of the lock can read.
#[verifier::reject_recursive_types(T)]
pub struct ReentrantLock<T> {
    inner: parking_lot::ReentrantMutex<T>,
}

/// The proof that the calling thread holds a `ReentrantLock`. One acquisition
/// is given back when the guard goes out of scope.
///
/// It holds a `parking_lot::ReentrantMutexGuard`, which cannot be declared to
/// Verus: that type is bounded by traits of its crate.
#[verifier::external_body]
#[verifier::reject_recursive_types(T)]
pub struct ReentrantGuard<'a, T> {
    inner: parking_lot::ReentrantMutexGuard<'a, T>,
}

/// The record inside a reentrant mutex. A guard of such a mutex gives read
/// access only, so the record is the one the mutex was made with for as long
/// as the mutex is shared.
pub uninterp spec fn locked_record(mutex: parking_lot::ReentrantMutex<SomeData>) -> SomeData;

/// The record that a guard of a reentrant mutex leads to.
pub uninterp spec fn guarded_record(guard: ReentrantGuard<'static, SomeData>) -> SomeData;

impl View for ReentrantLock<SomeData> {
    type V = SomeData;

    /// The record that the lock holds.
    closed spec fn view(&self) -> SomeData {
        locked_record(self.inner)
    }
}

impl<'a> View for ReentrantGuard<'a, SomeData> {
    type V = SomeData;

    /// The record that the guard gives access to.
    closed spec fn view(&self) -> SomeData {
        guarded_record(*self)
    }
}

impl ReentrantLock<SomeData> {
    /// A free lock that holds `record`.
    pub fn of_record(record: SomeData) -> (lock: Self)
        ensures
            lock@ == record,
    {
        ReentrantLock { inner: record_mutex_new(record) }
    }

    /// Takes the lock, as `acquire` does. The guard leads to the record that
    /// the lock holds.
    pub fn acquire_record(&self) -> (guard: ReentrantGuard<'_, SomeData>)
        ensures
            guard@ == self@,
    {
        record_mutex_lock(&self.inner)
    }
}

impl<'a> ReentrantGuard<'a, SomeData> {
    /// Read access to the locked record, at any depth of nesting.
    pub fn record(&self) -> (record: &SomeData)
        ensures
            *record == self@,
    {
        record_guard_target(self)
    }
}

impl<T> ReentrantLock<T> {
    /// A free lock around `value`.
    pub fn new(value: T) -> (lock: Self) {
        ReentrantLock { inner: reentrant_new(value) }
    }

    /// Takes the lock. The owner is served at once; any other thread waits
    /// until the owner has given back its last acquisition.
    pub fn acquire(&self) -> (guard: ReentrantGuard<'_, T>) {
        reentrant_lock(&self.inner)
    }
}

impl<'a, T> ReentrantGuard<'a, T> {
    /// Read access to the locked value, at any depth of nesting.
    pub fn get(&self) -> (value: &T) {
        reentrant_target(self)
    }
}

/// `parking_lot::ReentrantMutex::new`: an unlocked reentrant mutex that holds
/// `value`. Nothing is claimed of it.
#[verifier::external_body]
fn reentrant_new<T>(value: T) -> (mutex: parking_lot::ReentrantMutex<T>) {
    parking_lot::ReentrantMutex::new(value)
}

/// `parking_lot::ReentrantMutex::lock`: returns a guard, at once where the
/// calling thread owns the mutex, else after blocking until it is free.
/// Nothing is claimed of the guard. The mutex counts in a `usize` and panics
/// where one thread would hold more guards than that; its count cannot be
/// read, so no caller can be asked to stay below.
#[verifier::external_body]
fn reentrant_lock<'a, T>(mutex: &'a parking_lot::ReentrantMutex<T>) -> (guard: ReentrantGuard<
    'a,
    T,
>) {
    ReentrantGuard { inner: mutex.lock() }
}

/// `Deref::deref` of `parking_lot::ReentrantMutexGuard`: the locked value.
/// Nothing is claimed of it.
#[verifier::external_body]
fn reentrant_target<'g, 'a, T>(guard: &'g ReentrantGuard<'a, T>) -> (value: &'g T) {
    &*guard.inner
}

/// `parking_lot::ReentrantMutex::new` on a record: the mutex holds the record
/// that it was given.
#[verifier::external_body]
fn record_mutex_new(record: SomeData) -> (mutex: parking_lot::ReentrantMutex<SomeData>)
    ensures
        locked_record(mutex) == record,
{
    parking_lot::ReentrantMutex::new(record)
}

/// `parking_lot::ReentrantMutex::lock` on a mutex of a record: the guard leads
/// to the record inside the mutex. When it returns, and the panic at a full
/// count, are as `reentrant_lock` says.
#[verifier::external_body]
fn record_mutex_lock<'a>(mutex: &'a parking_lot::ReentrantMutex<SomeData>) -> (guard:
    ReentrantGuard<'a, SomeData>)
    ensures
        guarded_record(guard) == locked_record(*mutex),
{
    ReentrantGuard { inner: mutex.lock() }
}

/// `Deref::deref` of `parking_lot::ReentrantMutexGuard` on a guard of a
/// record: the reference leads to the record that the guard leads to.
#[verifier::external_body]
fn record_guard_target<'g, 'a>(guard: &'g ReentrantGuard<'a, SomeData>) -> (record: &'g SomeData)
    ensures
        *record == guarded_record(*guard),
{
    &*guard.inner
}

} // verus!
