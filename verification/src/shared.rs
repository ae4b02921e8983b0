//! Joint ownership of one value by several handles, across threads.
//!
//! A handle is `std::sync::Arc`: a clone is one more handle to the same value,
//! and the value goes with its last handle. The count itself cannot be seen
//! here. `ref_count` is a model of it, proved on its own; nothing proves that
//! `Arc` agrees with the model, and the tests hold the two side by side.

use std::sync::Arc;
use vstd::prelude::*;

verus! {

/// One of the handles that own a value together.
pub struct SharedOwnership<T> {
    inner: Arc<T>,
}

impl<T> View for SharedOwnership<T> {
    type V = T;

    /// The value that the handle, and every clone of it, leads to.
    closed spec fn view(&self) -> T {
        *self.inner
    }
}

impl<T> SharedOwnership<T> {
    /// Wraps `value` and returns its first handle.
    pub fn new(value: T) -> (handle: Self)
        ensures
            handle@ == value,
    {
        SharedOwnership { inner: Arc::new(value) }
    }

    /// Read access to the value, for as long as the handle is borrowed.
    pub fn get(&self) -> (value: &T)
        ensures
            *value == self@,
    {
        &*self.inner
    }
}

impl<T> Clone for SharedOwnership<T> {
    /// One more handle to the same value.
    fn clone(&self) -> (handle: Self)
        ensures
            handle@ == self@,
    {
        SharedOwnership { inner: self.inner.clone() }
    }
}

impl<T> std::ops::Deref for SharedOwnership<T> {
    type Target = T;

    /// Read access to the value, as `get` gives it.
    fn deref(&self) -> (value: &T)
        ensures
            *value == self@,
    {
        &*self.inner
    }
}

} // verus!
