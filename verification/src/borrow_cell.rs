//! The dynamically checked cell: shared and exclusive access to a value behind
//! a shared reference, with the aliasing rule enforced when a borrow is asked
//! for.
//!
//! The cell is `std::cell::RefCell`. Its counter changes behind a shared
//! reference and is hidden from Verus, so whether a request is granted is not
//! stated here. `borrow_state` is a model of the counter, proved on its own;
//! nothing proves that `RefCell` agrees with the model, and the tests hold the
//! two side by side. A request never waits and never panics: it is granted or
//! it fails with `BorrowConflict`.
//!
//! What a live borrow leads to is a function of the borrow. It has a name
//! where the value is a `SomeData`: a name takes no type parameter, so the
//! getters for any `T` state nothing, and the tokens of a record have getters
//! of their own that do.

use crate::borrow_state::BorrowConflict;
use crate::record::SomeData;
use std::cell::{BorrowError, BorrowMutError, Ref, RefCell, RefMut};
use vstd::prelude::*;

verus! {

/// `std::cell::RefCell`.
#[verifier::external_type_specification]
#[verifier::external_body]
#[verifier::reject_recursive_types(T)]
pub struct ExRefCell<T: ?Sized>(RefCell<T>);

/// `std::cell::Ref`, a live shared borrow of a `RefCell`.
#[verifier::external_type_specification]
#[verifier::external_body]
#[verifier::reject_recursive_types(T)]
pub struct ExRef<'b, T: ?Sized>(Ref<'b, T>);

/// `std::cell::RefMut`, the live exclusive borrow of a `RefCell`.
#[verifier::external_type_specification]
#[verifier::external_body]
#[verifier::reject_recursive_types(T)]
pub struct ExRefMut<'b, T: ?Sized + 'b>(RefMut<'b, T>);

/// `std::cell::BorrowError`, the refusal of a shared borrow.
#[verifier::external_type_specification]
#[verifier::external_body]
pub struct ExBorrowError(BorrowError);

/// `std::cell::BorrowMutError`, the refusal of an exclusive borrow.
#[verifier::external_type_specification]
#[verifier::external_body]
pub struct ExBorrowMutError(BorrowMutError);

/// A value that can be read and written through a shared reference, one
/// writer or any number of readers at a time. It is for one thread: put it
/// inside a lock to share it.
#[verifier::reject_recursive_types(T)]
pub struct DynamicBorrowCell<T> {
    inner: RefCell<T>,
}

/// A live shared borrow. It ends when the token goes out of scope.
#[verifier::reject_recursive_types(T)]
pub struct SharedBorrowToken<'a, T> {
    inner: Ref<'a, T>,
}

/// The live exclusive borrow. It ends when the token goes out of scope.
#[verifier::reject_recursive_types(T)]
pub struct ExclusiveBorrowToken<'a, T> {
    inner: RefMut<'a, T>,
}

/// The record that a live shared borrow leads to. It cannot change while the
/// borrow lives.
pub uninterp spec fn shared_record(borrow: Ref<'static, SomeData>) -> SomeData;

/// The record that a live exclusive borrow leads to. It changes only through
/// that borrow.
pub uninterp spec fn exclusive_record(borrow: RefMut<'static, SomeData>) -> SomeData;

impl<'a> View for SharedBorrowToken<'a, SomeData> {
    type V = SomeData;

    /// The record that the token reads.
    closed spec fn view(&self) -> SomeData {
        shared_record(self.inner)
    }
}

impl<'a> View for ExclusiveBorrowToken<'a, SomeData> {
    type V = SomeData;

    /// The record that the token reads and writes.
    closed spec fn view(&self) -> SomeData {
        exclusive_record(self.inner)
    }
}

impl<'a> SharedBorrowToken<'a, SomeData> {
    /// Read access to the borrowed record.
    pub fn record(&self) -> (record: &SomeData)
        ensures
            *record == self@,
    {
        record_shared_target(&self.inner)
    }
}

impl<'a> ExclusiveBorrowToken<'a, SomeData> {
    /// Read access to the borrowed record.
    pub fn record(&self) -> (record: &SomeData)
        ensures
            *record == self@,
    {
        record_exclusive_target(&self.inner)
    }

    /// Write access to the borrowed record: what is written through the
    /// reference is what the token leads to afterwards.
    pub fn record_mut(&mut self) -> (record: &mut SomeData)
        ensures
            *record == old(self)@,
            *final(record) == final(self)@,
    {
        record_exclusive_target_mut(&mut self.inner)
    }

    /// Gives the borrowed record a new name and returns the one it had.
    pub fn rename(&mut self, new_name: String) -> (old_name: String)
        ensures
            final(self)@.name@ == new_name@,
            old_name@ == old(self)@.name@,
    {
        self.record_mut().rename(new_name)
    }
}

/// Turns the cell's answer to a shared request into the library's: the borrow
/// in a token, or `BorrowConflict` for a refusal.
pub fn shared_outcome<'a, T>(answer: Result<Ref<'a, T>, BorrowError>) -> (outcome: Result<
    SharedBorrowToken<'a, T>,
    BorrowConflict,
>)
    ensures
        outcome is Ok <==> answer is Ok,
        answer matches Ok(borrow) ==> outcome matches Ok(token) && token.held() == borrow,
{
    match answer {
        Ok(borrow) => Ok(SharedBorrowToken { inner: borrow }),
        Err(_) => Err(BorrowConflict),
    }
}

/// Turns the cell's answer to an exclusive request into the library's: the
/// borrow in a token, or `BorrowConflict` for a refusal.
pub fn exclusive_outcome<'a, T>(answer: Result<RefMut<'a, T>, BorrowMutError>) -> (outcome: Result<
    ExclusiveBorrowToken<'a, T>,
    BorrowConflict,
>)
    ensures
        outcome is Ok <==> answer is Ok,
        answer matches Ok(borrow) ==> outcome matches Ok(token) && token.held() == borrow,
{
    match answer {
        Ok(borrow) => Ok(ExclusiveBorrowToken { inner: borrow }),
        Err(_) => Err(BorrowConflict),
    }
}

impl<T> DynamicBorrowCell<T> {
    /// A free cell around `value`.
    pub fn new(value: T) -> (cell: Self) {
        DynamicBorrowCell { inner: cell_new(value) }
    }

    /// Asks for a shared borrow. The cell grants it unless an exclusive borrow
    /// is alive.
    pub fn borrow(&self) -> (outcome: Result<SharedBorrowToken<'_, T>, BorrowConflict>) {
        shared_outcome(cell_try_borrow(&self.inner))
    }

    /// Asks for the exclusive borrow. The cell grants it only while no borrow
    /// of either kind is alive.
    pub fn borrow_mut(&self) -> (outcome: Result<ExclusiveBorrowToken<'_, T>, BorrowConflict>) {
        exclusive_outcome(cell_try_borrow_mut(&self.inner))
    }
}

impl<'a, T> SharedBorrowToken<'a, T> {
    /// The borrow of the cell that the token keeps alive.
    pub closed spec fn held(self) -> Ref<'a, T> {
        self.inner
    }

    /// Read access to the borrowed value.
    pub fn get(&self) -> (value: &T) {
        shared_target(&self.inner)
    }
}

impl<'a, T> ExclusiveBorrowToken<'a, T> {
    /// The borrow of the cell that the token keeps alive.
    pub closed spec fn held(self) -> RefMut<'a, T> {
        self.inner
    }

    /// Read access to the borrowed value.
    pub fn get(&self) -> (value: &T) {
        exclusive_target(&self.inner)
    }

    /// Write access to the borrowed value.
    pub fn get_mut(&mut self) -> (value: &mut T) {
        exclusive_target_mut(&mut self.inner)
    }
}

/// `RefCell::new`: a cell that holds `value` and is not borrowed. Nothing is
/// claimed of it.
#[verifier::external_body]
fn cell_new<T>(value: T) -> (cell: RefCell<T>) {
    RefCell::new(value)
}

/// `RefCell::try_borrow`: a shared borrow, or an error while the cell is
/// exclusively borrowed. Which of the two is not claimed.
#[verifier::external_body]
fn cell_try_borrow<'a, T>(cell: &'a RefCell<T>) -> (answer: Result<Ref<'a, T>, BorrowError>) {
    cell.try_borrow()
}

/// `RefCell::try_borrow_mut`: the exclusive borrow, or an error while the cell
/// is borrowed. Which of the two is not claimed.
#[verifier::external_body]
fn cell_try_borrow_mut<'a, T>(cell: &'a RefCell<T>) -> (answer: Result<
    RefMut<'a, T>,
    BorrowMutError,
>) {
    cell.try_borrow_mut()
}

/// `Deref::deref` of `Ref`: the borrowed value. Nothing is claimed of it.
#[verifier::external_body]
fn shared_target<'g, 'a, T>(borrow: &'g Ref<'a, T>) -> (value: &'g T) {
    &**borrow
}

/// `Deref::deref` of `RefMut`: the borrowed value. Nothing is claimed of it.
#[verifier::external_body]
fn exclusive_target<'g, 'a, T>(borrow: &'g RefMut<'a, T>) -> (value: &'g T) {
    &**borrow
}

/// `DerefMut::deref_mut` of `RefMut`: the borrowed value, to write to. Nothing
/// is claimed of it.
#[verifier::external_body]
fn exclusive_target_mut<'g, 'a, T>(borrow: &'g mut RefMut<'a, T>) -> (value: &'g mut T) {
    &mut **borrow
}

/// `Deref::deref` of `Ref` on a borrow of a record: the reference leads to
/// the record that the borrow leads to.
#[verifier::external_body]
fn record_shared_target<'g, 'a>(borrow: &'g Ref<'a, SomeData>) -> (record: &'g SomeData)
    ensures
        *record == shared_record(*borrow),
{
    &**borrow
}

/// `Deref::deref` of `RefMut` on a borrow of a record: the reference leads to
/// the record that the borrow leads to.
#[verifier::external_body]
fn record_exclusive_target<'g, 'a>(borrow: &'g RefMut<'a, SomeData>) -> (record: &'g SomeData)
    ensures
        *record == exclusive_record(*borrow),
{
    &**borrow
}

/// `DerefMut::deref_mut` of `RefMut` on a borrow of a record: the reference
/// starts at the record that the borrow leads to, and what it holds in the end
/// is what the borrow leads to from then on.
#[verifier::external_body]
fn record_exclusive_target_mut<'g, 'a>(borrow: &'g mut RefMut<'a, SomeData>) -> (record:
    &'g mut SomeData)
    ensures
        *record == exclusive_record(*old(borrow)),
        *final(record) == exclusive_record(*final(borrow)),
{
    &mut **borrow
}

} // verus!
