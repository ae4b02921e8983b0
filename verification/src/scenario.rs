//! A named record behind each kind of lock, and the calls that walk through
//! what each lock allows: a second acquisition by the holder, a read under
//! nested guards, and a change through a borrow that ends before the next one
//! begins.
//!
//! The functions take a handle by value, as a thread would, and return what
//! they found. Behind the reentrant lock alone the record cannot change, so
//! what is read there is the record of the lock. Behind a cell the record is
//! what the last borrow left: whether the cell grants a borrow, and what that
//! borrow finds, is the cell's to say. The contracts then state what is done
//! with the cell's answer, whichever it is.

use crate::borrow_cell::{DynamicBorrowCell, ExclusiveBorrowToken, SharedBorrowToken};
use crate::borrow_state::BorrowConflict;
use crate::exclusive::{ExclusiveGuard, ExclusiveLock};
use crate::record::SomeData;
use crate::reentrant::ReentrantLock;
use crate::shared::SharedOwnership;
use vstd::prelude::*;

verus! {

/// A handle to a record behind the exclusive lock.
pub type RegularData = SharedOwnership<ExclusiveLock<SomeData>>;

/// A handle to a record behind the reentrant lock, to read.
pub type ReentrantData = SharedOwnership<ReentrantLock<SomeData>>;

/// A handle to a record in a cell behind the reentrant lock, to read and to
/// change.
pub type ReentrantMutData = SharedOwnership<ReentrantLock<DynamicBorrowCell<SomeData>>>;

/// What a thread saw on its way through the reentrant lock with a cell.
pub struct Walk {
    /// The name that the first change replaced.
    pub replaced_first: String,
    /// The name that the read between the changes found.
    pub viewed: String,
    /// The name that the second change replaced.
    pub replaced_second: String,
}

/// What a read makes of the cell's answer: the name of the record that a
/// granted borrow leads to, or the conflict.
pub open spec fn view_post(
    borrow: Result<SharedBorrowToken<'static, SomeData>, BorrowConflict>,
    outcome: Result<String, BorrowConflict>,
) -> bool {
    match borrow {
        Ok(token) => outcome matches Ok(name) && name@ == token@.name@,
        Err(conflict) => outcome == Err::<String, BorrowConflict>(conflict),
    }
}

/// What a change makes of the cell's answer. A granted borrow, `before`, is
/// kept: `after` is the same borrow with the record renamed to `new_name`, and
/// the outcome is the name that the record had. A refusal stays a refusal.
pub open spec fn change_post(
    before: Result<ExclusiveBorrowToken<'static, SomeData>, BorrowConflict>,
    after: Result<ExclusiveBorrowToken<'static, SomeData>, BorrowConflict>,
    new_name: Seq<char>,
    outcome: Result<String, BorrowConflict>,
) -> bool {
    match before {
        Ok(found) => {
            &&& outcome matches Ok(old_name) && old_name@ == found@.name@
            &&& after matches Ok(left) && left@.name@ == new_name
        },
        Err(conflict) => {
            &&& outcome == Err::<String, BorrowConflict>(conflict)
            &&& after == before
        },
    }
}

/// A read was made of some answer of a cell, and gave `outcome`.
pub open spec fn viewed(outcome: Result<String, BorrowConflict>) -> bool {
    exists|borrow: Result<SharedBorrowToken<'static, SomeData>, BorrowConflict>|
        view_post(borrow, outcome)
}

/// A change to `new_name` was made of some answer of a cell, and gave
/// `outcome`.
pub open spec fn changed(new_name: Seq<char>, outcome: Result<String, BorrowConflict>) -> bool {
    exists|
        before: Result<ExclusiveBorrowToken<'static, SomeData>, BorrowConflict>,
        after: Result<ExclusiveBorrowToken<'static, SomeData>, BorrowConflict>,
    |
        change_post(before, after, new_name, outcome)
}

/// What a view and then a change come to: the first conflict, or the name
/// read and the name replaced.
pub open spec fn pair_post(
    seen: Result<String, BorrowConflict>,
    replaced: Result<String, BorrowConflict>,
    outcome: Result<(String, String), BorrowConflict>,
) -> bool {
    match seen {
        Err(conflict) => outcome == Err::<(String, String), BorrowConflict>(conflict),
        Ok(name) => match replaced {
            Err(conflict) => outcome == Err::<(String, String), BorrowConflict>(conflict),
            Ok(old_name) => outcome == Ok::<(String, String), BorrowConflict>((name, old_name)),
        },
    }
}

/// What a change and then a view with a change come to: the first conflict,
/// or the three names found.
pub open spec fn walk_post(
    first: Result<String, BorrowConflict>,
    rest: Result<(String, String), BorrowConflict>,
    outcome: Result<Walk, BorrowConflict>,
) -> bool {
    match first {
        Err(conflict) => outcome == Err::<Walk, BorrowConflict>(conflict),
        Ok(old_name) => match rest {
            Err(conflict) => outcome == Err::<Walk, BorrowConflict>(conflict),
            Ok(names) => outcome == Ok::<Walk, BorrowConflict>(
                Walk { replaced_first: old_name, viewed: names.0, replaced_second: names.1 },
            ),
        },
    }
}

/// A view was made of some answer of a cell and, where it was granted, a
/// change to "samantha" of some answer after it; `outcome` is what the two
/// come to.
pub open spec fn viewed_then_changed(outcome: Result<(String, String), BorrowConflict>) -> bool {
    exists|seen: Result<String, BorrowConflict>, replaced: Result<String, BorrowConflict>|
        viewed(seen) && (seen is Ok ==> changed("samantha"@, replaced)) && #[trigger] pair_post(
            seen,
            replaced,
            outcome,
        )
}

/// A change to "jane" was made of some answer of a cell and, where it was
/// granted, a view and a change to "samantha" after it; `outcome` is what they
/// come to.
pub open spec fn walked(outcome: Result<Walk, BorrowConflict>) -> bool {
    exists|first: Result<String, BorrowConflict>, rest: Result<(String, String), BorrowConflict>|
        changed("jane"@, first) && (first is Ok ==> viewed_then_changed(rest))
            && #[trigger] walk_post(first, rest, outcome)
}

/// Puts the results of a view and of the change after it together: the first
/// conflict, or both names.
pub fn pair_up(
    seen: Result<String, BorrowConflict>,
    replaced: Result<String, BorrowConflict>,
) -> (outcome: Result<(String, String), BorrowConflict>)
    ensures
        pair_post(seen, replaced, outcome),
{
    match seen {
        Err(conflict) => Err(conflict),
        Ok(name) => match replaced {
            Err(conflict) => Err(conflict),
            Ok(old_name) => Ok((name, old_name)),
        },
    }
}

/// Puts the result of the first change and of the rest of the walk together:
/// the first conflict, or the three names.
pub fn walk_of(
    first: Result<String, BorrowConflict>,
    rest: Result<(String, String), BorrowConflict>,
) -> (outcome: Result<Walk, BorrowConflict>)
    ensures
        walk_post(first, rest, outcome),
{
    match first {
        Err(conflict) => Err(conflict),
        Ok(old_name) => match rest {
            Err(conflict) => Err(conflict),
            Ok(names) => Ok(
                Walk { replaced_first: old_name, viewed: names.0, replaced_second: names.1 },
            ),
        },
    }
}

/// Reads the name through a shared borrow, where the cell granted one, and
/// passes a conflict on.
pub fn view_under(borrow: Result<SharedBorrowToken<'_, SomeData>, BorrowConflict>) -> (outcome:
    Result<String, BorrowConflict>)
    ensures
        view_post(borrow, outcome),
{
    match borrow {
        Ok(token) => Ok(token.record().name()),
        Err(conflict) => Err(conflict),
    }
}

/// Renames the record through the exclusive borrow, where the cell granted
/// it, and returns the name it had. The borrow stays with the caller. A
/// conflict is passed on.
pub fn change_under(
    borrow: &mut Result<ExclusiveBorrowToken<'_, SomeData>, BorrowConflict>,
    new_name: String,
) -> (outcome: Result<String, BorrowConflict>)
    ensures
        change_post(*old(borrow), *final(borrow), new_name@, outcome),
{
    match borrow {
        Ok(token) => Ok(token.rename(new_name)),
        Err(conflict) => Err(*conflict),
    }
}

/// Takes the exclusive lock and gives it back. Called by a thread that holds
/// the guard of `data` it never returns.
pub fn regular_fn2(data: RegularData) {
    let _ = data.get().acquire();
}

/// Takes the exclusive lock, reads the name, and with the guard still alive
/// asks for the lock again through `regular_fn2`: the thread waits for itself
/// and the call never returns. Were it to return, the name would be the one
/// that its guard found.
pub fn regular_fn1(data: RegularData) -> (name: String)
    ensures
        exists|guard: ExclusiveGuard<'static, SomeData>| name@ == guard@.name@,
{
    let guard = data.get().acquire();
    let name = guard.record().name();
    regular_fn2(data.clone());
    assert(name@ == guard@.name@);
    name
}

/// Takes the reentrant lock, whoever in this thread holds it already, and
/// reads the name of the record in the lock.
pub fn reentrant_fn2(data: ReentrantData) -> (name: String)
    ensures
        name@ == data@@.name@,
{
    let guard = data.get().acquire_record();
    guard.record().name()
}

/// Takes the reentrant lock, reads the name, and with the guard still alive
/// takes the lock again through `reentrant_fn2`. Returns the name as the outer
/// and as the inner guard found it: both times the name of the record in the
/// lock.
pub fn reentrant_fn1(data: ReentrantData) -> (names: (String, String))
    ensures
        names.0@ == data@@.name@,
        names.1@ == data@@.name@,
{
    let guard = data.get().acquire_record();
    let outer = guard.record().name();
    let inner = reentrant_fn2(data.clone());
    (outer, inner)
}

/// Takes the reentrant lock and asks the cell for a shared borrow. Returns
/// the name of the record that the borrow leads to, or the conflict where the
/// cell refused.
pub fn reentrant_mut_view_data(data: ReentrantMutData) -> (outcome: Result<String, BorrowConflict>)
    ensures
        viewed(outcome),
{
    let guard = data.get().acquire();
    let borrow = guard.get().borrow();
    let ghost answer = borrow;
    let outcome = view_under(borrow);
    assert(view_post(answer, outcome));
    outcome
}

/// Takes the reentrant lock and asks the cell for the exclusive borrow.
/// Renames the record that the borrow leads to and returns the name it had,
/// or, where the cell refused, changes nothing and returns the conflict.
pub fn reentrant_mut_change_data(data: ReentrantMutData, new_name: String) -> (outcome: Result<
    String,
    BorrowConflict,
>)
    ensures
        changed(new_name@, outcome),
{
    let guard = data.get().acquire();
    let mut borrow = guard.get().borrow_mut();
    let ghost before = borrow;
    let outcome = change_under(&mut borrow, new_name);
    assert(change_post(before, borrow, new_name@, outcome));
    outcome
}

/// Renames the record to "samantha" under the lock, and returns the name it
/// had.
pub fn reentrant_mut_fn3(data: ReentrantMutData) -> (outcome: Result<String, BorrowConflict>)
    ensures
        changed("samantha"@, outcome),
{
    reentrant_mut_change_data(data, "samantha".to_string())
}

/// Reads the name and then renames the record to "samantha", each in a borrow
/// of its own. Returns the name read and the name replaced. A refused view
/// ends the call with that conflict and no change is tried; a refused change
/// ends it with that one.
pub fn reentrant_mut_fn2(data: ReentrantMutData) -> (outcome: Result<
    (String, String),
    BorrowConflict,
>)
    ensures
        viewed_then_changed(outcome),
        outcome matches Ok(names) ==> viewed(Ok(names.0)) && changed("samantha"@, Ok(names.1)),
{
    let seen = reentrant_mut_view_data(data.clone());
    match seen {
        Err(conflict) => {
            let outcome = Err(conflict);
            assert(pair_post(
                seen,
                Err::<String, BorrowConflict>(conflict),
                outcome,
            ));
            outcome
        },
        Ok(name) => {
            let replaced = reentrant_mut_fn3(data);
            let ghost answer = replaced;
            let outcome = pair_up(Ok(name), replaced);
            assert(pair_post(seen, answer, outcome));
            outcome
        },
    }
}

/// Renames the record to "jane", reads it, and renames it to "samantha": three
/// borrows, each ended before the next begins. Returns what each found. The
/// first conflict ends the walk, and no later step is tried.
pub fn reentrant_mut_fn1(data: ReentrantMutData) -> (outcome: Result<Walk, BorrowConflict>)
    ensures
        walked(outcome),
        outcome matches Ok(walk) ==> {
            &&& changed("jane"@, Ok(walk.replaced_first))
            &&& viewed(Ok(walk.viewed))
            &&& changed("samantha"@, Ok(walk.replaced_second))
        },
{
    let first = reentrant_mut_change_data(data.clone(), "jane".to_string());
    match first {
        Err(conflict) => {
            let outcome = Err(conflict);
            assert(walk_post(
                first,
                Err::<(String, String), BorrowConflict>(conflict),
                outcome,
            ));
            outcome
        },
        Ok(old_name) => {
            let rest = reentrant_mut_fn2(data);
            let ghost answer = rest;
            let outcome = walk_of(Ok(old_name), rest);
            assert(walk_post(first, answer, outcome));
            outcome
        },
    }
}

} // verus!
