//! A model of the borrow counter of a dynamically checked cell: one writer or
//! any number of readers, never both.
//!
//! The counter is `0` while the cell is free, `n > 0` while `n` shared borrows
//! are alive and `-1` while one exclusive borrow is alive. The model answers
//! every request at once; `DynamicBorrowCell` does not run on it.

use vstd::prelude::*;

verus! {

/// A borrow request was refused: it would overlap a live borrow that it cannot
/// coexist with.
#[derive(Debug, Clone, Copy, PartialEq, Eq, Structural)]
pub struct BorrowConflict;

/// What can be asked of a borrow counter.
#[derive(Debug, Clone, Copy, PartialEq, Eq, Structural)]
pub enum BorrowEvent {
    /// A shared borrow is requested.
    RequestShared,
    /// An exclusive borrow is requested.
    RequestExclusive,
    /// A shared token ends.
    DropShared,
    /// The exclusive token ends.
    DropExclusive,
}

/// Whether a counter lets `event` happen: a shared request passes unless a
/// writer is alive, an exclusive request only on a free cell, and a token can
/// end only where the counter records one of its kind.
pub open spec fn admits(counter: int, event: BorrowEvent) -> bool {
    match event {
        BorrowEvent::RequestShared => counter >= 0,
        BorrowEvent::RequestExclusive => counter == 0,
        BorrowEvent::DropShared => counter > 0,
        BorrowEvent::DropExclusive => counter == -1,
    }
}

/// The counter after `event`. An event that is not admitted changes nothing.
pub open spec fn step(counter: int, event: BorrowEvent) -> int {
    if !admits(counter, event) {
        counter
    } else {
        match event {
            BorrowEvent::RequestShared => counter + 1,
            BorrowEvent::RequestExclusive => -1,
            BorrowEvent::DropShared => counter - 1,
            BorrowEvent::DropExclusive => 0,
        }
    }
}

/// The borrow counter of one cell.
#[derive(Debug)]
pub struct BorrowState {
    counter: i64,
}

impl BorrowState {
    /// The counter as a mathematical integer.
    pub closed spec fn counter(&self) -> int {
        self.counter as int
    }

    /// No counter is below `-1`.
    #[verifier::type_invariant]
    spec fn inv(&self) -> bool {
        self.counter >= -1
    }

    /// No borrow is alive.
    pub open spec fn is_free(&self) -> bool {
        self.counter() == 0
    }

    /// One exclusive borrow is alive.
    pub open spec fn is_exclusive(&self) -> bool {
        self.counter() == -1
    }

    /// The number of shared borrows that are alive.
    pub open spec fn shared_count(&self) -> nat {
        if self.counter() > 0 {
            self.counter() as nat
        } else {
            0
        }
    }

    /// The counter of a cell that nobody has borrowed.
    pub fn new() -> (state: Self)
        ensures
            state.counter() == 0,
    {
        BorrowState { counter: 0 }
    }

    /// Asks for a shared borrow. It is granted, and counted, unless an
    /// exclusive borrow is alive; a refusal leaves the counter as it was.
    pub fn borrow(&mut self) -> (outcome: Result<(), BorrowConflict>)
        requires
            old(self).counter() < i64::MAX,
        ensures
            outcome is Ok <==> !old(self).is_exclusive(),
            outcome is Ok <==> admits(old(self).counter(), BorrowEvent::RequestShared),
            final(self).counter() == step(old(self).counter(), BorrowEvent::RequestShared),
            outcome is Ok ==> final(self).shared_count() == old(self).shared_count() + 1,
            outcome is Err ==> *final(self) == *old(self),
    {
        proof {
            use_type_invariant(&*self);
        }
        if self.counter >= 0 {
            self.counter = self.counter + 1;
            Ok(())
        } else {
            Err(BorrowConflict)
        }
    }

    /// Asks for the exclusive borrow. It is granted only while no borrow of
    /// either kind is alive; a refusal leaves the counter as it was.
    pub fn borrow_mut(&mut self) -> (outcome: Result<(), BorrowConflict>)
        ensures
            outcome is Ok <==> old(self).is_free(),
            outcome is Ok <==> admits(old(self).counter(), BorrowEvent::RequestExclusive),
            final(self).counter() == step(old(self).counter(), BorrowEvent::RequestExclusive),
            outcome is Ok ==> final(self).is_exclusive(),
            outcome is Err ==> *final(self) == *old(self),
    {
        if self.counter == 0 {
            self.counter = -1;
            Ok(())
        } else {
            Err(BorrowConflict)
        }
    }

    /// Ends one shared borrow.
    pub fn release_shared(&mut self)
        requires
            old(self).shared_count() > 0,
        ensures
            final(self).counter() == step(old(self).counter(), BorrowEvent::DropShared),
            final(self).shared_count() == old(self).shared_count() - 1,
            !final(self).is_exclusive(),
    {
        self.counter = self.counter - 1;
    }

    /// Ends the exclusive borrow, which frees the cell.
    pub fn release_exclusive(&mut self)
        requires
            old(self).is_exclusive(),
        ensures
            final(self).counter() == step(old(self).counter(), BorrowEvent::DropExclusive),
            final(self).is_free(),
    {
        self.counter = 0;
    }

    /// Whether no borrow is alive.
    pub fn free(&self) -> (answer: bool)
        ensures
            answer == self.is_free(),
    {
        self.counter == 0
    }

    /// Whether an exclusive borrow is alive.
    pub fn exclusive(&self) -> (answer: bool)
        ensures
            answer == self.is_exclusive(),
    {
        self.counter == -1
    }

    /// The number of live shared borrows.
    pub fn shared(&self) -> (n: u64)
        ensures
            n == self.shared_count(),
    {
        if self.counter > 0 {
            self.counter as u64
        } else {
            0
        }
    }
}

/// The counter of a cell that started free and saw `trace`, oldest event first.
pub open spec fn run(trace: Seq<BorrowEvent>) -> int
    decreases trace.len(),
{
    if trace.len() == 0 {
        0
    } else {
        step(run(trace.drop_last()), trace.last())
    }
}

/// The shared tokens that `trace` handed out and that have not ended yet.
pub open spec fn shared_alive(trace: Seq<BorrowEvent>) -> int
    decreases trace.len(),
{
    if trace.len() == 0 {
        0
    } else {
        let before = trace.drop_last();
        match trace.last() {
            BorrowEvent::RequestShared => if admits(run(before), BorrowEvent::RequestShared) {
                shared_alive(before) + 1
            } else {
                shared_alive(before)
            },
            BorrowEvent::DropShared => shared_alive(before) - 1,
            _ => shared_alive(before),
        }
    }
}

/// The exclusive tokens that `trace` handed out and that have not ended yet.
pub open spec fn exclusive_alive(trace: Seq<BorrowEvent>) -> int
    decreases trace.len(),
{
    if trace.len() == 0 {
        0
    } else {
        let before = trace.drop_last();
        match trace.last() {
            BorrowEvent::RequestExclusive => if admits(run(before), BorrowEvent::RequestExclusive) {
                exclusive_alive(before) + 1
            } else {
                exclusive_alive(before)
            },
            BorrowEvent::DropExclusive => exclusive_alive(before) - 1,
            _ => exclusive_alive(before),
        }
    }
}

/// A trace in which only tokens that exist end: each drop finds a live token
/// of its kind.
pub open spec fn well_scoped(trace: Seq<BorrowEvent>) -> bool
    decreases trace.len(),
{
    if trace.len() == 0 {
        true
    } else {
        let before = trace.drop_last();
        &&& well_scoped(before)
        &&& trace.last() == BorrowEvent::DropShared ==> shared_alive(before) > 0
        &&& trace.last() == BorrowEvent::DropExclusive ==> exclusive_alive(before) > 0
    }
}

/// The counter always tells which tokens are alive: it is `-1` exactly while
/// the one exclusive token lives, and otherwise it is the number of live shared
/// tokens. A cell is therefore never borrowed exclusively and shared at once.
pub proof fn law_counter_tracks_tokens(trace: Seq<BorrowEvent>)
    requires
        well_scoped(trace),
    ensures
        run(trace) >= -1,
        0 <= exclusive_alive(trace) <= 1,
        shared_alive(trace) >= 0,
        exclusive_alive(trace) == 1 <==> run(trace) == -1,
        exclusive_alive(trace) == 0 ==> run(trace) == shared_alive(trace),
        !(exclusive_alive(trace) > 0 && shared_alive(trace) > 0),
    decreases trace.len(),
{
    if trace.len() > 0 {
        law_counter_tracks_tokens(trace.drop_last());
    }
}

/// Borrow exclusivity. While any token is alive an exclusive request is
/// refused; while only shared tokens are alive a shared request is granted and
/// raises their number by one; a refused request changes neither the counter
/// nor the tokens, so that once every token has ended both kinds of request
/// are granted again.
pub proof fn law_borrow_exclusivity(trace: Seq<BorrowEvent>)
    requires
        well_scoped(trace),
    ensures
        shared_alive(trace) > 0 || exclusive_alive(trace) > 0 ==> !admits(
            run(trace),
            BorrowEvent::RequestExclusive,
        ),
        exclusive_alive(trace) > 0 ==> !admits(run(trace), BorrowEvent::RequestShared),
        exclusive_alive(trace) == 0 ==> admits(run(trace), BorrowEvent::RequestShared)
            && shared_alive(trace.push(BorrowEvent::RequestShared)) == shared_alive(trace) + 1,
        forall|request: BorrowEvent|
            (request == BorrowEvent::RequestShared || request == BorrowEvent::RequestExclusive)
                && !admits(run(trace), request) ==> {
                &&& run(#[trigger] trace.push(request)) == run(trace)
                &&& shared_alive(trace.push(request)) == shared_alive(trace)
                &&& exclusive_alive(trace.push(request)) == exclusive_alive(trace)
                &&& well_scoped(trace.push(request))
            },
        shared_alive(trace) == 0 && exclusive_alive(trace) == 0 ==> admits(
            run(trace),
            BorrowEvent::RequestShared,
        ) && admits(run(trace), BorrowEvent::RequestExclusive),
{
    law_counter_tracks_tokens(trace);
    assert forall|request: BorrowEvent| true implies (#[trigger] trace.push(request)).drop_last()
        == trace by {
        assert(trace.push(request).drop_last() =~= trace);
    }
}

} // verus!
