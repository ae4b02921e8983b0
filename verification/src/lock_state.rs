//! A model of the ownership record of a lock: who holds it, and how many
//! times.
//!
//! Both locks of this library are modelled by one record and differ in a
//! single rule. Under `Policy::Exclusive` a held lock admits nobody, its holder
//! included. Under `Policy::Reentrant` the owner is admitted again, and the
//! lock is free once it has given back every acquisition. Where a lock would
//! make a thread wait, the model answers `Blocked` and leaves the thread to
//! ask again. The locks themselves do not run on it.

use vstd::prelude::*;

verus! {

/// What a lock does with a request of the thread that already holds it.
#[derive(Debug, Clone, Copy, PartialEq, Eq, Structural)]
pub enum Policy {
    /// The request waits like any other: a thread that asks twice waits for
    /// itself, forever.
    Exclusive,
    /// The request is granted at once and counted.
    Reentrant,
}

/// What a thread can do to a lock. The number names the thread.
#[derive(Debug, Clone, Copy, PartialEq, Eq, Structural)]
pub enum LockEvent {
    /// The thread asks for the lock.
    Acquire(u64),
    /// One guard of the thread ends.
    Release(u64),
}

/// The record as mathematics: the owner, if any, and its live acquisitions.
pub struct LockRecord {
    pub owner: Option<u64>,
    pub count: nat,
}

impl LockRecord {
    /// The record of a lock that nobody holds.
    pub open spec fn free() -> LockRecord {
        LockRecord { owner: None, count: 0 }
    }

    /// The count is positive exactly while there is an owner.
    pub open spec fn wf(self) -> bool {
        self.count > 0 <==> self.owner is Some
    }

    /// Whether `thread` holds the lock.
    pub open spec fn held_by(self, thread: u64) -> bool {
        self.owner == Some(thread)
    }
}

/// Whether the lock lets `event` happen now. A request that is not admitted
/// waits; a release is admitted only from the owner.
pub open spec fn admits(policy: Policy, record: LockRecord, event: LockEvent) -> bool {
    match event {
        LockEvent::Acquire(thread) => record.owner is None || (policy == Policy::Reentrant
            && record.held_by(thread)),
        LockEvent::Release(thread) => record.held_by(thread) && record.count > 0,
    }
}

/// The record after `event`. An event that is not admitted changes nothing.
pub open spec fn step(policy: Policy, record: LockRecord, event: LockEvent) -> LockRecord {
    if !admits(policy, record, event) {
        record
    } else {
        match event {
            LockEvent::Acquire(thread) => if record.owner is None {
                LockRecord { owner: Some(thread), count: 1 }
            } else {
                LockRecord { owner: record.owner, count: record.count + 1 }
            },
            LockEvent::Release(thread) => if record.count == 1 {
                LockRecord::free()
            } else {
                LockRecord { owner: record.owner, count: (record.count - 1) as nat }
            },
        }
    }
}

/// The outcome of a request.
#[derive(Debug, Clone, Copy, PartialEq, Eq, Structural)]
pub enum Acquisition {
    /// The caller holds the lock.
    Granted,
    /// The caller has to wait and ask again.
    Blocked,
}

/// The ownership record of one lock.
#[derive(Debug)]
pub struct LockState {
    policy: Policy,
    owner: Option<u64>,
    count: u64,
}

impl LockState {
    /// The rule by which this lock treats its holder.
    pub closed spec fn policy(&self) -> Policy {
        self.policy
    }

    /// The owner and the count that the fields hold.
    pub closed spec fn record(&self) -> LockRecord {
        LockRecord { owner: self.owner, count: self.count as nat }
    }

    /// The record is well formed, and an exclusive lock is held at most once.
    #[verifier::type_invariant]
    spec fn inv(&self) -> bool {
        &&& self.count > 0 <==> self.owner is Some
        &&& self.policy == Policy::Exclusive ==> self.count <= 1
    }

    /// A free lock that never admits its holder again.
    pub fn exclusive() -> (state: Self)
        ensures
            state.policy() == Policy::Exclusive,
            state.record() == LockRecord::free(),
    {
        LockState { policy: Policy::Exclusive, owner: None, count: 0 }
    }

    /// A free lock that admits its owner again.
    pub fn reentrant() -> (state: Self)
        ensures
            state.policy() == Policy::Reentrant,
            state.record() == LockRecord::free(),
    {
        LockState { policy: Policy::Reentrant, owner: None, count: 0 }
    }

    /// `thread` asks for the lock. On a free lock it becomes the owner with a
    /// count of one. The owner of a reentrant lock is granted again and the
    /// count grows by one. Every other request is blocked and changes nothing.
    pub fn acquire(&mut self, thread: u64) -> (outcome: Acquisition)
        requires
            old(self).record().count < u64::MAX,
        ensures
            final(self).policy() == old(self).policy(),
            final(self).record() == step(old(self).policy(), old(self).record(), LockEvent::Acquire(thread)),
            outcome == Acquisition::Granted <==> admits(
                old(self).policy(),
                old(self).record(),
                LockEvent::Acquire(thread),
            ),
            outcome == Acquisition::Granted ==> final(self).record().held_by(thread),
            outcome == Acquisition::Blocked ==> *final(self) == *old(self),
            final(self).record().wf(),
            final(self).policy() == Policy::Exclusive ==> final(self).record().count <= 1,
    {
        proof {
            use_type_invariant(&*self);
        }
        match self.owner {
            None => {
                *self = LockState { policy: self.policy, owner: Some(thread), count: 1 };
                Acquisition::Granted
            },
            Some(owner) => {
                if owner == thread && self.policy == Policy::Reentrant {
                    self.count = self.count + 1;
                    Acquisition::Granted
                } else {
                    Acquisition::Blocked
                }
            },
        }
    }

    /// One guard of `thread`, the owner, ends. The count falls by one, and at
    /// zero the lock is free.
    pub fn release(&mut self, thread: u64)
        requires
            old(self).record().held_by(thread),
        ensures
            final(self).policy() == old(self).policy(),
            final(self).record() == step(old(self).policy(), old(self).record(), LockEvent::Release(thread)),
            final(self).record().count == old(self).record().count - 1,
            final(self).record().owner is None <==> old(self).record().count == 1,
            final(self).record().wf(),
    {
        proof {
            use_type_invariant(&*self);
        }
        if self.count == 1 {
            *self = LockState { policy: self.policy, owner: None, count: 0 };
        } else {
            self.count = self.count - 1;
        }
    }

    /// Whether some thread holds the lock.
    pub fn is_locked(&self) -> (answer: bool)
        ensures
            answer == self.record().owner is Some,
    {
        self.owner.is_some()
    }

    /// Whether `thread` holds the lock.
    pub fn is_held_by(&self, thread: u64) -> (answer: bool)
        ensures
            answer == self.record().held_by(thread),
    {
        match self.owner {
            Some(owner) => owner == thread,
            None => false,
        }
    }

    /// The live acquisitions of the owner; zero on a free lock.
    pub fn depth(&self) -> (count: u64)
        ensures
            count == self.record().count,
    {
        self.count
    }
}

/// The record of a lock that started free and saw `trace`, oldest event first.
pub open spec fn run(policy: Policy, trace: Seq<LockEvent>) -> LockRecord
    decreases trace.len(),
{
    if trace.len() == 0 {
        LockRecord::free()
    } else {
        step(policy, run(policy, trace.drop_last()), trace.last())
    }
}

/// The guards that `trace` gave to `thread` and that have not ended yet.
pub open spec fn guards_alive(policy: Policy, trace: Seq<LockEvent>, thread: u64) -> int
    decreases trace.len(),
{
    if trace.len() == 0 {
        0
    } else {
        let before = trace.drop_last();
        let earlier = guards_alive(policy, before, thread);
        match trace.last() {
            LockEvent::Acquire(asking) => if asking == thread && admits(
                policy,
                run(policy, before),
                trace.last(),
            ) {
                earlier + 1
            } else {
                earlier
            },
            LockEvent::Release(leaving) => if leaving == thread {
                earlier - 1
            } else {
                earlier
            },
        }
    }
}

/// A trace in which only guards that exist end: each release finds a live
/// guard of its thread.
pub open spec fn well_scoped(policy: Policy, trace: Seq<LockEvent>) -> bool
    decreases trace.len(),
{
    if trace.len() == 0 {
        true
    } else {
        let before = trace.drop_last();
        &&& well_scoped(policy, before)
        &&& trace.last() matches LockEvent::Release(leaving) ==> guards_alive(
            policy,
            before,
            leaving,
        ) > 0
    }
}

/// The record always tells who holds guards: a thread has live guards exactly
/// while it is the owner, and then as many as the count says. An exclusive lock
/// never counts beyond one.
pub proof fn law_record_tracks_guards(policy: Policy, trace: Seq<LockEvent>, thread: u64)
    requires
        well_scoped(policy, trace),
    ensures
        run(policy, trace).wf(),
        policy == Policy::Exclusive ==> run(policy, trace).count <= 1,
        guards_alive(policy, trace, thread) >= 0,
        guards_alive(policy, trace, thread) > 0 <==> run(policy, trace).held_by(thread),
        run(policy, trace).held_by(thread) ==> guards_alive(policy, trace, thread) == run(
            policy,
            trace,
        ).count,
    decreases trace.len(),
{
    if trace.len() > 0 {
        let before = trace.drop_last();
        law_record_tracks_guards(policy, before, thread);
        match trace.last() {
            LockEvent::Acquire(asking) => {
                law_record_tracks_guards(policy, before, asking);
            },
            LockEvent::Release(leaving) => {
                law_record_tracks_guards(policy, before, leaving);
            },
        }
    }
}

/// Every prefix of a well-scoped trace is well scoped.
pub proof fn lemma_prefix_well_scoped(policy: Policy, trace: Seq<LockEvent>, upto: int)
    requires
        well_scoped(policy, trace),
        0 <= upto <= trace.len(),
    ensures
        well_scoped(policy, trace.take(upto)),
    decreases trace.len(),
{
    if upto == trace.len() {
        assert(trace.take(upto) =~= trace);
    } else {
        lemma_prefix_well_scoped(policy, trace.drop_last(), upto);
        assert(trace.drop_last().take(upto) =~= trace.take(upto));
    }
}

/// Mutual exclusion, under either policy: at no point of a trace do two
/// different threads both have a live guard.
pub proof fn law_mutual_exclusion(
    policy: Policy,
    trace: Seq<LockEvent>,
    first: u64,
    second: u64,
)
    requires
        well_scoped(policy, trace),
        first != second,
    ensures
        forall|upto: int|
            0 <= upto <= trace.len() ==> !(guards_alive(policy, #[trigger] trace.take(upto), first)
                > 0 && guards_alive(policy, trace.take(upto), second) > 0),
{
    assert forall|upto: int| 0 <= upto <= trace.len() implies !(guards_alive(
        policy,
        #[trigger] trace.take(upto),
        first,
    ) > 0 && guards_alive(policy, trace.take(upto), second) > 0) by {
        lemma_prefix_well_scoped(policy, trace, upto);
        law_record_tracks_guards(policy, trace.take(upto), first);
        law_record_tracks_guards(policy, trace.take(upto), second);
    }
}

/// Reentrancy. A thread with a live guard of a reentrant lock is granted again
/// at once, which adds one guard and one to the count. The lock stays held by
/// that thread, and closed to every other, for as long as one of its guards
/// lives; it is free exactly when the last of them has ended.
pub proof fn law_reentrancy(trace: Seq<LockEvent>, thread: u64, other: u64)
    requires
        well_scoped(Policy::Reentrant, trace),
        guards_alive(Policy::Reentrant, trace, thread) > 0,
        other != thread,
    ensures
        admits(Policy::Reentrant, run(Policy::Reentrant, trace), LockEvent::Acquire(thread)),
        run(Policy::Reentrant, trace.push(LockEvent::Acquire(thread))) == (LockRecord {
            owner: Some(thread),
            count: run(Policy::Reentrant, trace).count + 1,
        }),
        guards_alive(Policy::Reentrant, trace.push(LockEvent::Acquire(thread)), thread)
            == guards_alive(Policy::Reentrant, trace, thread) + 1,
        run(Policy::Reentrant, trace).held_by(thread),
        !admits(Policy::Reentrant, run(Policy::Reentrant, trace), LockEvent::Acquire(other)),
        run(Policy::Reentrant, trace.push(LockEvent::Release(thread))).owner is None
            <==> guards_alive(Policy::Reentrant, trace, thread) == 1,
{
    law_record_tracks_guards(Policy::Reentrant, trace, thread);
    assert(trace.push(LockEvent::Acquire(thread)).drop_last() =~= trace);
    assert(trace.push(LockEvent::Release(thread)).drop_last() =~= trace);
}

/// Self-deadlock. A thread with a live guard of an exclusive lock that asks
/// again is not admitted, and neither is anybody else. While it waits it ends
/// no guard, and no other thread has one to end. So whatever follows, no
/// request is granted and the record never changes: the wait has no end.
pub proof fn law_self_deadlock(trace: Seq<LockEvent>, thread: u64, later: Seq<LockEvent>)
    requires
        well_scoped(Policy::Exclusive, trace + later),
        guards_alive(Policy::Exclusive, trace, thread) > 0,
        forall|i: int| 0 <= i < later.len() ==> later[i] != LockEvent::Release(thread),
    ensures
        !admits(Policy::Exclusive, run(Policy::Exclusive, trace), LockEvent::Acquire(thread)),
        run(Policy::Exclusive, trace + later) == run(Policy::Exclusive, trace),
        forall|asking: u64|
            guards_alive(Policy::Exclusive, trace + later, asking) == guards_alive(
                Policy::Exclusive,
                trace,
                asking,
            ),
        forall|i: int|
            0 <= i < later.len() ==> !admits(
                Policy::Exclusive,
                run(Policy::Exclusive, trace + #[trigger] later.take(i)),
                later[i],
            ),
    decreases later.len(),
{
    assert(trace + later.take(0) =~= trace);
    lemma_prefix_well_scoped(Policy::Exclusive, trace + later, trace.len() as int);
    assert((trace + later).take(trace.len() as int) =~= trace);
    law_record_tracks_guards(Policy::Exclusive, trace, thread);
    if later.len() == 0 {
        assert(trace + later =~= trace);
    } else {
        let shorter = later.drop_last();
        assert((trace + later).drop_last() =~= trace + shorter);
        law_self_deadlock(trace, thread, shorter);
        match later.last() {
            LockEvent::Acquire(asking) => {},
            LockEvent::Release(leaving) => {
                law_record_tracks_guards(Policy::Exclusive, trace + shorter, leaving);
                law_record_tracks_guards(Policy::Exclusive, trace, leaving);
            },
        }
        assert forall|i: int| 0 <= i < later.len() implies !admits(
            Policy::Exclusive,
            run(Policy::Exclusive, trace + #[trigger] later.take(i)),
            later[i],
        ) by {
            if i < shorter.len() {
                assert(shorter.take(i) =~= later.take(i));
            } else {
                assert(later.take(i) =~= shorter);
            }
        }
    }
}

} // verus!
