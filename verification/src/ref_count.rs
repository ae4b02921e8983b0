//! A model of the strong count of a shared-ownership handle: one per live
//! handle, and the value goes when the count falls from one to zero.
//! `SharedOwnership` does not run on it.

use vstd::prelude::*;

verus! {

/// What can happen to the handles of one shared value.
#[derive(Debug, Clone, Copy, PartialEq, Eq, Structural)]
pub enum HandleEvent {
    /// A live handle is cloned.
    Clone,
    /// A live handle is dropped.
    Drop,
}

/// The count after `event`. With no handle left nothing can happen any more.
pub open spec fn step(strong: nat, event: HandleEvent) -> nat {
    if strong == 0 {
        strong
    } else {
        match event {
            HandleEvent::Clone => strong + 1,
            HandleEvent::Drop => (strong - 1) as nat,
        }
    }
}

/// Whether `event` destroys the value: it is the drop of the last handle.
pub open spec fn destroys(strong: nat, event: HandleEvent) -> bool {
    strong == 1 && event == HandleEvent::Drop
}

/// The strong count of one shared value.
#[derive(Debug)]
pub struct RefCount {
    strong: u64,
}

impl RefCount {
    /// The number of live handles.
    pub closed spec fn view(&self) -> nat {
        self.strong as nat
    }

    /// The count of a value that was just wrapped: its first handle.
    pub fn new() -> (count: Self)
        ensures
            count@ == 1,
    {
        RefCount { strong: 1 }
    }

    /// A live handle is cloned: one more.
    pub fn retain(&mut self)
        requires
            0 < old(self)@ < u64::MAX,
        ensures
            final(self)@ == step(old(self)@, HandleEvent::Clone),
            final(self)@ == old(self)@ + 1,
    {
        self.strong = self.strong + 1;
    }

    /// A live handle is dropped: one less. The answer says whether it was the
    /// last one, so that the value is destroyed now.
    pub fn release(&mut self) -> (destroyed: bool)
        requires
            old(self)@ > 0,
        ensures
            final(self)@ == step(old(self)@, HandleEvent::Drop),
            final(self)@ == old(self)@ - 1,
            destroyed == destroys(old(self)@, HandleEvent::Drop),
            destroyed <==> final(self)@ == 0,
    {
        self.strong = self.strong - 1;
        self.strong == 0
    }

    /// The number of live handles.
    pub fn strong_count(&self) -> (n: u64)
        ensures
            n == self@,
    {
        self.strong
    }

    /// Whether the value still exists.
    pub fn is_alive(&self) -> (answer: bool)
        ensures
            answer == (self@ > 0),
    {
        self.strong > 0
    }
}

/// The count of a value that was wrapped and then saw `trace`, oldest event
/// first.
pub open spec fn run(trace: Seq<HandleEvent>) -> nat
    decreases trace.len(),
{
    if trace.len() == 0 {
        1
    } else {
        step(run(trace.drop_last()), trace.last())
    }
}

/// How often `trace` holds `event`.
pub open spec fn occurrences(trace: Seq<HandleEvent>, event: HandleEvent) -> nat
    decreases trace.len(),
{
    if trace.len() == 0 {
        0
    } else if trace.last() == event {
        occurrences(trace.drop_last(), event) + 1
    } else {
        occurrences(trace.drop_last(), event)
    }
}

/// How often the value was destroyed in the course of `trace`.
pub open spec fn destructions(trace: Seq<HandleEvent>) -> nat
    decreases trace.len(),
{
    if trace.len() == 0 {
        0
    } else if destroys(run(trace.drop_last()), trace.last()) {
        destructions(trace.drop_last()) + 1
    } else {
        destructions(trace.drop_last())
    }
}

/// A trace in which every clone and every drop is that of a live handle: of
/// the first handle and the clones so far, one has not been dropped yet.
pub open spec fn well_scoped(trace: Seq<HandleEvent>) -> bool
    decreases trace.len(),
{
    if trace.len() == 0 {
        true
    } else {
        let before = trace.drop_last();
        &&& well_scoped(before)
        &&& occurrences(before, HandleEvent::Drop) <= occurrences(before, HandleEvent::Clone)
    }
}

/// Reference-count correctness. The count is the number of live handles: the
/// first one and the clones, less the drops. The value is destroyed exactly
/// once, by the drop that ends the last handle: not while a handle lives, and
/// never a second time. So after `n` clones and `n + 1` drops it has been
/// destroyed once, and before that point every live handle finds it alive.
pub proof fn law_destroyed_exactly_once(trace: Seq<HandleEvent>)
    requires
        well_scoped(trace),
    ensures
        occurrences(trace, HandleEvent::Drop) <= occurrences(trace, HandleEvent::Clone) + 1,
        run(trace) == 1 + occurrences(trace, HandleEvent::Clone) - occurrences(
            trace,
            HandleEvent::Drop,
        ),
        destructions(trace) == if occurrences(trace, HandleEvent::Drop) == occurrences(
            trace,
            HandleEvent::Clone,
        ) + 1 {
            1nat
        } else {
            0nat
        },
        destructions(trace) == 0 <==> run(trace) > 0,
    decreases trace.len(),
{
    if trace.len() > 0 {
        law_destroyed_exactly_once(trace.drop_last());
    }
}

} // verus!
