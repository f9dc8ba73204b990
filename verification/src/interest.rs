//! The interest counter: how many operations currently wait for the
//! dispatcher to run, and the guard that each of them holds.

use vstd::prelude::*;

verus! {

/// One change of the interest counter.
pub enum InterestOp {
    Increment,
    Decrement,
}

/// The count after an increment.
pub open spec fn spec_increment(count: int) -> int {
    count + 1
}

/// The count after a decrement. The count stays at zero when there is
/// nothing to give up.
pub open spec fn spec_decrement(count: int) -> int {
    if count > 0 {
        count - 1
    } else {
        0
    }
}

/// The count after a sequence of changes, applied in order.
pub open spec fn count_after(start: int, ops: Seq<InterestOp>) -> int
    decreases ops.len(),
{
    if ops.len() == 0 {
        start
    } else {
        let before = count_after(start, ops.drop_last());
        match ops.last() {
            InterestOp::Increment => spec_increment(before),
            InterestOp::Decrement => spec_decrement(before),
        }
    }
}

/// The number of increments in a sequence of changes.
pub open spec fn increments(ops: Seq<InterestOp>) -> int
    decreases ops.len(),
{
    if ops.len() == 0 {
        0
    } else {
        increments(ops.drop_last()) + if ops.last() is Increment {
            1int
        } else {
            0int
        }
    }
}

/// The number of decrements in a sequence of changes.
pub open spec fn decrements(ops: Seq<InterestOp>) -> int
    decreases ops.len(),
{
    if ops.len() == 0 {
        0
    } else {
        decrements(ops.drop_last()) + if ops.last() is Decrement {
            1int
        } else {
            0int
        }
    }
}

/// Every decrement gives up an interest that was taken before it: at no
/// point of the sequence have there been more decrements than increments.
pub open spec fn paired(ops: Seq<InterestOp>) -> bool {
    forall|n: int|
        0 <= n <= ops.len() ==> decrements(#[trigger] ops.subrange(0, n)) <= increments(
            ops.subrange(0, n),
        )
}

/// The number of operations that currently care about the dispatcher
/// running.
#[derive(Debug, Clone, PartialEq, Eq)]
pub struct InterestCounter {
    interested: usize,
}

impl InterestCounter {
    /// The current count.
    pub closed spec fn value(&self) -> int {
        self.interested as int
    }

    /// A counter that nobody is interested in yet.
    pub fn new() -> (counter: Self)
        ensures
            counter.value() == 0,
    {
        InterestCounter { interested: 0 }
    }

    /// The count is never negative and fits the machine.
    pub proof fn lemma_value_in_range(&self)
        ensures
            0 <= self.value() <= usize::MAX,
    {
    }

    /// The current count.
    pub fn count(&self) -> (count: usize)
        ensures
            count == self.value(),
    {
        self.interested
    }

    /// Whether one more interest can be counted.
    pub fn has_room(&self) -> (room: bool)
        ensures
            room == (self.value() < usize::MAX),
    {
        self.interested < usize::MAX
    }

    /// Counts one more interest.
    pub fn increment(&mut self)
        requires
            old(self).value() < usize::MAX,
        ensures
            final(self).value() == spec_increment(old(self).value()),
    {
        self.interested = self.interested + 1;
    }

    /// Gives one interest up. At zero there is none to give up and the count
    /// stays.
    pub fn decrement(&mut self)
        ensures
            final(self).value() == spec_decrement(old(self).value()),
    {
        if self.interested > 0 {
            self.interested = self.interested - 1;
        }
    }

    /// Whether nobody is interested.
    pub fn is_zero(&self) -> (zero: bool)
        ensures
            zero == (self.value() == 0),
    {
        self.interested == 0
    }
}

/// The token of one pending operation. It is made by counting its interest
/// and can only be given back, once, which gives that interest up.
#[derive(Debug)]
pub struct OperationGuard {
    token: (),
}

impl OperationGuard {
    /// Counts the interest of a new pending operation. The caller wakes the
    /// dispatcher afterwards, in case it sleeps.
    pub fn acquire(counter: &mut InterestCounter) -> (guard: Self)
        requires
            old(counter).value() < usize::MAX,
        ensures
            final(counter).value() == old(counter).value() + 1,
    {
        counter.increment();
        OperationGuard { token: () }
    }

    /// Gives up the interest of an operation whose result was delivered or
    /// abandoned.
    pub fn release(self, counter: &mut InterestCounter)
        ensures
            final(counter).value() == spec_decrement(old(counter).value()),
    {
        counter.decrement();
    }
}

/// Whatever is done to the counter, in whatever order, it never goes below
/// zero.
pub proof fn counter_never_negative(start: int, ops: Seq<InterestOp>)
    requires
        start >= 0,
    ensures
        count_after(start, ops) >= 0,
    decreases ops.len(),
{
    if ops.len() > 0 {
        counter_never_negative(start, ops.drop_last());
    }
}

/// When every decrement gives up an interest that was taken before it, as
/// the guards see to, the counter says exactly how many interests are still
/// held.
pub proof fn counter_tracks_held_interests(ops: Seq<InterestOp>)
    requires
        paired(ops),
    ensures
        count_after(0, ops) == increments(ops) - decrements(ops),
    decreases ops.len(),
{
    assert(ops.subrange(0, ops.len() as int) == ops);
    if ops.len() > 0 {
        let shorter = ops.drop_last();
        assert forall|n: int| 0 <= n <= shorter.len() implies decrements(
            #[trigger] shorter.subrange(0, n),
        ) <= increments(shorter.subrange(0, n)) by {
            assert(shorter.subrange(0, n) == ops.subrange(0, n));
        }
        counter_tracks_held_interests(shorter);
    }
}

} // verus!
