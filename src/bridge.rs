//! The decisions of the bridge between a suspended producer and a pulling
//! consumer, as plain functions of what one resumption reported.
use std::task::Poll;
use vstd::prelude::*;

verus! {

/// What the rendezvous cell holds between two resumptions of the producer.
pub enum Slot<T> {
    /// Nothing was produced since the driver last emptied the cell.
    Empty,
    /// One produced value, waiting for the consumer.
    Held(T),
    /// A value was produced while an earlier one still waited.
    Overrun,
}

/// A broken producer contract, detected by the bridge.
#[derive(Debug, Clone, Copy, PartialEq, Eq, Structural)]
pub enum Fault {
    /// A value was produced and then abandoned: another value followed it, or
    /// the producer finished, before the consumer took it.
    UnconsumedYield,
    /// The producer suspended on something other than its yield token, and
    /// nothing but the consumer's next pull would ever resume it.
    SuspensionMisuse,
}

/// What one resumption step of the bridge came to.
pub enum Step<T> {
    /// The producer suspended on its token after handing over this value.
    Produced(T),
    /// The producer ran to completion with nothing left in the cell.
    Finished,
    /// The producer suspended with the cell empty.
    Waiting,
    /// The producer broke its contract.
    Failed(Fault),
}

impl<T> Slot<T> {
    /// The cell after a value is written into it.
    pub open spec fn deposited(self, value: T) -> Slot<T> {
        match self {
            Slot::Empty => Slot::Held(value),
            _ => Slot::Overrun,
        }
    }

    /// Writes a value: an empty cell takes it, an occupied one is overrun.
    pub fn deposit(self, value: T) -> (r: Slot<T>)
        ensures
            r == self.deposited(value),
    {
        match self {
            Slot::Empty => Slot::Held(value),
            _ => Slot::Overrun,
        }
    }

    /// Whether the cell holds nothing, which is when a yield token resumes.
    pub fn is_empty(&self) -> (r: bool)
        ensures
            r == (*self is Empty),
    {
        match self {
            Slot::Empty => true,
            _ => false,
        }
    }
}

/// The step that a resumption comes to, from whether the producer ran to
/// completion and from what it left in the cell.
pub open spec fn settled<T>(completed: bool, slot: Slot<T>) -> Step<T> {
    match slot {
        Slot::Overrun => Step::Failed(Fault::UnconsumedYield),
        Slot::Held(v) => if completed {
            Step::Failed(Fault::UnconsumedYield)
        } else {
            Step::Produced(v)
        },
        Slot::Empty => if completed {
            Step::Finished
        } else {
            Step::Waiting
        },
    }
}

/// Decides a resumption step from what the producer reported and from the
/// contents that the driver took out of the cell.
pub fn settle<T>(completed: bool, slot: Slot<T>) -> (r: Step<T>)
    ensures
        r == settled(completed, slot),
{
    match slot {
        Slot::Overrun => Step::Failed(Fault::UnconsumedYield),
        Slot::Held(v) => if completed {
            Step::Failed(Fault::UnconsumedYield)
        } else {
            Step::Produced(v)
        },
        Slot::Empty => if completed {
            Step::Finished
        } else {
            Step::Waiting
        },
    }
}

/// A step as a synchronous pull reports it: nothing but the pull itself can
/// resume the producer, so waiting is a fault.
pub open spec fn sync_pulled<T>(step: Step<T>) -> Result<Option<T>, Fault> {
    match step {
        Step::Produced(v) => Ok(Some(v)),
        Step::Finished => Ok(None),
        Step::Waiting => Err(Fault::SuspensionMisuse),
        Step::Failed(f) => Err(f),
    }
}

/// Maps a step to the result of a synchronous pull.
pub fn sync_pull<T>(step: Step<T>) -> (r: Result<Option<T>, Fault>)
    ensures
        r == sync_pulled(step),
{
    match step {
        Step::Produced(v) => Ok(Some(v)),
        Step::Finished => Ok(None),
        Step::Waiting => Err(Fault::SuspensionMisuse),
        Step::Failed(f) => Err(f),
    }
}

/// A step as an asynchronous pull reports it: the producer waits on outside
/// work, whose waker will have the consumer pull again.
pub open spec fn async_pulled<T>(step: Step<T>) -> Poll<Result<Option<T>, Fault>> {
    match step {
        Step::Produced(v) => Poll::Ready(Ok(Some(v))),
        Step::Finished => Poll::Ready(Ok(None)),
        Step::Waiting => Poll::Pending,
        Step::Failed(f) => Poll::Ready(Err(f)),
    }
}

/// Maps a step to the result of an asynchronous pull.
pub fn async_pull<T>(step: Step<T>) -> (r: Poll<Result<Option<T>, Fault>>)
    ensures
        r == async_pulled(step),
{
    match step {
        Step::Produced(v) => Poll::Ready(Ok(Some(v))),
        Step::Finished => Poll::Ready(Ok(None)),
        Step::Waiting => Poll::Pending,
        Step::Failed(f) => Poll::Ready(Err(f)),
    }
}


/// One pull of a synchronous bridge, from whether it was already finished and
/// from what the resumption reported (unused once finished, as the producer is
/// then never resumed): whether it is finished afterwards, and the result. A
/// pull ends the bridge when the producer completed or broke its contract.
pub open spec fn sync_pull_step<T>(finished: bool, completed: bool, slot: Slot<T>) -> (bool, Result<Option<T>, Fault>) {
    if finished {
        (true, Ok(None))
    } else {
        let r = sync_pulled(settled(completed, slot));
        (completed || r is Err, r)
    }
}

/// One poll of an asynchronous bridge, in the same terms as `sync_pull_step`.
pub open spec fn async_pull_step<T>(finished: bool, completed: bool, slot: Slot<T>) -> (bool, Poll<Result<Option<T>, Fault>>) {
    if finished {
        (true, Poll::Ready(Ok(None)))
    } else {
        (completed || settled(completed, slot) is Failed, async_pulled(settled(completed, slot)))
    }
}

/// What a yield token reports for the slot it reads: ready once the consumer
/// has emptied the cell.
pub open spec fn token_polled<T>(slot: Slot<T>) -> Poll<()> {
    if slot is Empty {
        Poll::Ready(())
    } else {
        Poll::Pending
    }
}

/// The check of a yield token on the slot read out of the cell: the slot to
/// put back, unchanged, and whether the token may resume.
pub fn token_check<T>(slot: Slot<T>) -> (r: (Slot<T>, bool))
    ensures
        r.0 == slot,
        r.1 == (slot is Empty),
        token_polled(slot) == (if r.1 { Poll::<()>::Ready(()) } else { Poll::<()>::Pending }),
{
    let ready = slot.is_empty();
    (slot, ready)
}

/// Whether a producer yielding from an iterator must keep waiting: it has a
/// value in the cell that the consumer has not taken yet.
pub open spec fn waits_on<T>(waiting: bool, consumed: bool) -> bool {
    waiting && !consumed
}

/// Decides whether a producer yielding from an iterator must keep waiting;
/// while it does, the iterator is not advanced.
pub fn must_wait(waiting: bool, consumed: bool) -> (r: bool)
    ensures
        r == waits_on::<()>(waiting, consumed),
{
    waiting && !consumed
}

/// What a producer yielding from an iterator does with the next item of the
/// source: whether it then waits, the value to write, and its own outcome.
/// An item is written and waited on; the end of the source completes it.
pub open spec fn fed<T>(waiting: bool, item: Option<T>) -> (bool, Option<T>, Poll<()>) {
    match item {
        Some(v) => (true, Some(v), Poll::Pending),
        None => (waiting, None, Poll::Ready(())),
    }
}

/// Decides what to do with the next item of the source.
pub fn feed<T>(waiting: bool, item: Option<T>) -> (r: (bool, Option<T>, Poll<()>))
    ensures
        r == fed(waiting, item),
{
    match item {
        Some(v) => (true, Some(v), Poll::Pending),
        None => (waiting, None, Poll::Ready(())),
    }
}

/// What a producer forwarding a stream does with one poll of the source:
/// whether it then waits, the value to write, and its own outcome. An item is
/// written and waited on; a source that waits makes it wait on the same
/// outside work; the end of the source completes it.
pub open spec fn forwarded<T>(waiting: bool, polled: Poll<Option<T>>) -> (bool, Option<T>, Poll<()>) {
    match polled {
        Poll::Ready(Some(v)) => (true, Some(v), Poll::Pending),
        Poll::Ready(None) => (waiting, None, Poll::Ready(())),
        Poll::Pending => (waiting, None, Poll::Pending),
    }
}

/// Decides what to do with one poll of the source.
pub fn forward<T>(waiting: bool, polled: Poll<Option<T>>) -> (r: (bool, Option<T>, Poll<()>))
    ensures
        r == forwarded(waiting, polled),
{
    match polled {
        Poll::Ready(Some(v)) => (true, Some(v), Poll::Pending),
        Poll::Ready(None) => (waiting, None, Poll::Ready(())),
        Poll::Pending => (waiting, None, Poll::Pending),
    }
}

} // verus!
