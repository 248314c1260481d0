//! The bridge itself, written once over the cell that both ends share and the
//! type-erased computation: the yield token, yielding from an iterator or a
//! stream, and the driver that resumes the computation on each pull.
//!
//! The module is private: the cell and the computation are reached only
//! through the token and the driver defined here.
use std::future::Future;
use std::pin::Pin;
use std::task::{Context, Poll};
use vstd::prelude::*;
use vstd::std_specs::iter::IteratorSpec;

use crate::bridge::{
    forward, forwarded, async_pull, async_pull_step, fed, feed, must_wait, settle, settled, sync_pull,
    sync_pull_step, token_check, waits_on, Fault, Slot, Step,
};
use crate::host::pinned;
use crate::utils::noop_waker;

verus! {

/// A handle to a rendezvous cell that both ends of a bridge share.
pub trait SlotCell: Sized {
    /// The type of the values that cross the bridge.
    type Item;

    /// Puts `slot` into the cell and hands back what was there.
    fn exchange(&self, slot: Slot<Self::Item>) -> Slot<Self::Item>;

    /// A second handle to the same cell.
    fn share(&self) -> Self;
}

/// A type-erased computation that can be resumed by one step.
pub trait Resumable {
    /// Resumes the computation; `Ready` when it ran to completion.
    fn resume(&mut self, cx: &mut Context) -> Poll<()>;
}

/// A stream whose items a producer can forward, polled one item at a time.
pub trait Pollable {
    /// The type of the items.
    type Item;

    /// Polls for the next item with the caller's context; `Ready(None)` at
    /// the end.
    fn poll_item(&mut self, cx: &mut Context) -> Poll<Option<Self::Item>>;
}

/// The producer's end of the cell, and the token that a yield suspends on.
pub struct Sender<C>(pub(crate) C);

impl<C: SlotCell> Sender<C> {
    /// Writes a produced value. Writing over a value that was never taken
    /// overruns the cell, which the driver reports as a fault.
    pub(crate) fn set(&self, value: C::Item) {
        let prev = self.0.exchange(Slot::Empty);
        self.0.exchange(prev.deposit(value));
    }

    /// Whether the consumer has taken what was produced; the cell is left as
    /// it was.
    fn is_consumed(&self) -> bool {
        let (slot, ready) = token_check(self.0.exchange(Slot::Empty));
        self.0.exchange(slot);
        ready
    }

    /// A future that yields the values of `iter`, writing into this cell.
    pub(crate) fn feed_from<I>(&self, iter: I) -> (r: RetIter<C, I>)
        ensures
            !r.is_waiting(),
            r.source() == iter,
    {
        RetIter { sender: Box::new(Sender(self.0.share())), iter: Box::new(iter), waiting: false }
    }

    /// A future that forwards the items of `source`, writing into this cell.
    pub(crate) fn forward_from<S>(&self, source: S) -> (r: RetStream<C, S>)
        ensures
            !r.is_waiting(),
            r.source() == source,
    {
        RetStream {
            sender: Box::new(Sender(self.0.share())),
            source: Box::new(source),
            waiting: false,
        }
    }
}

impl<C: SlotCell> Future for Sender<C> {
    type Output = ();

    /// Ready exactly when the slot read out of the cell is empty; the slot is
    /// put back unchanged. No waker is kept: the driver resumes the producer
    /// again on the consumer's next pull.
    fn poll(self: Pin<&mut Self>, _cx: &mut Context) -> Poll<()> {
        if pinned(&self).is_consumed() {
            Poll::Ready(())
        } else {
            Poll::Pending
        }
    }
}

/// Yields the values of an iterator one per resumption, each once the one
/// before it was taken; the iterator is advanced only then.
pub struct RetIter<C, I> {
    sender: Box<Sender<C>>,
    iter: Box<I>,
    waiting: bool,
}

impl<C, I> RetIter<C, I> {
    /// Whether a value of this future still waits in the cell to be taken.
    pub closed spec fn is_waiting(&self) -> bool {
        self.waiting
    }

    /// The iterator that the values come from, as far as it has not been
    /// advanced yet.
    pub closed spec fn source(&self) -> I {
        *self.iter
    }
}

/// Relies on Pin::get_mut: the pinned value itself, which may move, as its
/// fields are all `Unpin`.
#[verifier::external_body]
fn unpin_ret_iter<'p, C, I>(p: Pin<&'p mut RetIter<C, I>>) -> &'p mut RetIter<C, I> {
    Pin::get_mut(p)
}

impl<C: SlotCell, I: Iterator<Item = C::Item>> RetIter<C, I> {
    /// One resumption: keeps waiting while the value written last is still in
    /// the cell, and otherwise takes the next item of the source, writes it
    /// and waits on it, or completes at the end of the source.
    fn resume(&mut self) -> (r: Poll<()>)
        ensures
            exists|consumed: bool|
                if waits_on::<()>(old(self).waiting, consumed) {
                    r is Pending && final(self).waiting && final(self).iter == old(self).iter
                } else {
                    exists|item: Option<C::Item>|
                        (final(self).waiting, r) == (fed(old(self).waiting, item).0, fed(
                            old(self).waiting,
                            item,
                        ).2) && ((*final(self).iter).obeys_prophetic_iter_laws() ==> item == (if (
                        *old(self).iter).remaining().len() > 0 {
                            Some((*old(self).iter).remaining()[0])
                        } else {
                            None
                        }))
                },
    {
        let consumed = self.sender.is_consumed();
        if must_wait(self.waiting, consumed) {
            return Poll::Pending;
        }
        let item = (*self.iter).next();
        let ghost it = item;
        let (waiting, out, r) = feed(self.waiting, item);
        self.waiting = waiting;
        if let Some(value) = out {
            self.sender.set(value);
        }
        proof {
            assert((self.waiting, r) == (fed(old(self).waiting, it).0, fed(old(self).waiting, it).2));
            assert((*self.iter).obeys_prophetic_iter_laws() ==> it == (if (*old(self).iter).remaining().len() > 0 {
                Some((*old(self).iter).remaining()[0])
            } else {
                None
            }));
        }
        r
    }
}

impl<C: SlotCell, I: Iterator<Item = C::Item>> Future for RetIter<C, I> {
    type Output = ();

    fn poll(self: Pin<&mut Self>, _cx: &mut Context) -> Poll<()> {
        unpin_ret_iter(self).resume()
    }
}

/// Forwards the items of a stream one per resumption, each once the one
/// before it was taken; the stream is polled only then, with the caller's
/// context, so that the pull waits while the stream does.
pub struct RetStream<C, S> {
    sender: Box<Sender<C>>,
    source: Box<S>,
    waiting: bool,
}

impl<C, S> RetStream<C, S> {
    /// Whether a value of this future still waits in the cell to be taken.
    pub closed spec fn is_waiting(&self) -> bool {
        self.waiting
    }

    /// The stream that the values come from.
    pub closed spec fn source(&self) -> S {
        *self.source
    }
}

/// Relies on Pin::get_mut: the pinned value itself, which may move, as its
/// fields are all `Unpin`.
#[verifier::external_body]
fn unpin_ret_stream<'p, C, S>(p: Pin<&'p mut RetStream<C, S>>) -> &'p mut RetStream<C, S> {
    Pin::get_mut(p)
}

impl<C: SlotCell, S: Pollable<Item = C::Item>> RetStream<C, S> {
    /// One resumption: keeps waiting while the value written last is still in
    /// the cell, and otherwise polls the source once, and writes its item and
    /// waits on it, waits with the source, or completes at its end.
    fn resume(&mut self, cx: &mut Context) -> (r: Poll<()>)
        ensures
            exists|consumed: bool|
                if waits_on::<()>(old(self).waiting, consumed) {
                    r is Pending && final(self).waiting && final(self).source == old(self).source
                } else {
                    exists|polled: Poll<Option<C::Item>>|
                        (final(self).waiting, r) == (forwarded(old(self).waiting, polled).0,
                            forwarded(old(self).waiting, polled).2)
                },
    {
        let consumed = self.sender.is_consumed();
        if must_wait(self.waiting, consumed) {
            return Poll::Pending;
        }
        let polled = (*self.source).poll_item(cx);
        let ghost p = polled;
        let (waiting, out, r) = forward(self.waiting, polled);
        self.waiting = waiting;
        if let Some(value) = out {
            self.sender.set(value);
        }
        proof {
            assert((self.waiting, r) == (forwarded(old(self).waiting, p).0, forwarded(old(self).waiting, p).2));
        }
        r
    }
}

impl<C: SlotCell, S: Pollable<Item = C::Item>> Future for RetStream<C, S> {
    type Output = ();

    fn poll(self: Pin<&mut Self>, cx: &mut Context) -> Poll<()> {
        unpin_ret_stream(self).resume(cx)
    }
}

/// The driver: the consumer's end of the cell and the suspended computation,
/// which is gone once it has run to completion or broken its contract.
pub struct Data<C, F> {
    value: C,
    fut: Option<F>,
}

impl<C: SlotCell, F: Resumable> Data<C, F> {
    /// Whether the bridge is over: every later pull reports the end.
    pub closed spec fn is_finished(&self) -> bool {
        self.fut is None
    }

    /// A bridge over the cell `value` that resumes `fut` on each pull.
    pub(crate) fn launch(value: C, fut: F) -> (r: Self)
        ensures
            !r.is_finished(),
    {
        Data { value, fut: Some(fut) }
    }

    /// Resumes the computation by one step with `cx` and empties the cell. A
    /// computation that completed or broke its contract is dropped.
    fn poll_step(&mut self, cx: &mut Context) -> (r: Step<C::Item>)
        ensures
            old(self).is_finished() ==> r is Finished && final(self).is_finished(),
            !old(self).is_finished() ==> exists|c: bool, s: Slot<C::Item>|
                r == settled(c, s) && (final(self).is_finished() <==> (c || r is Failed)),
    {
        let mut fut = match self.fut.take() {
            None => return Step::Finished,
            Some(fut) => fut,
        };
        let completed = match fut.resume(cx) {
            Poll::Ready(()) => true,
            Poll::Pending => false,
        };
        let slot = self.value.exchange(Slot::Empty);
        let step = settle(completed, slot);
        if !completed && !matches!(step, Step::Failed(_)) {
            self.fut = Some(fut);
        }
        step
    }

    /// One synchronous pull, with a waker that does nothing: only the next
    /// pull resumes the producer, so a producer that waits on anything else
    /// is a fault.
    pub(crate) fn next(&mut self) -> (r: Result<Option<C::Item>, Fault>)
        ensures
            old(self).is_finished() ==> r == Ok::<Option<C::Item>, Fault>(None) && final(self).is_finished(),
            r is Err ==> final(self).is_finished(),
            exists|c: bool, s: Slot<C::Item>|
                (final(self).is_finished(), r) == sync_pull_step(old(self).is_finished(), c, s),
    {
        let waker = noop_waker();
        let mut cx = Context::from_waker(&waker);
        let ghost was_finished = self.is_finished();
        let step = self.poll_step(&mut cx);
        if matches!(step, Step::Waiting) {
            self.fut = None;
        }
        let ghost st = step;
        let r = sync_pull(step);
        proof {
            if was_finished {
                assert((self.is_finished(), r) == sync_pull_step(was_finished, true, Slot::<C::Item>::Empty));
            } else {
                let (c, s) = choose|c: bool, s: Slot<C::Item>| st == settled(c, s) && (!(st is Waiting) ==> (self.is_finished() <==> (c || st is Failed)));
                assert((self.is_finished(), r) == sync_pull_step(was_finished, c, s));
            }
        }
        r
    }

    /// One asynchronous poll with the caller's context, whose waker the
    /// computation may hand to outside work.
    pub(crate) fn poll_next(&mut self, cx: &mut Context) -> (r: Poll<Result<Option<C::Item>, Fault>>)
        ensures
            old(self).is_finished() ==> r == Poll::Ready(Ok::<Option<C::Item>, Fault>(None)) && final(self).is_finished(),
            r matches Poll::Ready(Err(_)) ==> final(self).is_finished(),
            exists|c: bool, s: Slot<C::Item>|
                (final(self).is_finished(), r) == async_pull_step(old(self).is_finished(), c, s),
    {
        let ghost was_finished = self.is_finished();
        let step = self.poll_step(cx);
        let ghost st = step;
        let r = async_pull(step);
        proof {
            if was_finished {
                assert((self.is_finished(), r) == async_pull_step(was_finished, true, Slot::<C::Item>::Empty));
            } else {
                let (c, s) = choose|c: bool, s: Slot<C::Item>| st == settled(c, s) && (self.is_finished() <==> (c || st is Failed));
                assert((self.is_finished(), r) == async_pull_step(was_finished, c, s));
            }
        }
        r
    }

    /// Whether the bridge is over.
    pub(crate) fn is_terminated(&self) -> (r: bool)
        ensures
            r == self.is_finished(),
    {
        self.fut.is_none()
    }
}

} // verus!
