//! The bridges that may move between threads: the cell sits behind a lock and
//! the computation must be `Send`.
use futures::task::FutureObj;
use std::future::Future;
use std::sync::{Arc, Mutex};
use std::task::{Context, Poll};
use vstd::prelude::*;

use crate::bridge::{async_pull_step, sync_pull_step, Fault, Slot};
use crate::driver::{Data, Resumable, RetIter, RetStream, Sender, SlotCell};
use crate::source::Source;
use crate::host::{erase_shared, exchange_shared, resume_shared};

verus! {

/// The cell that may move between threads.
pub type SharedCell<T> = Arc<Mutex<Slot<T>>>;

impl<T> SlotCell for Arc<Mutex<Slot<T>>> {
    type Item = T;

    fn exchange(&self, slot: Slot<T>) -> Slot<T> {
        exchange_shared(self, slot)
    }

    fn share(&self) -> Self {
        self.clone()
    }
}

impl<'a> Resumable for Mutex<FutureObj<'a, ()>> {
    fn resume(&mut self, cx: &mut Context) -> Poll<()> {
        resume_shared(self, cx)
    }
}

/// `Send` iterator context: what the producer yields through.
#[verifier::reject_recursive_types(T)]
pub struct IterContext<T>(Sender<SharedCell<T>>);

impl<T: Send> IterContext<T> {
    /// Yields a single value at once; the producer must await the returned
    /// token, which resumes once the value was taken, before it yields again
    /// or finishes.
    pub fn ret(&mut self, value: T) -> impl Future<Output = ()> + '_ {
        self.0.set(value);
        &mut self.0
    }

    /// Yields all values from an iterator, one per pull, like Python's
    /// `yield from`; the returned future must be awaited.
    pub fn ret_iter<I: Iterator<Item = T>>(&mut self, iter: I) -> (r: RetIter<SharedCell<T>, I>)
        ensures
            !r.is_waiting(),
            r.source() == iter,
    {
        self.0.feed_from(iter)
    }
}

/// `Send` iterator driven by an asynchronous function.
#[verifier::reject_recursive_types(T)]
pub struct Iter<'a, T>(Data<SharedCell<T>, Mutex<FutureObj<'a, ()>>>);

impl<'a, T: Send + 'a> Iter<'a, T> {
    /// Whether the sequence is over: the computation ran to completion or
    /// broke its contract, and every later pull reports the end.
    pub closed spec fn is_finished(&self) -> bool {
        self.0.is_finished()
    }

    /// Creates an iterator from an asynchronous function, which receives the
    /// context to yield through. Nothing of it runs before the first pull.
    pub fn new<F, Fut>(f: F) -> (r: Self)
        where
            F: FnOnce(IterContext<T>) -> Fut,
            Fut: Future<Output = ()> + Send + 'a,
        requires
            forall|cx: IterContext<T>| f.requires((cx,)),
        ensures
            !r.is_finished(),
    {
        let value = Arc::new(Mutex::new(Slot::Empty));
        let cx = IterContext(Sender(value.share()));
        let fut = Mutex::new(erase_shared(f(cx)));
        Iter(Data::launch(value, fut))
    }

    /// Creates an iterator over the values of another.
    pub fn from_iter<I: Iterator<Item = T> + Send + 'a>(iter: I) -> (r: Self)
        ensures
            !r.is_finished(),
    {
        Iter::new(move |mut cx: IterContext<T>| cx.ret_iter(iter))
    }

    /// Pulls the next value: `Ok(Some(v))` for a value yielded, `Ok(None)` at
    /// the end and ever after, `Err` for a producer that broke its contract,
    /// which ends the sequence.
    pub fn next(&mut self) -> (r: Result<Option<T>, Fault>)
        ensures
            old(self).is_finished() ==> r == Ok::<Option<T>, Fault>(None) && final(self).is_finished(),
            r is Err ==> final(self).is_finished(),
            exists|c: bool, s: Slot<T>|
                (final(self).is_finished(), r) == sync_pull_step(old(self).is_finished(), c, s),
    {
        let ghost was_finished = self.is_finished();
        let r = self.0.next();
        // The driver states the step over its cell's item type; naming the
        // witness carries it over to `T`.
        proof {
            let (c, s) = choose|c: bool, s: Slot<T>|
                (self.0.is_finished(), r) == sync_pull_step(was_finished, c, s);
        }
        r
    }

    /// Whether the sequence is over.
    pub fn is_terminated(&self) -> (r: bool)
        ensures
            r == self.is_finished(),
    {
        self.0.is_terminated()
    }
}

/// `Send` stream context: what the producer yields through.
#[verifier::reject_recursive_types(T)]
pub struct AsyncIterContext<T>(IterContext<T>);

impl<T: Send> AsyncIterContext<T> {
    /// Yields a single value, as `IterContext::ret`.
    pub fn ret(&mut self, value: T) -> impl Future<Output = ()> + '_ {
        self.0.ret(value)
    }

    /// Yields all values from an iterator, as `IterContext::ret_iter`.
    pub fn ret_iter<I: Iterator<Item = T>>(&mut self, iter: I) -> (r: RetIter<SharedCell<T>, I>)
        ensures
            !r.is_waiting(),
            r.source() == iter,
    {
        self.0.ret_iter(iter)
    }

    /// Yields all items of a stream, in order, each once the one before it
    /// was taken; while the stream waits on outside work, so does the pull.
    pub fn ret_stream<'s>(&mut self, stream: Source<'s, T>) -> (r: RetStream<SharedCell<T>, Source<'s, T>>)
        ensures
            !r.is_waiting(),
            r.source() == stream,
    {
        self.0.0.forward_from(stream)
    }
}

/// `Send` stream driven by an asynchronous function, which may await
/// outside work between its yields.
#[verifier::reject_recursive_types(T)]
pub struct AsyncIter<'a, T>(Data<SharedCell<T>, Mutex<FutureObj<'a, ()>>>);

impl<'a, T: Send + 'a> AsyncIter<'a, T> {
    /// Whether the stream is over: the computation ran to completion or broke
    /// its contract, and every later poll reports the end.
    pub closed spec fn is_finished(&self) -> bool {
        self.0.is_finished()
    }

    /// Creates a stream from an asynchronous function, which receives the
    /// context to yield through. Nothing of it runs before the first poll.
    pub fn new<F, Fut>(f: F) -> (r: Self)
        where
            F: FnOnce(AsyncIterContext<T>) -> Fut,
            Fut: Future<Output = ()> + Send + 'a,
        requires
            forall|cx: AsyncIterContext<T>| f.requires((cx,)),
        ensures
            !r.is_finished(),
    {
        let value = Arc::new(Mutex::new(Slot::Empty));
        let cx = AsyncIterContext(IterContext(Sender(value.share())));
        let fut = Mutex::new(erase_shared(f(cx)));
        AsyncIter(Data::launch(value, fut))
    }

    /// Creates a stream over the values of an iterator.
    pub fn from_iter<I: Iterator<Item = T> + Send + 'a>(iter: I) -> (r: Self)
        ensures
            !r.is_finished(),
    {
        AsyncIter::new(move |mut cx: AsyncIterContext<T>| cx.ret_iter(iter))
    }

    /// Polls for the next value with the caller's context, whose waker the
    /// computation may hand to outside work: `Pending` while it waits on such
    /// work, otherwise as `Iter::next`.
    pub fn poll_next(&mut self, cx: &mut Context) -> (r: Poll<Result<Option<T>, Fault>>)
        ensures
            old(self).is_finished() ==> r == Poll::Ready(Ok::<Option<T>, Fault>(None)) && final(self).is_finished(),
            r matches Poll::Ready(Err(_)) ==> final(self).is_finished(),
            exists|c: bool, s: Slot<T>|
                (final(self).is_finished(), r) == async_pull_step(old(self).is_finished(), c, s),
    {
        let ghost was_finished = self.is_finished();
        let r = self.0.poll_next(cx);
        // The driver states the step over its cell's item type; naming the
        // witness carries it over to `T`.
        proof {
            let (c, s) = choose|c: bool, s: Slot<T>|
                (self.0.is_finished(), r) == async_pull_step(was_finished, c, s);
        }
        r
    }

    /// Whether the stream is over.
    pub fn is_terminated(&self) -> (r: bool)
        ensures
            r == self.is_finished(),
    {
        self.0.is_terminated()
    }
}

} // verus!
