//! The thread-confined bridges: the cell and the computation stay on the
//! thread that created them.
use futures::task::LocalFutureObj;
use std::cell::RefCell;
use std::future::Future;
use std::rc::Rc;
use std::task::{Context, Poll};
use vstd::prelude::*;

use crate::bridge::{async_pull_step, sync_pull_step, Fault, Slot};
use crate::driver::{Data, Resumable, RetIter, RetStream, Sender, SlotCell};
use crate::source::LocalSource;
use crate::host::{erase_local, exchange_local, resume_local};

verus! {

/// The thread-confined cell.
pub type LocalCell<T> = Rc<RefCell<Slot<T>>>;

impl<T> SlotCell for Rc<RefCell<Slot<T>>> {
    type Item = T;

    fn exchange(&self, slot: Slot<T>) -> Slot<T> {
        exchange_local(self, slot)
    }

    fn share(&self) -> Self {
        self.clone()
    }
}

impl<'a> Resumable for LocalFutureObj<'a, ()> {
    fn resume(&mut self, cx: &mut Context) -> Poll<()> {
        resume_local(self, cx)
    }
}

/// Non-`Send` iterator context: what the producer yields through.
#[verifier::reject_recursive_types(T)]
pub struct LocalIterContext<T>(Sender<LocalCell<T>>);

impl<T> LocalIterContext<T> {
    /// Yields a single value at once; the producer must await the returned
    /// token, which resumes once the value was taken, before it yields again
    /// or finishes.
    pub fn ret(&mut self, value: T) -> impl Future<Output = ()> + '_ {
        self.0.set(value);
        &mut self.0
    }

    /// Yields all values from an iterator, one per pull, like Python's
    /// `yield from`; the returned future must be awaited.
    pub fn ret_iter<I: Iterator<Item = T>>(&mut self, iter: I) -> (r: RetIter<LocalCell<T>, I>)
        ensures
            !r.is_waiting(),
            r.source() == iter,
    {
        self.0.feed_from(iter)
    }
}

/// Non-`Send` iterator driven by an asynchronous function.
#[verifier::reject_recursive_types(T)]
pub struct LocalIter<'a, T>(Data<LocalCell<T>, LocalFutureObj<'a, ()>>);

impl<'a, T: 'a> LocalIter<'a, T> {
    /// Whether the sequence is over: the computation ran to completion or
    /// broke its contract, and every later pull reports the end.
    pub closed spec fn is_finished(&self) -> bool {
        self.0.is_finished()
    }

    /// Creates an iterator from an asynchronous function, which receives the
    /// context to yield through. Nothing of it runs before the first pull.
    pub fn new<F, Fut>(f: F) -> (r: Self)
        where
            F: FnOnce(LocalIterContext<T>) -> Fut,
            Fut: Future<Output = ()> + 'a,
        requires
            forall|cx: LocalIterContext<T>| f.requires((cx,)),
        ensures
            !r.is_finished(),
    {
        let value = Rc::new(RefCell::new(Slot::Empty));
        let cx = LocalIterContext(Sender(value.share()));
        let fut = erase_local(f(cx));
        LocalIter(Data::launch(value, fut))
    }

    /// Creates an iterator over the values of another.
    pub fn from_iter<I: Iterator<Item = T> + 'a>(iter: I) -> (r: Self)
        ensures
            !r.is_finished(),
    {
        LocalIter::new(move |mut cx: LocalIterContext<T>| cx.ret_iter(iter))
    }

    /// Pulls the next value: `Ok(Some(v))` for a value yielded, `Ok(None)` at
    /// the end and ever after, `Err` for a producer that broke its contract,
    /// which ends the sequence.
    pub fn next(&mut self) -> (r: Result<Option<T>, Fault>)
        ensures
            old(self).is_finished() ==> r == Ok::<Option<T>, Fault>(None) && final(self).is_finished(),
            r is Err ==> final(self).is_finished(),
            exists|c: bool, s: Slot<T>|
                (final(self).is_finished(), r) == sync_pull_step(old(self).is_finished(), c, s),
    {
        let ghost was_finished = self.is_finished();
        let r = self.0.next();
        // The driver states the step over its cell's item type; naming the
        // witness carries it over to `T`.
        proof {
            let (c, s) = choose|c: bool, s: Slot<T>|
                (self.0.is_finished(), r) == sync_pull_step(was_finished, c, s);
        }
        r
    }

    /// Whether the sequence is over.
    pub fn is_terminated(&self) -> (r: bool)
        ensures
            r == self.is_finished(),
    {
        self.0.is_terminated()
    }
}

/// Non-`Send` stream context: what the producer yields through.
#[verifier::reject_recursive_types(T)]
pub struct LocalAsyncIterContext<T>(LocalIterContext<T>);

impl<T> LocalAsyncIterContext<T> {
    /// Yields a single value, as `LocalIterContext::ret`.
    pub fn ret(&mut self, value: T) -> impl Future<Output = ()> + '_ {
        self.0.ret(value)
    }

    /// Yields all values from an iterator, as `LocalIterContext::ret_iter`.
    pub fn ret_iter<I: Iterator<Item = T>>(&mut self, iter: I) -> (r: RetIter<LocalCell<T>, I>)
        ensures
            !r.is_waiting(),
            r.source() == iter,
    {
        self.0.ret_iter(iter)
    }

    /// Yields all items of a stream, in order, each once the one before it
    /// was taken; while the stream waits on outside work, so does the pull.
    pub fn ret_stream<'s>(&mut self, stream: LocalSource<'s, T>) -> (r: RetStream<LocalCell<T>, LocalSource<'s, T>>)
        ensures
            !r.is_waiting(),
            r.source() == stream,
    {
        self.0.0.forward_from(stream)
    }
}

/// Non-`Send` stream driven by an asynchronous function, which may await
/// outside work between its yields.
#[verifier::reject_recursive_types(T)]
pub struct LocalAsyncIter<'a, T>(Data<LocalCell<T>, LocalFutureObj<'a, ()>>);

impl<'a, T: 'a> LocalAsyncIter<'a, T> {
    /// Whether the stream is over: the computation ran to completion or broke
    /// its contract, and every later poll reports the end.
    pub closed spec fn is_finished(&self) -> bool {
        self.0.is_finished()
    }

    /// Creates a stream from an asynchronous function, which receives the
    /// context to yield through. Nothing of it runs before the first poll.
    pub fn new<F, Fut>(f: F) -> (r: Self)
        where
            F: FnOnce(LocalAsyncIterContext<T>) -> Fut,
            Fut: Future<Output = ()> + 'a,
        requires
            forall|cx: LocalAsyncIterContext<T>| f.requires((cx,)),
        ensures
            !r.is_finished(),
    {
        let value = Rc::new(RefCell::new(Slot::Empty));
        let cx = LocalAsyncIterContext(LocalIterContext(Sender(value.share())));
        let fut = erase_local(f(cx));
        LocalAsyncIter(Data::launch(value, fut))
    }

    /// Creates a stream over the values of an iterator.
    pub fn from_iter<I: Iterator<Item = T> + 'a>(iter: I) -> (r: Self)
        ensures
            !r.is_finished(),
    {
        LocalAsyncIter::new(move |mut cx: LocalAsyncIterContext<T>| cx.ret_iter(iter))
    }

    /// Polls for the next value with the caller's context, whose waker the
    /// computation may hand to outside work: `Pending` while it waits on such
    /// work, otherwise as `LocalIter::next`.
    pub fn poll_next(&mut self, cx: &mut Context) -> (r: Poll<Result<Option<T>, Fault>>)
        ensures
            old(self).is_finished() ==> r == Poll::Ready(Ok::<Option<T>, Fault>(None)) && final(self).is_finished(),
            r matches Poll::Ready(Err(_)) ==> final(self).is_finished(),
            exists|c: bool, s: Slot<T>|
                (final(self).is_finished(), r) == async_pull_step(old(self).is_finished(), c, s),
    {
        let ghost was_finished = self.is_finished();
        let r = self.0.poll_next(cx);
        // The driver states the step over its cell's item type; naming the
        // witness carries it over to `T`.
        proof {
            let (c, s) = choose|c: bool, s: Slot<T>|
                (self.0.is_finished(), r) == async_pull_step(was_finished, c, s);
        }
        r
    }

    /// Whether the stream is over.
    pub fn is_terminated(&self) -> (r: bool)
        ensures
            r == self.is_finished(),
    {
        self.0.is_terminated()
    }
}

} // verus!
