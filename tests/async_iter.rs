use std::future::Future;
use std::pin::Pin;
use std::task::{Context, Poll};

use futures::executor::block_on;
use futures::future::poll_fn;
use futures::stream;
use yield_return::{source, AsyncIter, Fault};

/// Suspends once, waking its own task, then completes: outside work that
/// takes one extra poll.
struct Delay(bool);

impl Future for Delay {
    type Output = ();
    fn poll(mut self: Pin<&mut Self>, cx: &mut Context<'_>) -> Poll<()> {
        if self.0 {
            Poll::Ready(())
        } else {
            self.0 = true;
            cx.waker().wake_by_ref();
            Poll::Pending
        }
    }
}

fn collect<'a, T: Send + 'a>(mut iter: AsyncIter<'a, T>) -> Vec<T> {
    block_on(async move {
        let mut list = Vec::new();
        while let Some(value) = poll_fn(|cx| iter.poll_next(cx)).await.unwrap() {
            list.push(value);
        }
        list
    })
}

#[test]
fn check_sync_send() {
    let iter = AsyncIter::new(|mut y| async move {
        y.ret(1).await;
    });
    fn f(_: impl Send + Sync) {}
    f(iter);
}

#[test]
fn async_iter_no_value() {
    let iter = AsyncIter::<u32>::new(|mut _y| async move {});
    let list: Vec<_> = collect(iter);
    assert_eq!(list, vec![]);
}

#[test]
fn async_iter_values() {
    let iter = AsyncIter::new(|mut y| async move {
        y.ret(1).await;
        y.ret(2).await;
    });
    let list: Vec<_> = collect(iter);
    assert_eq!(list, vec![1, 2]);
}

#[test]
fn async_iter_waits_between_values() {
    let iter = AsyncIter::new(|mut y| async move {
        y.ret(1).await;
        Delay(false).await;
        y.ret(2).await;
    });
    let list: Vec<_> = collect(iter);
    assert_eq!(list, vec![1, 2]);
}

#[test]
fn async_iter_pending_while_waiting() {
    let mut iter = AsyncIter::new(|mut y| async move {
        y.ret(1).await;
        Delay(false).await;
        y.ret(2).await;
    });
    let waker = yield_return::noop_waker();
    let mut cx = Context::from_waker(&waker);
    assert_eq!(iter.poll_next(&mut cx), Poll::Ready(Ok(Some(1))));
    assert_eq!(iter.poll_next(&mut cx), Poll::Pending);
    assert!(!iter.is_terminated());
    assert_eq!(iter.poll_next(&mut cx), Poll::Ready(Ok(Some(2))));
    assert_eq!(iter.poll_next(&mut cx), Poll::Ready(Ok(None)));
    assert!(iter.is_terminated());
    assert_eq!(iter.poll_next(&mut cx), Poll::Ready(Ok(None)));
}

#[test]
#[allow(unused_must_use)]
fn async_iter_unawaited_yield() {
    let mut iter = AsyncIter::new(|mut y| async move {
        y.ret(1);
        y.ret(2);
    });
    let waker = yield_return::noop_waker();
    let mut cx = Context::from_waker(&waker);
    assert_eq!(iter.poll_next(&mut cx), Poll::Ready(Err(Fault::UnconsumedYield)));
}

#[test]
fn async_iter_values_ret_iter() {
    let iter = AsyncIter::new(|mut y| async move {
        y.ret_iter([1, 2].into_iter()).await;
    });
    let list: Vec<_> = collect(iter);
    assert_eq!(list, vec![1, 2]);
}

#[test]
fn async_iter_fused() {
    let mut iter = AsyncIter::new(|mut y| async move {
        y.ret(1).await;
        y.ret(2).await;
    });
    let waker = yield_return::noop_waker();
    let mut cx = Context::from_waker(&waker);
    assert_eq!(iter.poll_next(&mut cx), Poll::Ready(Ok(Some(1))));
    assert_eq!(iter.poll_next(&mut cx), Poll::Ready(Ok(Some(2))));
    assert_eq!(iter.poll_next(&mut cx), Poll::Ready(Ok(None)));
    assert_eq!(iter.poll_next(&mut cx), Poll::Ready(Ok(None)));
}

#[test]
fn async_iter_from_iter() {
    let iter = AsyncIter::from_iter(vec![3, 1, 2].into_iter());
    assert_eq!(collect(iter), vec![3, 1, 2]);
}

/// Hands out `items`, waiting on outside work (one extra poll) before each.
struct SlowStream(Vec<i32>, bool);

impl futures::Stream for SlowStream {
    type Item = i32;
    fn poll_next(mut self: Pin<&mut Self>, cx: &mut Context<'_>) -> Poll<Option<i32>> {
        if !self.1 {
            self.1 = true;
            cx.waker().wake_by_ref();
            return Poll::Pending;
        }
        self.1 = false;
        if self.0.is_empty() {
            Poll::Ready(None)
        } else {
            Poll::Ready(Some(self.0.remove(0)))
        }
    }
}

#[test]
fn async_iter_values_ret_stream() {
    let iter = AsyncIter::new(|mut y| async move {
        y.ret_stream(source(stream::iter([1, 2]))).await;
    });
    let list: Vec<_> = collect(iter);
    assert_eq!(list, vec![1, 2]);
}

#[test]
fn async_iter_ret_stream_waits_with_source() {
    let mut iter = AsyncIter::new(|mut y| async move {
        y.ret(0).await;
        y.ret_stream(source(SlowStream(vec![1, 2], false))).await;
        y.ret(3).await;
    });
    let waker = yield_return::noop_waker();
    let mut cx = Context::from_waker(&waker);
    assert_eq!(iter.poll_next(&mut cx), Poll::Ready(Ok(Some(0))));
    assert_eq!(iter.poll_next(&mut cx), Poll::Pending);
    assert_eq!(iter.poll_next(&mut cx), Poll::Ready(Ok(Some(1))));
    assert_eq!(iter.poll_next(&mut cx), Poll::Pending);
    assert_eq!(iter.poll_next(&mut cx), Poll::Ready(Ok(Some(2))));
    assert_eq!(iter.poll_next(&mut cx), Poll::Pending);
    assert_eq!(iter.poll_next(&mut cx), Poll::Ready(Ok(Some(3))));
    assert_eq!(iter.poll_next(&mut cx), Poll::Ready(Ok(None)));
}

#[test]
fn async_iter_ret_stream_through_block_on() {
    let iter = AsyncIter::new(|mut y| async move {
        y.ret_stream(source(SlowStream(vec![5, 6, 7], false))).await;
    });
    assert_eq!(collect(iter), vec![5, 6, 7]);
}
