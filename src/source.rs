//! Streams with their type erased, so that a producer can forward their items
//! through its context.
use futures::stream::{Stream, StreamExt};
use std::pin::Pin;
use std::task::{Context, Poll};
use vstd::prelude::*;

use crate::driver::Pollable;

verus! {

/// A thread-confined stream of `T`, with its type erased. Verus takes neither
/// a `dyn Stream` nor a `Stream` bound on verified code, so the stream is
/// held out of its sight and reached through the two functions below.
#[verifier::external_body]
#[verifier::reject_recursive_types(T)]
pub struct LocalSource<'a, T> {
    stream: Pin<Box<dyn Stream<Item = T> + 'a>>,
}

/// A stream of `T` that may move between threads, with its type erased, as
/// `LocalSource`.
#[verifier::external_body]
#[verifier::reject_recursive_types(T)]
pub struct Source<'a, T> {
    stream: Pin<Box<dyn Stream<Item = T> + Send + 'a>>,
}

/// Relies on Box::pin: erases the type of `stream`.
#[verifier::external_body]
pub fn local_source<'a, T, S: Stream<Item = T> + 'a>(stream: S) -> LocalSource<'a, T> {
    LocalSource { stream: Box::pin(stream) }
}

/// Relies on Box::pin: erases the type of `stream`, which may then move
/// between threads.
#[verifier::external_body]
pub fn source<'a, T, S: Stream<Item = T> + Send + 'a>(stream: S) -> Source<'a, T> {
    Source { stream: Box::pin(stream) }
}

/// Relies on StreamExt::poll_next_unpin: polls the stream once with the
/// caller's context; `Ready(None)` once it has ended.
#[verifier::external_body]
fn poll_local_source<'a, T>(s: &mut LocalSource<'a, T>, cx: &mut Context) -> Poll<Option<T>> {
    s.stream.poll_next_unpin(cx)
}

/// Relies on StreamExt::poll_next_unpin: polls the stream once with the
/// caller's context; `Ready(None)` once it has ended.
#[verifier::external_body]
fn poll_source<'a, T>(s: &mut Source<'a, T>, cx: &mut Context) -> Poll<Option<T>> {
    s.stream.poll_next_unpin(cx)
}

impl<'a, T> Pollable for LocalSource<'a, T> {
    type Item = T;

    fn poll_item(&mut self, cx: &mut Context) -> Poll<Option<T>> {
        poll_local_source(self, cx)
    }
}

impl<'a, T> Pollable for Source<'a, T> {
    type Item = T;

    fn poll_item(&mut self, cx: &mut Context) -> Poll<Option<T>> {
        poll_source(self, cx)
    }
}

} // verus!
