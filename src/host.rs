//! The std and futures items that the bridge runs on, with what is assumed of
//! each.
use futures::future::FutureExt;
use futures::task::{FutureObj, LocalFutureObj};
use std::cell::RefCell;
use std::future::Future;
use std::pin::Pin;
use std::sync::{Mutex, PoisonError};
use std::task::{Context, Poll, Waker};
use vstd::prelude::*;

use crate::bridge::Slot;

verus! {

/// std's RefCell, opaque: the thread-confined cell.
#[verifier::external_type_specification]
#[verifier::external_body]
#[verifier::reject_recursive_types(T)]
pub struct ExRefCell<T: ?Sized>(RefCell<T>);

/// std's Mutex, opaque: the cell, and the computation, of the bridges that
/// may move between threads.
#[verifier::external_type_specification]
#[verifier::external_body]
#[verifier::reject_recursive_types(T)]
pub struct ExMutex<T: ?Sized>(Mutex<T>);

/// std's task Context, opaque: handed through to the computation.
#[verifier::external_type_specification]
#[verifier::external_body]
pub struct ExContext<'a>(Context<'a>);

/// std's Waker, opaque.
#[verifier::external_type_specification]
#[verifier::external_body]
pub struct ExWaker(Waker);

/// std's Pin, opaque: the receiver of `Future::poll`.
#[verifier::external_type_specification]
#[verifier::external_body]
#[verifier::reject_recursive_types(P)]
pub struct ExPin<P>(Pin<P>);

/// std's Poll, with its two variants visible: verified code builds and reads
/// it.
#[verifier::external_type_specification]
#[verifier::reject_recursive_types(T)]
pub struct ExPoll<T>(Poll<T>);

/// futures' LocalFutureObj, opaque: the type-erased computation.
#[verifier::external_type_specification]
#[verifier::external_body]
#[verifier::reject_recursive_types(T)]
pub struct ExLocalFutureObj<'a, T>(LocalFutureObj<'a, T>);

/// futures' FutureObj, opaque: the type-erased computation that is `Send`.
#[verifier::external_type_specification]
#[verifier::external_body]
#[verifier::reject_recursive_types(T)]
pub struct ExFutureObj<'a, T>(FutureObj<'a, T>);

/// Relies on RefCell::new: a cell holding `value`; nothing more is stated,
/// the cell being opaque.
pub assume_specification<T>[ RefCell::<T>::new ](value: T) -> RefCell<T>;

/// Relies on Mutex::new: an unlocked mutex holding `t`; nothing more is
/// stated, the mutex being opaque.
pub assume_specification<T>[ Mutex::<T>::new ](t: T) -> Mutex<T>;

/// Relies on Context::from_waker: a context that hands out `waker`; nothing
/// more is stated.
pub assume_specification<'a>[ Context::<'a>::from_waker ](waker: &'a Waker) -> Context<'a>;

/// Relies on futures::task::noop_waker: a waker whose wake does nothing.
#[verifier::external_body]
pub(crate) fn idle_waker() -> Waker {
    futures::task::noop_waker()
}

/// Relies on RefCell::replace: puts `slot` into the cell and hands back what
/// was there. The cell is private to the crate's own yield token and driver,
/// which reach it only through this call and hold no borrow of it in between,
/// so it is never borrowed when the call is made.
#[verifier::external_body]
pub(crate) fn exchange_local<T>(cell: &RefCell<Slot<T>>, slot: Slot<T>) -> Slot<T> {
    cell.replace(slot)
}

/// Relies on Mutex::lock and mem::replace: puts `slot` into the cell under the
/// lock and hands back what was there. The cell is private to the crate's own
/// yield token and driver, which reach it only through this call, so the lock
/// is never held when the call is made; a poisoned lock still holds a whole
/// slot, since no code panics while holding it.
#[verifier::external_body]
pub(crate) fn exchange_shared<T>(cell: &Mutex<Slot<T>>, slot: Slot<T>) -> Slot<T> {
    std::mem::replace(&mut *cell.lock().unwrap_or_else(PoisonError::into_inner), slot)
}

/// Relies on the `Deref` of `Pin<&mut S>`: a shared view of the pinned value.
#[verifier::external_body]
pub(crate) fn pinned<'b, S>(p: &'b Pin<&mut S>) -> &'b S {
    p
}

/// Relies on the `From<Pin<Box<F>>>` of LocalFutureObj: erases the type of the
/// producer's computation.
#[verifier::external_body]
pub(crate) fn erase_local<'a, F: Future<Output = ()> + 'a>(fut: F) -> LocalFutureObj<'a, ()> {
    LocalFutureObj::from(Box::pin(fut))
}

/// Relies on the `From<Pin<Box<F>>>` of FutureObj: erases the type of the
/// producer's computation, which may then move between threads.
#[verifier::external_body]
pub(crate) fn erase_shared<'a, F: Future<Output = ()> + Send + 'a>(fut: F) -> FutureObj<'a, ()> {
    FutureObj::from(Box::pin(fut))
}

/// Relies on FutureExt::poll_unpin: resumes the computation by one step;
/// `Ready` when it ran to completion. Only the crate's driver calls this, and
/// it drops the computation once it has completed, so a completed
/// computation is never resumed.
#[verifier::external_body]
pub(crate) fn resume_local(fut: &mut LocalFutureObj<'_, ()>, cx: &mut Context<'_>) -> Poll<()> {
    fut.poll_unpin(cx)
}

/// Relies on Mutex::get_mut and FutureExt::poll_unpin: resumes the computation
/// by one step; `Ready` when it ran to completion. The lock is never taken, so
/// the exclusive borrow reaches the computation directly. Only the crate's
/// driver calls this, and it drops the computation once it has completed.
#[verifier::external_body]
pub(crate) fn resume_shared(fut: &mut Mutex<FutureObj<'_, ()>>, cx: &mut Context<'_>) -> Poll<()> {
    fut.get_mut().unwrap_or_else(PoisonError::into_inner).poll_unpin(cx)
}

} // verus!
