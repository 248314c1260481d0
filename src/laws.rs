//! What the bridge guarantees over whole runs of a producer, stated over the
//! same step functions that the pulls of `Iter`, `LocalIter`, `AsyncIter` and
//! `LocalAsyncIter` are specified by.
//!
//! A run is described by what the producer would report at each pull if it
//! were resumed: whether it ran to completion, and what it left in the cell.
use std::task::Poll;
use vstd::prelude::*;

use crate::bridge::{
    async_pull_step, fed, forwarded, settled, sync_pull_step, token_polled, waits_on, Fault, Slot, Step,
};

verus! {

/// The reports of a producer that yields `vs`, awaiting each token, and then
/// returns: at each resumption it writes the next value into the emptied cell
/// and suspends, and at the last one it finishes with the cell empty.
pub open spec fn yielding_run<T>(vs: Seq<T>) -> Seq<(bool, Slot<T>)> {
    Seq::new(vs.len(), |i: int| (false, Slot::<T>::Empty.deposited(vs[i]))).push(
        (true, Slot::<T>::Empty),
    )
}

/// What successive synchronous pulls return, starting in the given state.
pub open spec fn sync_run<T>(finished: bool, reports: Seq<(bool, Slot<T>)>) -> Seq<
    Result<Option<T>, Fault>,
>
    decreases reports.len(),
{
    if reports.len() == 0 {
        Seq::empty()
    } else {
        let (next, r) = sync_pull_step(finished, reports[0].0, reports[0].1);
        seq![r] + sync_run(next, reports.drop_first())
    }
}

/// `n` ends in a row.
pub open spec fn ends<T>(n: nat) -> Seq<Result<Option<T>, Fault>> {
    Seq::new(n, |i: int| Ok::<Option<T>, Fault>(None))
}

/// The values, each as a pull returns it.
pub open spec fn as_pulled<T>(vs: Seq<T>) -> Seq<Result<Option<T>, Fault>> {
    Seq::new(vs.len(), |i: int| Ok::<Option<T>, Fault>(Some(vs[i])))
}

/// Once a bridge has finished, every further pull reports the end, whatever
/// the producer would have done: it is not resumed again.
pub proof fn finished_stays_finished<T>(reports: Seq<(bool, Slot<T>)>)
    ensures
        sync_run(true, reports) == ends::<T>(reports.len()),
    decreases reports.len(),
{
    if reports.len() > 0 {
        finished_stays_finished(reports.drop_first());
        assert(sync_run(true, reports) =~= ends::<T>(reports.len()));
    } else {
        assert(sync_run(true, reports) =~= ends::<T>(reports.len()));
    }
}

/// Pulling a bridge whose producer yields `vs` returns exactly `vs`, in order,
/// and then the end on that pull and on every pull after it.
pub proof fn pulls_return_yields_in_order<T>(vs: Seq<T>, later: Seq<(bool, Slot<T>)>)
    ensures
        sync_run(false, yielding_run(vs) + later) == as_pulled(vs) + ends::<T>(later.len() + 1),
    decreases vs.len(),
{
    let reports = yielding_run(vs) + later;
    if vs.len() == 0 {
        assert(reports.drop_first() =~= later);
        finished_stays_finished(later);
        assert(sync_run(false, reports) =~= as_pulled(vs) + ends::<T>(later.len() + 1));
    } else {
        let rest = vs.drop_first();
        pulls_return_yields_in_order(rest, later);
        assert(reports.drop_first() =~= yielding_run(rest) + later);
        assert(sync_run(false, reports) =~= as_pulled(vs) + ends::<T>(later.len() + 1));
    }
}

/// A producer that yields nothing ends the sequence on the first pull, with
/// no fault.
pub proof fn silent_producer_ends_at_once<T>()
    ensures
        sync_pull_step(false, true, Slot::<T>::Empty) == (true, Ok::<Option<T>, Fault>(None)),
        async_pull_step(false, true, Slot::<T>::Empty) == (
            true,
            Poll::Ready(Ok::<Option<T>, Fault>(None)),
        ),
{
}

/// A value that is produced and never awaited is caught: whether the producer
/// then finishes or yields another value, the step fails with
/// `UnconsumedYield` and the value is not passed on as if consumed.
pub proof fn unawaited_yield_is_caught<T>(v: T, w: T, completed: bool)
    ensures
        settled(true, Slot::<T>::Empty.deposited(v)) == Step::<T>::Failed(Fault::UnconsumedYield),
        settled(completed, Slot::<T>::Empty.deposited(v).deposited(w)) == Step::<T>::Failed(
            Fault::UnconsumedYield,
        ),
        sync_pull_step(false, true, Slot::<T>::Empty.deposited(v)).1 == Err::<Option<T>, Fault>(
            Fault::UnconsumedYield,
        ),
        sync_pull_step(false, completed, Slot::<T>::Empty.deposited(v).deposited(w)).1 == Err::<
            Option<T>,
            Fault,
        >(Fault::UnconsumedYield),
{
}

/// A synchronous pull whose producer suspends without yielding (on anything
/// but its token) fails with `SuspensionMisuse` and ends the bridge; an
/// asynchronous poll reports `Pending` instead and keeps the bridge going.
pub proof fn stray_suspension<T>()
    ensures
        sync_pull_step(false, false, Slot::<T>::Empty) == (
            true,
            Err::<Option<T>, Fault>(Fault::SuspensionMisuse),
        ),
        async_pull_step(false, false, Slot::<T>::Empty) == (
            false,
            Poll::<Result<Option<T>, Fault>>::Pending,
        ),
{
}


/// What successive asynchronous polls return, starting in the given state.
pub open spec fn async_run<T>(finished: bool, reports: Seq<(bool, Slot<T>)>) -> Seq<
    Poll<Result<Option<T>, Fault>>,
>
    decreases reports.len(),
{
    if reports.len() == 0 {
        Seq::empty()
    } else {
        let (next, r) = async_pull_step(finished, reports[0].0, reports[0].1);
        seq![r] + async_run(next, reports.drop_first())
    }
}

/// `k` reports of a producer suspended on outside work, with nothing yielded.
pub open spec fn waiting<T>(k: nat) -> Seq<(bool, Slot<T>)> {
    Seq::new(k, |i: int| (false, Slot::<T>::Empty))
}

/// `k` polls in a row that find nothing yet.
pub open spec fn pendings<T>(k: nat) -> Seq<Poll<Result<Option<T>, Fault>>> {
    Seq::new(k, |i: int| Poll::<Result<Option<T>, Fault>>::Pending)
}

/// The reports of a producer that yields `vs`, awaiting each token, and then
/// returns, where before its `i`-th yield (and, for the last entry, before
/// returning) it waits on outside work across `waits[i]` polls.
pub open spec fn waiting_run<T>(vs: Seq<T>, waits: Seq<nat>) -> Seq<(bool, Slot<T>)>
    decreases vs.len(),
{
    if vs.len() == 0 {
        waiting::<T>(waits[0]).push((true, Slot::<T>::Empty))
    } else {
        waiting::<T>(waits[0]).push((false, Slot::<T>::Empty.deposited(vs[0]))) + waiting_run(
            vs.drop_first(),
            waits.drop_first(),
        )
    }
}

/// What the polls of such a producer return: `Pending` while it waits, each
/// value of `vs` in order, and then the end.
pub open spec fn waiting_polled<T>(vs: Seq<T>, waits: Seq<nat>) -> Seq<
    Poll<Result<Option<T>, Fault>>,
>
    decreases vs.len(),
{
    if vs.len() == 0 {
        pendings::<T>(waits[0]).push(Poll::Ready(Ok(None)))
    } else {
        pendings::<T>(waits[0]).push(Poll::Ready(Ok(Some(vs[0])))) + waiting_polled(
            vs.drop_first(),
            waits.drop_first(),
        )
    }
}

proof fn polls_while_waiting<T>(k: nat, rest: Seq<(bool, Slot<T>)>)
    ensures
        async_run(false, waiting::<T>(k) + rest) == pendings::<T>(k) + async_run(false, rest),
    decreases k,
{
    if k > 0 {
        polls_while_waiting::<T>((k - 1) as nat, rest);
        assert((waiting::<T>(k) + rest).drop_first() =~= waiting::<T>((k - 1) as nat) + rest);
        assert(async_run(false, waiting::<T>(k) + rest) =~= pendings::<T>(k) + async_run(
            false,
            rest,
        ));
    } else {
        assert(waiting::<T>(k) + rest =~= rest);
        assert(pendings::<T>(k) + async_run(false, rest) =~= async_run(false, rest));
    }
}

/// A producer of an asynchronous bridge may wait on outside work between its
/// yields: the polls report `Pending` for as long as it waits, and the values
/// still come out exactly as yielded, in order, followed by the end.
pub proof fn polls_wait_and_yield_in_order<T>(vs: Seq<T>, waits: Seq<nat>)
    requires
        waits.len() == vs.len() + 1,
    ensures
        async_run(false, waiting_run(vs, waits)) == waiting_polled(vs, waits),
    decreases vs.len(),
{
    let k = waits[0];
    if vs.len() == 0 {
        let last = seq![(true, Slot::<T>::Empty)];
        assert(waiting_run(vs, waits) =~= waiting::<T>(k) + last);
        polls_while_waiting::<T>(k, last);
        assert(last.drop_first() =~= Seq::<(bool, Slot<T>)>::empty());
        let end = Poll::Ready(Ok::<Option<T>, Fault>(None));
        assert(async_run(false, last) == seq![end] + async_run(true, last.drop_first()));
        assert(async_run(false, last) =~= seq![end]);
        assert(pendings::<T>(k) + seq![end] =~= pendings::<T>(k).push(end));
    } else {
        let rest = waiting_run(vs.drop_first(), waits.drop_first());
        let step = seq![(false, Slot::<T>::Empty.deposited(vs[0]))] + rest;
        polls_wait_and_yield_in_order(vs.drop_first(), waits.drop_first());
        assert(waiting_run(vs, waits) =~= waiting::<T>(k) + step);
        polls_while_waiting::<T>(k, step);
        assert(step.drop_first() =~= rest);
        let first = Poll::Ready(Ok::<Option<T>, Fault>(Some(vs[0])));
        assert(async_run(false, step) == seq![first] + async_run(false, rest));
        assert(pendings::<T>(k) + (seq![first] + async_run(false, rest)) =~= pendings::<T>(
            k,
        ).push(first) + async_run(false, rest));
    }
}

/// What a producer that yields from an iterator reports at a resumption on
/// which it takes `item` from its source: whether it completed, and what it
/// left in the cell that the driver emptied.
pub open spec fn feeding_report<T>(waiting: bool, item: Option<T>) -> (bool, Slot<T>) {
    let (w, out, r) = fed(waiting, item);
    (
        r is Ready,
        match out {
            Some(v) => Slot::<T>::Empty.deposited(v),
            None => Slot::<T>::Empty,
        },
    )
}

/// The reports of a producer whose whole body yields from an iterator over
/// `vs`: at each resumption the value before was taken, so it takes the next
/// item, and at the last one the source is empty.
pub open spec fn feeding_run<T>(vs: Seq<T>) -> Seq<(bool, Slot<T>)> {
    Seq::new(vs.len(), |i: int| feeding_report(i > 0, Some(vs[i]))).push(
        feeding_report(vs.len() > 0, None),
    )
}

/// Yielding from an iterator is yielding its values one by one: once the
/// driver has taken the value before, the source is advanced (and not before),
/// and the reports are those of single yields of the same values, so the pulls
/// return the same results.
pub proof fn ret_iter_is_single_yields<T>(vs: Seq<T>)
    ensures
        feeding_run(vs) == yielding_run(vs),
        forall|waiting: bool| !waits_on::<()>(waiting, true),
        waits_on::<()>(true, false),
{
    assert(feeding_run(vs) =~= yielding_run(vs));
}

/// A yield token resumes exactly when the cell it reads is empty.
pub proof fn token_waits_until_taken<T>(v: T)
    ensures
        token_polled(Slot::<T>::Empty) == Poll::<()>::Ready(()),
        token_polled(Slot::<T>::Empty.deposited(v)) == Poll::<()>::Pending,
        token_polled(Slot::<T>::Empty.deposited(v).deposited(v)) == Poll::<()>::Pending,
{
}

/// What a producer that forwards a stream reports at a resumption on which it
/// polls its source once and the source answers `polled`.
pub open spec fn forwarding_report<T>(waiting: bool, polled: Poll<Option<T>>) -> (bool, Slot<T>) {
    let (w, out, r) = forwarded(waiting, polled);
    (
        r is Ready,
        match out {
            Some(v) => Slot::<T>::Empty.deposited(v),
            None => Slot::<T>::Empty,
        },
    )
}

/// The reports of a producer whose whole body forwards a stream that hands
/// out `vs` and then ends, without waiting.
pub open spec fn forwarding_run<T>(vs: Seq<T>) -> Seq<(bool, Slot<T>)> {
    Seq::new(vs.len(), |i: int| forwarding_report(i > 0, Poll::Ready(Some(vs[i])))).push(
        forwarding_report(vs.len() > 0, Poll::Ready(None)),
    )
}

/// Forwarding a stream is yielding its items one by one, in order: the
/// reports are those of single yields of the same values. When the source
/// waits on outside work, the producer reports a wait with the cell empty,
/// which an asynchronous poll passes on as `Pending`.
pub proof fn ret_stream_is_single_yields<T>(vs: Seq<T>, waiting: bool)
    ensures
        forwarding_run(vs) == yielding_run(vs),
        forwarding_report::<T>(waiting, Poll::Pending) == (false, Slot::<T>::Empty),
        async_pull_step(false, false, Slot::<T>::Empty).1 == Poll::<Result<Option<T>, Fault>>::Pending,
{
    assert(forwarding_run(vs) =~= yielding_run(vs));
}

} // verus!
