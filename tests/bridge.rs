use std::task::{Context, Poll};

use yield_return::bridge::{async_pull, feed, must_wait, settle, sync_pull, token_check};
use yield_return::{noop_waker, Fault, Slot, Step};

#[test]
fn deposit_into_empty_holds_value() {
    assert!(matches!(Slot::Empty.deposit(5), Slot::Held(5)));
}

#[test]
fn deposit_into_held_overruns() {
    assert!(matches!(Slot::Held(5).deposit(6), Slot::Overrun));
    assert!(matches!(Slot::<i32>::Overrun.deposit(6), Slot::Overrun));
}

#[test]
fn slot_is_empty() {
    assert!(Slot::<i32>::Empty.is_empty());
    assert!(!Slot::Held(1).is_empty());
    assert!(!Slot::<i32>::Overrun.is_empty());
}

#[test]
fn settle_each_case() {
    assert!(matches!(settle(false, Slot::Held(3)), Step::Produced(3)));
    assert!(matches!(settle(true, Slot::<i32>::Empty), Step::Finished));
    assert!(matches!(settle(false, Slot::<i32>::Empty), Step::Waiting));
    assert!(matches!(settle(true, Slot::Held(3)), Step::Failed(Fault::UnconsumedYield)));
    assert!(matches!(settle(false, Slot::<i32>::Overrun), Step::Failed(Fault::UnconsumedYield)));
    assert!(matches!(settle(true, Slot::<i32>::Overrun), Step::Failed(Fault::UnconsumedYield)));
}

#[test]
fn sync_pull_each_case() {
    assert_eq!(sync_pull(Step::Produced(4)), Ok(Some(4)));
    assert_eq!(sync_pull(Step::<i32>::Finished), Ok(None));
    assert_eq!(sync_pull(Step::<i32>::Waiting), Err(Fault::SuspensionMisuse));
    assert_eq!(sync_pull(Step::<i32>::Failed(Fault::UnconsumedYield)), Err(Fault::UnconsumedYield));
}

#[test]
fn async_pull_each_case() {
    assert_eq!(async_pull(Step::Produced(4)), Poll::Ready(Ok(Some(4))));
    assert_eq!(async_pull(Step::<i32>::Finished), Poll::Ready(Ok(None)));
    assert_eq!(async_pull(Step::<i32>::Waiting), Poll::Pending);
    assert_eq!(
        async_pull(Step::<i32>::Failed(Fault::SuspensionMisuse)),
        Poll::Ready(Err(Fault::SuspensionMisuse))
    );
}

#[test]
fn noop_waker_builds_a_context() {
    let waker = noop_waker();
    let cx = Context::from_waker(&waker);
    cx.waker().wake_by_ref();
    waker.wake();
}

#[test]
fn token_check_keeps_slot() {
    let (slot, ready) = token_check(Slot::<i32>::Empty);
    assert!(ready);
    assert!(matches!(slot, Slot::Empty));
    let (slot, ready) = token_check(Slot::Held(9));
    assert!(!ready);
    assert!(matches!(slot, Slot::Held(9)));
    let (slot, ready) = token_check(Slot::<i32>::Overrun);
    assert!(!ready);
    assert!(matches!(slot, Slot::Overrun));
}

#[test]
fn must_wait_only_while_value_untaken() {
    assert!(must_wait(true, false));
    assert!(!must_wait(true, true));
    assert!(!must_wait(false, false));
    assert!(!must_wait(false, true));
}

#[test]
fn feed_each_case() {
    assert_eq!(feed(false, Some(5)), (true, Some(5), Poll::Pending));
    assert_eq!(feed(true, Some(6)), (true, Some(6), Poll::Pending));
    assert_eq!(feed(true, None::<i32>), (true, None, Poll::Ready(())));
    assert_eq!(feed(false, None::<i32>), (false, None, Poll::Ready(())));
}
