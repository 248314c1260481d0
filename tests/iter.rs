use std::cell::Cell;
use std::future::pending;

use yield_return::{Fault, Iter};

fn collect<'a, T: Send + 'a>(mut iter: Iter<'a, T>) -> Vec<T> {
    let mut list = Vec::new();
    while let Some(value) = iter.next().unwrap() {
        list.push(value);
    }
    list
}

#[test]
fn iter_no_value() {
    let iter = Iter::<u32>::new(|mut _y| async move {});
    let list: Vec<_> = collect(iter);
    assert_eq!(list, vec![]);
}

#[test]
fn iter_values() {
    let iter = Iter::new(|mut y| async move {
        y.ret(1).await;
        y.ret(2).await;
    });
    let list: Vec<_> = collect(iter);
    assert_eq!(list, vec![1, 2]);
}

#[test]
fn iter_fused() {
    let mut iter = Iter::new(|mut y| async move {
        y.ret(1).await;
        y.ret(2).await;
    });
    assert_eq!(iter.next(), Ok(Some(1)));
    assert_eq!(iter.next(), Ok(Some(2)));
    assert_eq!(iter.next(), Ok(None));
    assert_eq!(iter.next(), Ok(None));
}

#[test]
fn iter_values_with_lifetime() {
    let items = vec![1, 2];
    let items = &items;
    let iter = Iter::new(|mut y| async move {
        y.ret(&items[0]).await;
        y.ret(&items[1]).await;
    });
    let list: Vec<_> = collect(iter);
    assert_eq!(list, vec![&1, &2]);
}

#[test]
fn check_send() {
    let iter = Iter::new(|mut y| async move {
        y.ret(1).await;
    });
    fn f(_: impl Send) {}
    f(iter);
}

#[test]
fn iter_ret_not_sync() {
    let iter = Iter::new(|mut y| async move {
        y.ret(Cell::new(1)).await;
    });
    let list: Vec<_> = collect(iter);
    assert_eq!(list, vec![Cell::new(1)]);
}

#[test]
fn iter_pending_is_misuse() {
    let mut iter = Iter::<u32>::new(|mut y| async move {
        y.ret(1).await;
        pending::<()>().await;
        y.ret(2).await;
    });
    assert_eq!(iter.next(), Ok(Some(1)));
    assert_eq!(iter.next(), Err(Fault::SuspensionMisuse));
    assert!(iter.is_terminated());
    assert_eq!(iter.next(), Ok(None));
}

#[test]
#[allow(unused_must_use)]
fn iter_unawaited_then_finished() {
    let mut iter = Iter::new(|mut y| async move {
        y.ret(1);
    });
    assert_eq!(iter.next(), Err(Fault::UnconsumedYield));
    assert!(iter.is_terminated());
    assert_eq!(iter.next(), Ok(None));
}

#[test]
#[allow(unused_must_use)]
fn iter_unawaited_then_yield() {
    let mut iter = Iter::new(|mut y| async move {
        y.ret(1);
        y.ret(2);
    });
    assert_eq!(iter.next(), Err(Fault::UnconsumedYield));
    assert!(iter.is_terminated());
}

#[test]
fn iter_many_values_in_order() {
    let iter = Iter::new(|mut y| async move {
        for i in 0..100u64 {
            if i % 3 == 0 {
                y.ret(i * 10).await;
            }
        }
    });
    let expected: Vec<u64> = (0..100u64).filter(|i| i % 3 == 0).map(|i| i * 10).collect();
    assert_eq!(collect(iter), expected);
}

#[test]
fn iter_is_terminated_after_end() {
    let mut iter = Iter::<u8>::new(|mut y| async move {
        y.ret(7).await;
    });
    assert!(!iter.is_terminated());
    assert_eq!(iter.next(), Ok(Some(7)));
    assert!(!iter.is_terminated());
    assert_eq!(iter.next(), Ok(None));
    assert!(iter.is_terminated());
}

#[test]
fn iter_values_ret_iter() {
    let iter = Iter::new(|mut y| async move {
        y.ret_iter([1, 2].into_iter()).await;
    });
    let list: Vec<_> = collect(iter);
    assert_eq!(list, vec![1, 2]);
}

#[test]
fn iter_ret_iter_between_single_values() {
    let iter = Iter::new(|mut y| async move {
        y.ret(0).await;
        y.ret_iter(vec![1, 2, 3].into_iter()).await;
        y.ret_iter(Vec::new().into_iter()).await;
        y.ret(4).await;
    });
    assert_eq!(collect(iter), vec![0, 1, 2, 3, 4]);
}

#[test]
#[allow(unused_must_use)]
fn iter_ret_iter_after_unawaited_value() {
    let mut iter = Iter::new(|mut y| async move {
        y.ret(0);
        y.ret_iter([1].into_iter()).await;
    });
    assert_eq!(iter.next(), Err(Fault::UnconsumedYield));
}

#[test]
fn iter_from_iter() {
    let mut iter = Iter::from_iter(vec!["a", "b"].into_iter());
    assert_eq!(iter.next(), Ok(Some("a")));
    assert_eq!(iter.next(), Ok(Some("b")));
    assert_eq!(iter.next(), Ok(None));
    assert!(iter.is_terminated());
}

#[test]
fn iter_from_empty_iter() {
    let mut iter = Iter::<u8>::from_iter(Vec::new().into_iter());
    assert_eq!(iter.next(), Ok(None));
    assert_eq!(iter.next(), Ok(None));
}
