//! Pull-based sequences written as asynchronous functions, in the manner of
//! C#'s `yield return`: the producer yields each value through a context and
//! suspends until the consumer has taken it.
//!
//! |                     | `Send`      | Not `Send`       |
//! | ------------------- | ----------- | ---------------- |
//! | synchronous pull    | `Iter`      | `LocalIter`      |
//! | asynchronous pull   | `AsyncIter` | `LocalAsyncIter` |
//!
//! A producer that breaks its contract (it yields without awaiting the token,
//! or, under a synchronous pull, awaits anything else) makes the pull return a
//! `Fault` instead of a value.
use vstd::prelude::*;

pub mod bridge;
mod driver;
mod host;
pub mod iter;
pub mod laws;
pub mod local_iter;
pub mod source;
pub mod utils;

pub use bridge::{Fault, Slot, Step};
pub use driver::{RetIter, RetStream};
pub use iter::{AsyncIter, AsyncIterContext, Iter, IterContext};
pub use local_iter::{LocalAsyncIter, LocalAsyncIterContext, LocalIter, LocalIterContext};
pub use source::{local_source, source, LocalSource, Source};
pub use utils::noop_waker;

verus! {

/// Former name of `LocalIter`.
pub type Yield<'a, T> = LocalIter<'a, T>;

/// Former name of `LocalIterContext`.
pub type YieldContext<T> = LocalIterContext<T>;

} // verus!
