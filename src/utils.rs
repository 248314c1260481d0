//! Small helpers around wakers.
use std::task::Waker;
use vstd::prelude::*;

use crate::host::idle_waker;

verus! {

/// A waker that does nothing when woken, for driving a computation whose
/// caller polls it again by itself.
pub fn noop_waker() -> Waker {
    idle_waker()
}

} // verus!
