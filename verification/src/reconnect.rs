//! When to try again after the connection was lost.

use std::ops::ControlFlow;
use vstd::prelude::*;

verus! {

/// The policy of this engine: always try again, after one second.
#[derive(Debug, Clone, Copy, PartialEq, Eq)]
pub struct HomoReconnectPolicy;

/// The seconds to wait before the connection is tried again.
pub const RETRY_DELAY_SECONDS: u64 = 1;

impl HomoReconnectPolicy {
    /// Whether to connect again after `attempts` attempts have failed, and
    /// after how many seconds: always, after one second.
    pub fn should_retry(&self, attempts: usize) -> (decision: ControlFlow<(), u64>)
        ensures
            decision == ControlFlow::<(), u64>::Continue(RETRY_DELAY_SECONDS),
    {
        ControlFlow::Continue(RETRY_DELAY_SECONDS)
    }
}

} // verus!
