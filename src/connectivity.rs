//! Waiting for end-to-end connectivity after a connection is activated.
use vstd::prelude::*;

verus! {

/// Reachability as the network service reports it.
#[derive(Debug, Clone, Copy, PartialEq, Eq, Structural)]
pub enum Connectivity {
    Unknown,
    Offline,
    Portal,
    Limited,
    Full,
}

/// Seconds to wait for connectivity when the caller names no timeout.
pub const DEFAULT_CONNECTIVITY_TIMEOUT: u64 = 20;

/// What the wait does after one query.
#[derive(Debug, Clone, Copy, PartialEq, Eq, Structural)]
pub enum WaitStep {
    /// Full or limited connectivity: the device has internet.
    Connected,
    /// The timeout has passed without it: no internet, which is no error.
    TimedOut,
    /// Sleep a second and query again.
    KeepWaiting,
}

pub open spec fn is_reachable(c: Connectivity) -> bool {
    c == Connectivity::Full || c == Connectivity::Limited
}

/// The step after a query that reported `c` when `elapsed` seconds had
/// passed.
pub fn connectivity_step(c: Connectivity, elapsed: u64, timeout: u64) -> (r: WaitStep)
    ensures
        is_reachable(c) ==> r == WaitStep::Connected,
        !is_reachable(c) && elapsed >= timeout ==> r == WaitStep::TimedOut,
        !is_reachable(c) && elapsed < timeout ==> r == WaitStep::KeepWaiting,
{
    if c == Connectivity::Full || c == Connectivity::Limited {
        WaitStep::Connected
    } else if elapsed >= timeout {
        WaitStep::TimedOut
    } else {
        WaitStep::KeepWaiting
    }
}

} // verus!
