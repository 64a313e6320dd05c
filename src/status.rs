use vstd::prelude::*;

verus! {

/// Outcome of one latency measurement of a node.
#[derive(Debug, Clone, Copy, PartialEq, Eq, Structural)]
pub enum LatencyStatus {
    /// No measurement has been taken since the last reset.
    NotTested,
    /// The probe failed or did not finish within its timeout.
    TimedOut,
    /// The probe succeeded after the given number of milliseconds.
    Success(u64),
}

impl LatencyStatus {
    /// True unless the status is `NotTested`.
    pub fn is_tested(&self) -> (r: bool)
        ensures
            r == !(*self is NotTested),
    {
        !matches!(self, LatencyStatus::NotTested)
    }
}

/// Which of the two latency measurements a probe performs.
#[derive(Debug, Clone, Copy, PartialEq, Eq, Structural)]
pub enum TestType {
    Http,
    Tcp,
}

/// A probe's result as handed to the view model.
#[derive(Debug, Clone, Copy, PartialEq, Eq, Structural)]
pub struct LatencyResult {
    pub index: usize,
    pub latency: LatencyStatus,
    pub test_type: TestType,
}

/// The ordering key of a latency: successes first (by milliseconds), then
/// timeouts, then untested nodes.
pub open spec fn sort_key_spec(s: LatencyStatus) -> (u8, u64) {
    match s {
        LatencyStatus::Success(ms) => (0u8, ms),
        LatencyStatus::TimedOut => (1u8, 0u64),
        LatencyStatus::NotTested => (2u8, 0u64),
    }
}

/// Lexicographic order on sort keys.
pub open spec fn key_le(a: (u8, u64), b: (u8, u64)) -> bool {
    a.0 < b.0 || (a.0 == b.0 && a.1 <= b.1)
}

pub fn latency_sort_key(status: &LatencyStatus) -> (r: (u8, u64))
    ensures
        r == sort_key_spec(*status),
{
    match status {
        LatencyStatus::Success(ms) => (0, *ms),
        LatencyStatus::TimedOut => (1, 0),
        LatencyStatus::NotTested => (2, 0),
    }
}

} // verus!
