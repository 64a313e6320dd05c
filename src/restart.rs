use vstd::prelude::*;

use crate::text::{parse_unsigned, parse_unsigned_exec, split_spec, split_str, trim_str, trimmed};

verus! {

/// How often the proxy's PID is looked up after the reload signal.
pub const RESTART_ATTEMPTS: u32 = 6;

/// The pause before each lookup, in milliseconds.
pub const RESTART_INTERVAL_MS: u64 = 500;

/// The proxy process before and after a reload.
#[derive(Debug, Clone, Copy, PartialEq, Eq, Structural)]
pub struct RestartResult {
    pub old_pid: u32,
    pub new_pid: u32,
}

/// Why a reload could not be confirmed.
#[derive(Debug, Clone, Copy, PartialEq, Eq, Structural)]
pub enum RestartError {
    /// The PID kept its value through every lookup.
    PidUnchanged(u32),
    /// No proxy process was found at the last lookup.
    Disappeared(u32),
}

/// What follows one lookup of the proxy's PID after the reload signal.
#[derive(Debug, Clone, Copy, PartialEq, Eq, Structural)]
pub enum RestartStep {
    /// A process with another PID runs: the reload happened.
    Restarted(RestartResult),
    /// Pause and look again.
    Retry,
    Failed(RestartError),
}

/// The decision after lookup number `attempt` (from 0) found `observed`.
pub open spec fn restart_step_spec(old_pid: u32, attempt: u32, observed: Option<u32>) -> RestartStep {
    match observed {
        Some(p) => if p != old_pid {
            RestartStep::Restarted(RestartResult { old_pid, new_pid: p })
        } else if attempt + 1 >= RESTART_ATTEMPTS {
            RestartStep::Failed(RestartError::PidUnchanged(old_pid))
        } else {
            RestartStep::Retry
        },
        None => if attempt + 1 >= RESTART_ATTEMPTS {
            RestartStep::Failed(RestartError::Disappeared(old_pid))
        } else {
            RestartStep::Retry
        },
    }
}

/// Decides after a lookup of the PID whether the reload happened, failed, or
/// should be looked at again.
pub fn restart_step(old_pid: u32, attempt: u32, observed: Option<u32>) -> (r: RestartStep)
    requires
        attempt < RESTART_ATTEMPTS,
    ensures
        r == restart_step_spec(old_pid, attempt, observed),
{
    match observed {
        Some(p) => if p != old_pid {
            RestartStep::Restarted(RestartResult { old_pid, new_pid: p })
        } else if attempt + 1 >= RESTART_ATTEMPTS {
            RestartStep::Failed(RestartError::PidUnchanged(old_pid))
        } else {
            RestartStep::Retry
        },
        None => if attempt + 1 >= RESTART_ATTEMPTS {
            RestartStep::Failed(RestartError::Disappeared(old_pid))
        } else {
            RestartStep::Retry
        },
    }
}

/// The PID on the first line of a process listing, if it holds one.
pub open spec fn first_pid_spec(listing: Seq<char>) -> Option<nat> {
    parse_unsigned(trimmed(split_spec(listing, '\n')[0]), 0xffff_ffff)
}

/// Reads the PID on the first line of a process listing.
pub fn first_pid(listing: &str) -> (r: Option<u32>)
    ensures
        match first_pid_spec(listing@) {
            Some(p) => r == Some(p as u32),
            None => r is None,
        },
{
    let lines = split_str(listing, '\n');
    proof {
        crate::text::lemma_split_nonempty(listing@, '\n');
        assert(crate::text::string_views(lines@)[0] == lines@[0]@);
    }
    let first = trim_str(lines[0].as_str());
    parse_unsigned_exec(first, 0xffff_ffff)
}

} // verus!
