use vstd::prelude::*;

use crate::node::{port_of, VmessNode};
use crate::status::LatencyStatus;
use crate::text::{decimal, push_decimal};

verus! {

/// The overall timeout of one probe, in seconds.
pub const PROBE_TIMEOUT_SECS: u64 = 5;

/// How often the helper's port is tried before it counts as not started.
pub const READY_ATTEMPTS: u32 = 20;

/// The pause between two tries of the helper's port, in milliseconds.
pub const READY_INTERVAL_MS: u64 = 100;

/// The endpoint an HTTP probe requests through the helper.
pub const PROBE_URL: &'static str = "https://www.google.com/generate_204";

/// A relayed response counts as success when its status is 2xx or 204.
pub open spec fn is_success_status(code: u16) -> bool {
    (200 <= code <= 299) || code == 204
}

/// The outcome of an HTTP probe: the response's status code, if one came, and
/// the milliseconds from dispatch to settling.
pub fn classify_http(response: Option<u16>, elapsed_ms: u64) -> (r: LatencyStatus)
    ensures
        r == match response {
            Some(code) => if is_success_status(code) {
                LatencyStatus::Success(elapsed_ms)
            } else {
                LatencyStatus::TimedOut
            },
            None => LatencyStatus::TimedOut,
        },
{
    match response {
        Some(code) => if (200 <= code && code <= 299) || code == 204 {
            LatencyStatus::Success(elapsed_ms)
        } else {
            LatencyStatus::TimedOut
        },
        None => LatencyStatus::TimedOut,
    }
}

/// The outcome of a TCP probe: whether the connection was established within
/// the timeout, and after how many milliseconds.
pub fn classify_tcp(connected: bool, elapsed_ms: u64) -> (r: LatencyStatus)
    ensures
        r == if connected {
            LatencyStatus::Success(elapsed_ms)
        } else {
            LatencyStatus::TimedOut
        },
{
    if connected {
        LatencyStatus::Success(elapsed_ms)
    } else {
        LatencyStatus::TimedOut
    }
}

/// The address a TCP probe connects to: `address:port`.
pub fn tcp_target(node: &VmessNode) -> (r: String)
    ensures
        r@ == node.add@ + seq![':'] + decimal(port_of(node.port) as nat),
{
    let mut out = node.add.clone();
    proof {
        reveal_strlit(":");
    }
    out.append(":");
    push_decimal(&mut out, node.get_port() as u64);
    out
}

/// Where the helper's configuration for a probe on `port` is written.
pub fn probe_config_path(port: u16) -> (r: String)
    ensures
        r@ == "/tmp/xray_test_"@ + decimal(port as nat) + ".json"@,
{
    let mut out = String::from_str("/tmp/xray_test_");
    push_decimal(&mut out, port as u64);
    out.append(".json");
    out
}

/// The local proxy address an HTTP probe sends its request through.
pub fn probe_proxy_url(port: u16) -> (r: String)
    ensures
        r@ == "socks5://127.0.0.1:"@ + decimal(port as nat),
{
    let mut out = String::from_str("socks5://127.0.0.1:");
    push_decimal(&mut out, port as u64);
    out
}

/// Where an HTTP probe stands.
#[derive(Debug, Clone, Copy, PartialEq, Eq, Structural)]
pub enum ProbeStage {
    /// The helper's configuration is being written.
    Writing,
    /// The helper process is being started.
    Spawning,
    /// The helper's port is being tried; the number of tries made so far.
    Polling(u32),
    /// Pausing before the next try of the port.
    Sleeping(u32),
    /// The request is in flight through the helper.
    Requesting,
    /// The helper is being stopped and its configuration deleted.
    Releasing(LatencyStatus),
    /// The outcome has been reported.
    Done,
}

/// What the caller of an HTTP probe does next.
#[derive(Debug, Clone, Copy, PartialEq, Eq, Structural)]
pub enum ProbeStep {
    WriteConfig,
    SpawnHelper,
    CheckPort,
    Sleep(u64),
    SendRequest,
    /// Stop the helper and delete its configuration.
    Release,
    /// The probe's outcome.
    Report(LatencyStatus),
}

/// What the caller observed when doing the last step.
#[derive(Debug, Clone, Copy, PartialEq, Eq, Structural)]
pub enum ProbeEvent {
    ConfigWritten(bool),
    HelperSpawned(bool),
    PortChecked(bool),
    Slept,
    /// The response's status code, if one came, and the elapsed milliseconds.
    Responded(Option<u16>, u64),
    Released,
}

/// The configuration file or the helper process may exist.
pub open spec fn holds_helper(s: ProbeStage) -> bool {
    match s {
        ProbeStage::Spawning | ProbeStage::Polling(_) | ProbeStage::Sleeping(_) | ProbeStage::Requesting => true,
        _ => false,
    }
}

/// The event answers the step that the stage asked for.
pub open spec fn expects(s: ProbeStage, e: ProbeEvent) -> bool {
    match s {
        ProbeStage::Writing => e is ConfigWritten,
        ProbeStage::Spawning => e is HelperSpawned,
        ProbeStage::Polling(_) => e is PortChecked,
        ProbeStage::Sleeping(_) => e is Slept,
        ProbeStage::Requesting => e is Responded,
        ProbeStage::Releasing(_) => e is Released,
        ProbeStage::Done => false,
    }
}

pub open spec fn stage_wf(s: ProbeStage) -> bool {
    match s {
        ProbeStage::Polling(a) => a < READY_ATTEMPTS,
        ProbeStage::Sleeping(a) => a + 1 < READY_ATTEMPTS,
        ProbeStage::Releasing(o) => !(o is NotTested),
        _ => true,
    }
}

/// One transition of an HTTP probe: the next stage and the step it asks for.
/// A failure to write the configuration reports a timeout at once; every
/// other failure, and every outcome once the helper may exist, goes through
/// the release of the helper before it is reported.
pub open spec fn probe_transition(s: ProbeStage, e: ProbeEvent) -> (ProbeStage, ProbeStep) {
    match (s, e) {
        (ProbeStage::Writing, ProbeEvent::ConfigWritten(ok)) => if ok {
            (ProbeStage::Spawning, ProbeStep::SpawnHelper)
        } else {
            (ProbeStage::Done, ProbeStep::Report(LatencyStatus::TimedOut))
        },
        (ProbeStage::Spawning, ProbeEvent::HelperSpawned(ok)) => if ok {
            (ProbeStage::Polling(0), ProbeStep::CheckPort)
        } else {
            (ProbeStage::Releasing(LatencyStatus::TimedOut), ProbeStep::Release)
        },
        (ProbeStage::Polling(a), ProbeEvent::PortChecked(open)) => if open {
            (ProbeStage::Requesting, ProbeStep::SendRequest)
        } else if a + 1 < READY_ATTEMPTS {
            (ProbeStage::Sleeping(a), ProbeStep::Sleep(READY_INTERVAL_MS))
        } else {
            (ProbeStage::Releasing(LatencyStatus::TimedOut), ProbeStep::Release)
        },
        (ProbeStage::Sleeping(a), ProbeEvent::Slept) => ((ProbeStage::Polling((a + 1) as u32), ProbeStep::CheckPort)),
        (ProbeStage::Requesting, ProbeEvent::Responded(code, ms)) => {
            let o = match code {
                Some(c) => if is_success_status(c) {
                    LatencyStatus::Success(ms)
                } else {
                    LatencyStatus::TimedOut
                },
                None => LatencyStatus::TimedOut,
            };
            (ProbeStage::Releasing(o), ProbeStep::Release)
        },
        (ProbeStage::Releasing(o), ProbeEvent::Released) => (ProbeStage::Done, ProbeStep::Report(o)),
        _ => (s, ProbeStep::Report(LatencyStatus::TimedOut)),
    }
}

/// The decisions of one HTTP probe through a helper process.
pub struct HttpProbe {
    pub stage: ProbeStage,
}

impl HttpProbe {
    /// A probe about to write its helper's configuration.
    pub fn start() -> (r: (HttpProbe, ProbeStep))
        ensures
            r.0.stage == ProbeStage::Writing,
            r.1 == ProbeStep::WriteConfig,
    {
        (HttpProbe { stage: ProbeStage::Writing }, ProbeStep::WriteConfig)
    }

    /// Takes the event that answers the last step and returns the next step.
    pub fn on_event(&mut self, e: ProbeEvent) -> (r: ProbeStep)
        requires
            stage_wf(old(self).stage),
            expects(old(self).stage, e),
        ensures
            stage_wf(final(self).stage),
            (final(self).stage, r) == probe_transition(old(self).stage, e),
    {
        let (s, step) = match (self.stage, e) {
            (ProbeStage::Writing, ProbeEvent::ConfigWritten(ok)) => if ok {
                (ProbeStage::Spawning, ProbeStep::SpawnHelper)
            } else {
                (ProbeStage::Done, ProbeStep::Report(LatencyStatus::TimedOut))
            },
            (ProbeStage::Spawning, ProbeEvent::HelperSpawned(ok)) => if ok {
                (ProbeStage::Polling(0), ProbeStep::CheckPort)
            } else {
                (ProbeStage::Releasing(LatencyStatus::TimedOut), ProbeStep::Release)
            },
            (ProbeStage::Polling(a), ProbeEvent::PortChecked(open)) => if open {
                (ProbeStage::Requesting, ProbeStep::SendRequest)
            } else if a + 1 < READY_ATTEMPTS {
                (ProbeStage::Sleeping(a), ProbeStep::Sleep(READY_INTERVAL_MS))
            } else {
                (ProbeStage::Releasing(LatencyStatus::TimedOut), ProbeStep::Release)
            },
            (ProbeStage::Sleeping(a), ProbeEvent::Slept) => (ProbeStage::Polling(a + 1), ProbeStep::CheckPort),
            (ProbeStage::Requesting, ProbeEvent::Responded(code, ms)) => {
                (ProbeStage::Releasing(classify_http(code, ms)), ProbeStep::Release)
            },
            (ProbeStage::Releasing(o), ProbeEvent::Released) => (ProbeStage::Done, ProbeStep::Report(o)),
            _ => (self.stage, ProbeStep::Report(LatencyStatus::TimedOut)),
        };
        self.stage = s;
        step
    }
}

/// Cleanup on every exit path: a probe that may hold the helper's
/// configuration or process never reports without releasing them first, and
/// what it reports is never `NotTested`.
pub proof fn lemma_release_before_report(s: ProbeStage, e: ProbeEvent)
    requires
        stage_wf(s),
        expects(s, e),
    ensures
        holds_helper(s) ==> !(probe_transition(s, e).1 is Report),
        probe_transition(s, e).1 is Report ==> !(probe_transition(s, e).1->Report_0 is NotTested),
        probe_transition(s, e).1 is Report ==> probe_transition(s, e).0 == ProbeStage::Done,
        holds_helper(s) && !holds_helper(probe_transition(s, e).0) ==> probe_transition(s, e).1 is Release,
{
}

} // verus!
