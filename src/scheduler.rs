use vstd::prelude::*;

use crate::ports::{alloc_step, PortAllocator, PORT_FLOOR};
use crate::status::{LatencyResult, LatencyStatus, TestType};

verus! {

/// The counts a batch is decided on.
pub ghost struct BatchModel {
    /// Nodes in the batch.
    pub total: nat,
    /// Most probes in flight at once.
    pub max_concurrent: nat,
    /// Probes dispatched so far; they went to nodes `0..admitted`, in order.
    pub admitted: nat,
    /// Dispatched probes that have finished, delivered or discarded.
    pub completed: nat,
    /// Whether the batch's token has been seen fired.
    pub cancelled: bool,
}

/// What the coordinator does next.
pub enum Decision {
    Admit,
    Wait,
    Finish,
}

pub open spec fn in_flight(m: BatchModel) -> int {
    m.admitted - m.completed
}

pub open spec fn model_wf(m: BatchModel) -> bool {
    &&& m.completed <= m.admitted <= m.total
    &&& in_flight(m) <= m.max_concurrent
    &&& m.max_concurrent >= 1
}

/// Admit the next node while the token has not fired, nodes remain and a slot
/// is free; otherwise wait while probes are in flight; otherwise finish.
pub open spec fn decide(m: BatchModel) -> Decision {
    if !m.cancelled && m.admitted < m.total && in_flight(m) < m.max_concurrent {
        Decision::Admit
    } else if in_flight(m) > 0 {
        Decision::Wait
    } else {
        Decision::Finish
    }
}

pub open spec fn seen(m: BatchModel, fired: bool) -> BatchModel {
    BatchModel { cancelled: m.cancelled || fired, ..m }
}

/// The state after the coordinator asks what to do, having read the token.
pub open spec fn after_poll(m: BatchModel, fired: bool) -> BatchModel {
    let c = seen(m, fired);
    if decide(c) is Admit {
        BatchModel { admitted: c.admitted + 1, ..c }
    } else {
        c
    }
}

/// The state after a probe finishes, the token read at that moment.
pub open spec fn after_completion(m: BatchModel, fired: bool) -> BatchModel {
    BatchModel { completed: m.completed + 1, ..seen(m, fired) }
}

/// A finished probe's result is delivered only if the token has not fired.
pub open spec fn delivers(m: BatchModel, fired: bool) -> bool {
    !seen(m, fired).cancelled
}

/// What the coordinator observes: a poll for the next decision or a probe's
/// completion, each with the token's state at that moment.
pub enum BatchEvent {
    Poll(bool),
    Completion(bool),
}

pub open spec fn step(m: BatchModel, e: BatchEvent) -> BatchModel {
    match e {
        BatchEvent::Poll(f) => after_poll(m, f),
        BatchEvent::Completion(f) => after_completion(m, f),
    }
}

/// Completions come only from probes in flight.
pub open spec fn valid_run(m: BatchModel, evs: Seq<BatchEvent>) -> bool
    decreases evs.len(),
{
    if evs.len() == 0 {
        true
    } else {
        (evs[0] is Completion ==> in_flight(m) > 0) && valid_run(step(m, evs[0]), evs.drop_first())
    }
}

pub open spec fn run(m: BatchModel, evs: Seq<BatchEvent>) -> BatchModel
    decreases evs.len(),
{
    if evs.len() == 0 {
        m
    } else {
        run(step(m, evs[0]), evs.drop_first())
    }
}

/// Results delivered over a run.
pub open spec fn deliveries(m: BatchModel, evs: Seq<BatchEvent>) -> nat
    decreases evs.len(),
{
    if evs.len() == 0 {
        0
    } else {
        (match evs[0] {
            BatchEvent::Completion(f) => if delivers(m, f) {
                1nat
            } else {
                0nat
            },
            BatchEvent::Poll(_) => 0nat,
        }) + deliveries(step(m, evs[0]), evs.drop_first())
    }
}

pub open spec fn completions(evs: Seq<BatchEvent>) -> nat
    decreases evs.len(),
{
    if evs.len() == 0 {
        0
    } else {
        (if evs[0] is Completion {
            1nat
        } else {
            0nat
        }) + completions(evs.drop_first())
    }
}

/// The token is never seen fired during the run.
pub open spec fn never_fired(evs: Seq<BatchEvent>) -> bool {
    forall|i: int|
        0 <= i < evs.len() ==> match #[trigger] evs[i] {
            BatchEvent::Poll(f) => !f,
            BatchEvent::Completion(f) => !f,
        }
}

pub open spec fn initial(total: nat, max_concurrent: nat) -> BatchModel {
    BatchModel { total, max_concurrent, admitted: 0, completed: 0, cancelled: false }
}

/// Each step keeps the counts consistent, and the batch never stalls: when
/// the decision is to wait, a probe is in flight whose completion will come.
pub proof fn lemma_step_wf(m: BatchModel, e: BatchEvent)
    requires
        model_wf(m),
        e is Completion ==> in_flight(m) > 0,
    ensures
        model_wf(step(m, e)),
        decide(m) is Wait ==> in_flight(m) > 0,
{
}

/// A valid run keeps the counts consistent: at most `total` probes are
/// dispatched and at most `max_concurrent` are in flight at once.
pub proof fn lemma_run_wf(m: BatchModel, evs: Seq<BatchEvent>)
    requires
        model_wf(m),
        valid_run(m, evs),
    ensures
        model_wf(run(m, evs)),
        run(m, evs).total == m.total,
        run(m, evs).max_concurrent == m.max_concurrent,
        m.cancelled ==> run(m, evs).cancelled,
    decreases evs.len(),
{
    if evs.len() > 0 {
        lemma_step_wf(m, evs[0]);
        lemma_run_wf(step(m, evs[0]), evs.drop_first());
    }
}

/// Completion accounting: without cancellation, for any batch of `total`
/// nodes and any `max_concurrent` from 1 to `total`, no more than `total`
/// probes are ever dispatched, at most `max_concurrent` at once, and the batch
/// finishes only once all `total` have been dispatched and have finished.
pub proof fn lemma_completion_accounting(total: nat, max_concurrent: nat, evs: Seq<BatchEvent>)
    requires
        1 <= max_concurrent <= total,
        valid_run(initial(total, max_concurrent), evs),
        never_fired(evs),
    ensures
        run(initial(total, max_concurrent), evs).admitted <= total,
        in_flight(run(initial(total, max_concurrent), evs)) <= max_concurrent,
        decide(run(initial(total, max_concurrent), evs)) is Finish ==> run(initial(total, max_concurrent), evs).admitted
            == total && run(initial(total, max_concurrent), evs).completed == total,
{
    lemma_run_never_cancelled(initial(total, max_concurrent), evs);
    lemma_run_wf(initial(total, max_concurrent), evs);
}

proof fn lemma_run_never_cancelled(m: BatchModel, evs: Seq<BatchEvent>)
    requires
        !m.cancelled,
        never_fired(evs),
    ensures
        !run(m, evs).cancelled,
    decreases evs.len(),
{
    if evs.len() > 0 {
        assert(match evs[0] {
            BatchEvent::Poll(f) => !f,
            BatchEvent::Completion(f) => !f,
        });
        let rest = evs.drop_first();
        assert forall|i: int| 0 <= i < rest.len() implies match #[trigger] rest[i] {
            BatchEvent::Poll(f) => !f,
            BatchEvent::Completion(f) => !f,
        } by {
            assert(rest[i] == evs[i + 1]);
        }
        lemma_run_never_cancelled(step(m, evs[0]), rest);
    }
}

/// Cancellation: once the token has been seen fired, no further node is
/// admitted and no result is delivered, and the batch finishes exactly when
/// the probes that were in flight have completed.
pub proof fn lemma_cancellation(m: BatchModel, evs: Seq<BatchEvent>)
    requires
        model_wf(m),
        m.cancelled,
        valid_run(m, evs),
    ensures
        run(m, evs).admitted == m.admitted,
        deliveries(m, evs) == 0,
        completions(evs) <= in_flight(m),
        in_flight(run(m, evs)) == in_flight(m) - completions(evs),
        decide(run(m, evs)) is Finish <==> completions(evs) == in_flight(m),
    decreases evs.len(),
{
    if evs.len() > 0 {
        lemma_step_wf(m, evs[0]);
        lemma_cancellation(step(m, evs[0]), evs.drop_first());
    }
}

/// `n` polls with the token unfired.
pub open spec fn polls(n: nat) -> Seq<BatchEvent> {
    Seq::new(n, |i: int| BatchEvent::Poll(false))
}

proof fn lemma_polls_admit(total: nat, max_concurrent: nat, n: nat)
    requires
        n <= max_concurrent <= total,
    ensures
        valid_run(initial(total, max_concurrent), polls(n)),
        run(initial(total, max_concurrent), polls(n)) == (BatchModel { admitted: n, ..initial(total, max_concurrent) }),
{
    lemma_polls_from(initial(total, max_concurrent), n, 0);
}

proof fn lemma_polls_from(m: BatchModel, n: nat, done: nat)
    requires
        m == (BatchModel { admitted: done, ..initial(m.total, m.max_concurrent) }),
        done + n <= m.max_concurrent <= m.total,
    ensures
        valid_run(m, polls(n)),
        run(m, polls(n)) == (BatchModel { admitted: done + n, ..m }),
    decreases n,
{
    if n > 0 {
        let next = step(m, polls(n)[0]);
        assert(polls(n).drop_first() =~= polls((n - 1) as nat));
        lemma_polls_from(next, (n - 1) as nat, done + 1);
    } else {
        assert(polls(0) =~= Seq::<BatchEvent>::empty());
    }
}

/// Cancellation after exactly `k` admissions: in a batch of `total` nodes
/// with `max_concurrent = k < total`, `k` polls admit nodes `0..k`; when the
/// token then fires before any completion, no later node is ever admitted, no
/// result is delivered, and the batch finishes once those `k` probes have
/// completed.
pub proof fn lemma_cancel_after_k_admissions(total: nat, k: nat, evs: Seq<BatchEvent>)
    requires
        1 <= k < total,
        valid_run(seen(run(initial(total, k), polls(k)), true), evs),
    ensures
        run(initial(total, k), polls(k)).admitted == k,
        run(seen(run(initial(total, k), polls(k)), true), evs).admitted == k,
        deliveries(seen(run(initial(total, k), polls(k)), true), evs) == 0,
        decide(run(seen(run(initial(total, k), polls(k)), true), evs)) is Finish <==> completions(evs) == k,
{
    lemma_polls_admit(total, k, k);
    let m = seen(run(initial(total, k), polls(k)), true);
    lemma_cancellation(m, evs);
}

/// What the coordinator is told to do.
#[derive(Debug, Clone, Copy, PartialEq, Eq, Structural)]
pub enum BatchAction {
    /// Probe the node at `index`; an HTTP probe's helper listens on `port`.
    Start { index: usize, port: Option<u16> },
    /// Wait for a probe in flight to complete.
    Wait,
    /// Every dispatched probe has finished.
    Finished,
}

/// The coordinator of one batch: bounded admission over the nodes in order,
/// cooperative cancellation, and the decision to deliver or discard results.
pub struct BatchScheduler {
    total: usize,
    max_concurrent: usize,
    admitted: usize,
    completed: usize,
    cancelled: bool,
    test_type: TestType,
    ports: PortAllocator,
}

impl View for BatchScheduler {
    type V = BatchModel;

    closed spec fn view(&self) -> BatchModel {
        BatchModel {
            total: self.total as nat,
            max_concurrent: self.max_concurrent as nat,
            admitted: self.admitted as nat,
            completed: self.completed as nat,
            cancelled: self.cancelled,
        }
    }
}

impl BatchScheduler {
    /// The kind of probe the batch runs.
    pub closed spec fn kind(&self) -> TestType {
        self.test_type
    }

    /// The allocator's counter.
    pub closed spec fn port_counter(&self) -> nat {
        self.ports@
    }

    pub closed spec fn wf(&self) -> bool {
        model_wf(self@) && self.ports.wf()
    }

    /// A batch over `total` nodes with at most `max_concurrent` probes in
    /// flight. Resets the port allocator, which the batch then owns.
    pub fn new(total: usize, max_concurrent: usize, test_type: TestType, ports: PortAllocator) -> (r: BatchScheduler)
        requires
            max_concurrent >= 1,
        ensures
            r.wf(),
            r@ == initial(total as nat, max_concurrent as nat),
            r.kind() == test_type,
            r.port_counter() == PORT_FLOOR,
    {
        let mut ports = ports;
        crate::ports::reset_port_counter(&mut ports);
        BatchScheduler { total, max_concurrent, admitted: 0, completed: 0, cancelled: false, test_type, ports }
    }

    /// The next decision, `fired` being the token's state now. Admitting the
    /// next node dispatches it; an HTTP probe gets the next port.
    pub fn next_action(&mut self, fired: bool) -> (r: BatchAction)
        requires
            old(self).wf(),
        ensures
            final(self).wf(),
            final(self)@ == after_poll(old(self)@, fired),
            final(self).kind() == old(self).kind(),
            match decide(seen(old(self)@, fired)) {
                Decision::Admit => match r {
                    BatchAction::Start { index, port } => index == old(self)@.admitted && match old(self).kind() {
                        TestType::Http => port is Some && (port->0 as nat, final(self).port_counter())
                            == alloc_step(old(self).port_counter()),
                        TestType::Tcp => port is None && final(self).port_counter() == old(self).port_counter(),
                    },
                    _ => false,
                },
                Decision::Wait => r is Wait && final(self).port_counter() == old(self).port_counter(),
                Decision::Finish => r is Finished && final(self).port_counter() == old(self).port_counter(),
            },
    {
        if fired {
            self.cancelled = true;
        }
        let in_flight = self.admitted - self.completed;
        if !self.cancelled && self.admitted < self.total && in_flight < self.max_concurrent {
            let index = self.admitted;
            self.admitted = self.admitted + 1;
            let port = match self.test_type {
                TestType::Http => Some(self.ports.next_port()),
                TestType::Tcp => None,
            };
            BatchAction::Start { index, port }
        } else if in_flight > 0 {
            BatchAction::Wait
        } else {
            BatchAction::Finished
        }
    }

    /// A dispatched probe has finished with `status`; `fired` is the token's
    /// state now. Returns the result to deliver, or nothing when the token has
    /// fired and the result is discarded.
    pub fn complete(&mut self, index: usize, status: LatencyStatus, fired: bool) -> (r: Option<LatencyResult>)
        requires
            old(self).wf(),
            in_flight(old(self)@) > 0,
            index < old(self)@.admitted,
            !(status is NotTested),
        ensures
            final(self).wf(),
            final(self)@ == after_completion(old(self)@, fired),
            final(self).kind() == old(self).kind(),
            final(self).port_counter() == old(self).port_counter(),
            r == if delivers(old(self)@, fired) {
                Some(LatencyResult { index, latency: status, test_type: old(self).kind() })
            } else {
                None
            },
    {
        if fired {
            self.cancelled = true;
        }
        self.completed = self.completed + 1;
        if self.cancelled {
            None
        } else {
            Some(LatencyResult { index, latency: status, test_type: self.test_type })
        }
    }

    /// Probes in flight.
    pub fn in_flight(&self) -> (r: usize)
        requires
            self.wf(),
        ensures
            r == in_flight(self@),
    {
        self.admitted - self.completed
    }

    /// Probes dispatched so far.
    pub fn dispatched(&self) -> (r: usize)
        ensures
            r == self@.admitted,
    {
        self.admitted
    }

    /// Hands the port allocator back when the batch is over.
    pub fn into_ports(self) -> (r: PortAllocator)
        requires
            self.wf(),
        ensures
            r.wf(),
            r@ == self.port_counter(),
    {
        self.ports
    }
}

} // verus!
