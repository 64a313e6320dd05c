use subman::{
    App, BatchAction, BatchScheduler, Config, FieldValue, LatencyStatus, PortAllocator, SortColumn,
    TestType, VmessNode,
};

fn node(name: &str) -> VmessNode {
    VmessNode { ps: name.to_string(), add: format!("{name}.test"), port: FieldValue::UInt(443), ..VmessNode::default() }
}

/// Runs a batch to the end: admits while it may, then completes the oldest probe
/// in flight with `outcome(index)`. Returns (dispatched, delivered indices, most in flight).
fn drive(total: usize, k: usize, outcome: impl Fn(usize) -> LatencyStatus) -> (Vec<usize>, Vec<usize>, usize) {
    let mut s = BatchScheduler::new(total, k, TestType::Tcp, PortAllocator::new());
    let mut in_flight: Vec<usize> = Vec::new();
    let mut dispatched = Vec::new();
    let mut delivered = Vec::new();
    let mut peak = 0;
    loop {
        match s.next_action(false) {
            BatchAction::Start { index, port } => {
                assert_eq!(port, None);
                dispatched.push(index);
                in_flight.push(index);
                peak = peak.max(in_flight.len());
            }
            BatchAction::Wait => {
                let index = in_flight.remove(0);
                if let Some(r) = s.complete(index, outcome(index), false) {
                    delivered.push(r.index);
                }
            }
            BatchAction::Finished => break,
        }
    }
    assert!(in_flight.is_empty());
    (dispatched, delivered, peak)
}

#[test]
fn every_node_is_probed_once() {
    for total in 1..8usize {
        for k in 1..=total {
            let (dispatched, delivered, peak) = drive(total, k, |i| LatencyStatus::Success(i as u64));
            assert_eq!(dispatched, (0..total).collect::<Vec<_>>());
            assert_eq!(delivered.len(), total);
            assert!(peak <= k);
            assert_eq!(peak, k);
        }
    }
}

#[test]
fn cancellation_after_k_admissions_delivers_nothing() {
    let (total, k) = (5usize, 2usize);
    let mut s = BatchScheduler::new(total, k, TestType::Tcp, PortAllocator::new());
    assert_eq!(s.next_action(false), BatchAction::Start { index: 0, port: None });
    assert_eq!(s.next_action(false), BatchAction::Start { index: 1, port: None });
    assert_eq!(s.next_action(false), BatchAction::Wait);
    // the token fires before any probe completes
    assert_eq!(s.next_action(true), BatchAction::Wait);
    assert_eq!(s.complete(0, LatencyStatus::Success(3), true), None);
    assert_eq!(s.next_action(true), BatchAction::Wait);
    assert_eq!(s.complete(1, LatencyStatus::TimedOut, true), None);
    assert_eq!(s.next_action(true), BatchAction::Finished);
    assert_eq!(s.dispatched(), 2);
    assert_eq!(s.in_flight(), 0);
}

#[test]
fn result_completed_after_firing_is_discarded() {
    let mut s = BatchScheduler::new(3, 3, TestType::Tcp, PortAllocator::new());
    assert!(matches!(s.next_action(false), BatchAction::Start { index: 0, .. }));
    let r = s.complete(0, LatencyStatus::Success(10), false).unwrap();
    assert_eq!((r.index, r.latency, r.test_type), (0, LatencyStatus::Success(10), TestType::Tcp));
    assert!(matches!(s.next_action(false), BatchAction::Start { index: 1, .. }));
    assert_eq!(s.complete(1, LatencyStatus::Success(11), true), None);
    assert_eq!(s.next_action(false), BatchAction::Finished);
}

#[test]
fn http_batches_allocate_ports_from_floor() {
    let mut ports = PortAllocator::new();
    ports.next_port();
    ports.next_port();
    let mut s = BatchScheduler::new(2, 2, TestType::Http, ports);
    assert_eq!(s.next_action(false), BatchAction::Start { index: 0, port: Some(10800) });
    assert_eq!(s.next_action(false), BatchAction::Start { index: 1, port: Some(10801) });
    assert_eq!(s.next_action(false), BatchAction::Wait);
    let mut ports = s.into_ports();
    assert_eq!(ports.next_port(), 10802);
}

#[test]
fn empty_batch_finishes_at_once() {
    let mut s = BatchScheduler::new(0, 4, TestType::Tcp, PortAllocator::new());
    assert_eq!(s.next_action(false), BatchAction::Finished);
}

#[test]
fn end_to_end_three_nodes_two_at_a_time() {
    let mut app = App::new(2, "/tmp/none".to_string(), Config::empty(), None);
    app.set_nodes(vec![node("n0"), node("n1"), node("n2")], None);
    app.cycle_sort();
    assert_eq!(app.sort_column, SortColumn::Tcp);
    let nodes = app.start_test(TestType::Tcp).unwrap();
    assert_eq!(nodes.len(), 3);

    // node 0 connects at once, node 1 times out, node 2 connects after a delay
    let latency = |i: usize| match i {
        0 => LatencyStatus::Success(1),
        1 => LatencyStatus::TimedOut,
        _ => LatencyStatus::Success(250),
    };
    let mut s = BatchScheduler::new(nodes.len(), app.parallel_count, TestType::Tcp, PortAllocator::new());
    let mut in_flight: Vec<usize> = Vec::new();
    let mut delivered = 0;
    let mut done = false;
    loop {
        match s.next_action(false) {
            BatchAction::Start { index, .. } => in_flight.push(index),
            BatchAction::Wait => {
                // the fastest probe in flight finishes first: 0, then 2, then 1
                let pos = in_flight
                    .iter()
                    .position(|&i| i == 0)
                    .or_else(|| in_flight.iter().position(|&i| i == 2))
                    .unwrap_or(0);
                let index = in_flight.remove(pos);
                if let Some(r) = s.complete(index, latency(index), false) {
                    delivered += 1;
                    done = app.receive_result(r);
                }
            }
            BatchAction::Finished => break,
        }
    }
    assert_eq!(delivered, 3);
    assert!(done);
    assert_eq!(app.tested_count(TestType::Tcp), 3);
    assert!(!app.testing);
    let order: Vec<usize> = app.sorted_nodes.iter().map(|r| r.original_index).collect();
    assert_eq!(order, vec![0, 2, 1]);
}
