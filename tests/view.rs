use subman::{
    apply_sort_to_nodes, ActiveNodeInfo, App, Config, FieldValue, IndexedNode, LatencyResult,
    LatencyStatus, SortColumn, SortDirection, TestType, VmessNode,
};

fn node(name: &str, add: &str, port: u64) -> VmessNode {
    VmessNode {
        ps: name.to_string(),
        add: add.to_string(),
        port: FieldValue::UInt(port),
        id: format!("id-{add}"),
        ..VmessNode::default()
    }
}

fn app_with(nodes: Vec<VmessNode>) -> App {
    let mut app = App::new(10, "/tmp/none.json".to_string(), Config::empty(), None);
    app.set_nodes(nodes, None);
    app
}

fn row(status: LatencyStatus, index: usize) -> IndexedNode {
    let mut n = node(&format!("n{index}"), "h", 1);
    n.tcp_latency = status;
    IndexedNode { node: n, original_index: index }
}

#[test]
fn applying_a_result_changes_only_that_latency() {
    let mut app = app_with(vec![node("a", "a.com", 1), node("b", "b.com", 2), node("c", "c.com", 3)]);
    app.sort_column = SortColumn::Name;
    app.sort_direction = SortDirection::Descending;
    app.resort();
    app.update_latency(LatencyResult { index: 1, latency: LatencyStatus::Success(42), test_type: TestType::Tcp });
    assert_eq!(app.nodes[1].tcp_latency, LatencyStatus::Success(42));
    assert_eq!(app.nodes[1].http_latency, LatencyStatus::NotTested);
    assert_eq!(app.nodes[0].tcp_latency, LatencyStatus::NotTested);
    assert_eq!(app.nodes[2].tcp_latency, LatencyStatus::NotTested);
    for r in &app.sorted_nodes {
        if r.original_index == 1 {
            assert_eq!(r.node.tcp_latency, LatencyStatus::Success(42));
            assert_eq!(r.node.http_latency, LatencyStatus::NotTested);
        } else {
            assert_eq!(r.node.tcp_latency, LatencyStatus::NotTested);
        }
    }
}

#[test]
fn result_for_missing_node_is_dropped() {
    let mut app = app_with(vec![node("a", "a.com", 1)]);
    app.update_latency(LatencyResult { index: 5, latency: LatencyStatus::TimedOut, test_type: TestType::Http });
    assert_eq!(app.nodes.len(), 1);
    assert_eq!(app.nodes[0].http_latency, LatencyStatus::NotTested);
    assert_eq!(app.sorted_nodes[0].node.http_latency, LatencyStatus::NotTested);
}

#[test]
fn latency_sort_ascending() {
    let mut rows = vec![
        row(LatencyStatus::Success(50), 0),
        row(LatencyStatus::Success(10), 1),
        row(LatencyStatus::TimedOut, 2),
        row(LatencyStatus::NotTested, 3),
    ];
    apply_sort_to_nodes(&mut rows, SortColumn::Tcp, SortDirection::Ascending);
    let got: Vec<LatencyStatus> = rows.iter().map(|r| r.node.tcp_latency).collect();
    assert_eq!(
        got,
        vec![LatencyStatus::Success(10), LatencyStatus::Success(50), LatencyStatus::TimedOut, LatencyStatus::NotTested]
    );
}

#[test]
fn latency_sort_descending_reverses_everything() {
    let mut rows = vec![
        row(LatencyStatus::TimedOut, 0),
        row(LatencyStatus::Success(10), 1),
        row(LatencyStatus::NotTested, 2),
        row(LatencyStatus::Success(50), 3),
    ];
    apply_sort_to_nodes(&mut rows, SortColumn::Tcp, SortDirection::Descending);
    let got: Vec<usize> = rows.iter().map(|r| r.original_index).collect();
    assert_eq!(got, vec![2, 0, 3, 1]);
}

#[test]
fn sort_keeps_ties_in_place() {
    let mut rows = vec![
        row(LatencyStatus::TimedOut, 3),
        row(LatencyStatus::Success(7), 0),
        row(LatencyStatus::TimedOut, 1),
        row(LatencyStatus::Success(7), 2),
    ];
    apply_sort_to_nodes(&mut rows, SortColumn::Tcp, SortDirection::Ascending);
    let got: Vec<usize> = rows.iter().map(|r| r.original_index).collect();
    assert_eq!(got, vec![0, 2, 3, 1]);
    apply_sort_to_nodes(&mut rows, SortColumn::Canonical, SortDirection::Descending);
    let got: Vec<usize> = rows.iter().map(|r| r.original_index).collect();
    assert_eq!(got, vec![0, 1, 2, 3]);
}

#[test]
fn name_sort_uses_label_or_address() {
    let mut rows = vec![
        IndexedNode { node: node("", "zeta.com", 443), original_index: 0 },
        IndexedNode { node: node("beta", "x", 1), original_index: 1 },
        IndexedNode { node: node("Alpha", "y", 1), original_index: 2 },
    ];
    apply_sort_to_nodes(&mut rows, SortColumn::Name, SortDirection::Ascending);
    let got: Vec<usize> = rows.iter().map(|r| r.original_index).collect();
    assert_eq!(got, vec![2, 1, 0]);
    assert_eq!(rows[2].node.display_name(), "zeta.com:443");
}

#[test]
fn sort_column_cycle_and_names() {
    assert_eq!(SortColumn::Canonical.next(), SortColumn::Tcp);
    assert_eq!(SortColumn::Tcp.next(), SortColumn::Http);
    assert_eq!(SortColumn::Http.next(), SortColumn::Name);
    assert_eq!(SortColumn::Name.next(), SortColumn::Canonical);
    assert_eq!(SortColumn::Name.to_str(), Some("name"));
    assert_eq!(SortColumn::Canonical.to_str(), None);
    assert_eq!(SortColumn::from_str(Some("http")), SortColumn::Http);
    assert_eq!(SortColumn::from_str(Some("bogus")), SortColumn::Canonical);
    assert_eq!(SortColumn::from_str(None), SortColumn::Canonical);
    assert_eq!(SortDirection::Ascending.toggle(), SortDirection::Descending);
    assert_eq!(SortDirection::Descending.to_str(), "desc");
    assert_eq!(SortDirection::from_str(Some("desc")), SortDirection::Descending);
    assert_eq!(SortDirection::from_str(Some("asc")), SortDirection::Ascending);
}

#[test]
fn toggle_without_column_sorts_tcp_descending() {
    let mut app = app_with(vec![node("a", "a", 1), node("b", "b", 2)]);
    app.update_latency(LatencyResult { index: 0, latency: LatencyStatus::Success(5), test_type: TestType::Tcp });
    app.update_latency(LatencyResult { index: 1, latency: LatencyStatus::Success(9), test_type: TestType::Tcp });
    app.toggle_sort_direction();
    assert_eq!(app.sort_column, SortColumn::Tcp);
    assert_eq!(app.sort_direction, SortDirection::Descending);
    assert_eq!(app.sorted_nodes[0].original_index, 1);
    app.cycle_sort();
    assert_eq!(app.sort_column, SortColumn::Http);
    assert_eq!(app.sort_direction, SortDirection::Ascending);
}

#[test]
fn selection_moves_within_view() {
    let mut app = app_with(vec![node("a", "a", 1), node("b", "b", 2)]);
    assert_eq!(app.selected, 0);
    app.select_previous();
    assert_eq!(app.selected, 0);
    app.select_next();
    assert_eq!(app.selected, 1);
    app.select_next();
    assert_eq!(app.selected, 1);
    assert_eq!(app.selected_original_index(), Some(1));
    assert_eq!(app.selected_node().map(|n| n.ps.clone()), Some("b".to_string()));
    app.clear_nodes();
    assert_eq!(app.selected_node().map(|n| n.ps.clone()), None);
}

#[test]
fn set_nodes_selects_active_node() {
    let mut app = App::new(4, "/tmp/x".to_string(), Config::empty(), None);
    let active = ActiveNodeInfo { address: "b".to_string(), port: 2, user_id: "id-b".to_string() };
    app.sort_column = SortColumn::Name;
    app.sort_direction = SortDirection::Descending;
    app.set_nodes(vec![node("a", "a", 1), node("b", "b", 2), node("c", "c", 3)], Some(active));
    assert_eq!(app.active_node_index, Some(1));
    assert_eq!(app.sorted_nodes[app.selected].original_index, 1);
    assert_eq!(app.selected, 1);
}

#[test]
fn start_and_cancel_test() {
    let mut app = app_with(vec![node("a", "a", 1)]);
    app.update_latency(LatencyResult { index: 0, latency: LatencyStatus::Success(3), test_type: TestType::Tcp });
    let nodes = app.start_test(TestType::Tcp).unwrap();
    assert_eq!(nodes.len(), 1);
    assert_eq!(nodes[0].tcp_latency, LatencyStatus::NotTested);
    assert!(app.testing);
    assert_eq!(app.status, "Starting TCP latency test...");
    assert!(app.start_test(TestType::Http).is_none());
    assert!(app.cancel_test());
    assert!(!app.testing);
    assert_eq!(app.status, "Latency test cancelled");
    assert!(!app.cancel_test());
}

#[test]
fn empty_app_does_not_start_test() {
    let mut app = app_with(vec![]);
    assert!(app.start_test(TestType::Tcp).is_none());
    assert!(!app.testing);
}

#[test]
fn progress_and_completion_status() {
    let mut app = app_with(vec![node("a", "a", 1), node("b", "b", 2)]);
    app.start_test(TestType::Http).unwrap();
    let done = app.receive_result(LatencyResult { index: 1, latency: LatencyStatus::TimedOut, test_type: TestType::Http });
    assert!(!done);
    assert_eq!(app.status, "Testing HTTP latency... (1/2)");
    assert_eq!(app.tested_count(TestType::Http), 1);
    let done = app.receive_result(LatencyResult { index: 0, latency: LatencyStatus::Success(12), test_type: TestType::Http });
    assert!(done);
    assert!(!app.testing);
    assert_eq!(app.current_test_type, None);
    assert_eq!(app.status, "HTTP latency test completed");
}

#[test]
fn input_mode_trims_and_saves_url() {
    let mut app = app_with(vec![]);
    app.enter_input_mode();
    assert!(app.input_mode);
    assert_eq!(app.input_buffer, "");
    app.input_buffer = "  https://example.com/sub \n".to_string();
    assert!(app.confirm_input());
    assert_eq!(app.subscribe_url.as_deref(), Some("https://example.com/sub"));
    assert_eq!(app.status, "URL saved. Press R to refresh subscription.");
    assert!(!app.input_mode);
    app.enter_input_mode();
    assert_eq!(app.input_buffer, "https://example.com/sub");
    app.input_buffer = "   ".to_string();
    assert!(!app.confirm_input());
    assert_eq!(app.subscribe_url.as_deref(), Some("https://example.com/sub"));
    app.enter_input_mode();
    app.exit_input_mode();
    assert!(!app.input_mode);
    assert_eq!(app.input_buffer, "");
}

#[test]
fn settings_round_trip_through_config() {
    let mut app = app_with(vec![node("a", "a", 1), node("b", "b", 2)]);
    app.subscribe_url = Some("https://sub.example".to_string());
    app.update_latency(LatencyResult { index: 0, latency: LatencyStatus::TimedOut, test_type: TestType::Tcp });
    app.update_latency(LatencyResult { index: 1, latency: LatencyStatus::Success(8), test_type: TestType::Http });
    app.sort_column = SortColumn::Http;
    app.sort_direction = SortDirection::Descending;
    let mut config = Config::empty();
    app.store_settings(&mut config);
    assert_eq!(config.sort_column.as_deref(), Some("http"));
    assert_eq!(config.sort_direction.as_deref(), Some("desc"));
    assert_eq!(config.nodes[0].tcp_latency, None);
    assert!(config.nodes[0].tcp_timed_out);
    assert_eq!(config.nodes[1].http_latency, Some(8));
    assert!(!config.nodes[1].http_timed_out);

    let active = ActiveNodeInfo { address: "a".to_string(), port: 1, user_id: "id-a".to_string() };
    let restored = App::new(3, "/tmp/y".to_string(), config, Some(active));
    assert_eq!(restored.status, "Loaded 2 nodes. Press R to refresh, t/T to test.");
    assert_eq!(restored.sort_column, SortColumn::Http);
    assert_eq!(restored.sort_direction, SortDirection::Descending);
    assert_eq!(restored.nodes[0].tcp_latency, LatencyStatus::TimedOut);
    assert_eq!(restored.nodes[1].http_latency, LatencyStatus::Success(8));
    assert_eq!(restored.active_node_index, Some(0));
    assert_eq!(restored.sorted_nodes[restored.selected].original_index, 0);
    let order: Vec<usize> = restored.sorted_nodes.iter().map(|r| r.original_index).collect();
    assert_eq!(order, vec![0, 1]);

    app.sort_column = SortColumn::Canonical;
    let mut config = Config::empty();
    app.store_sort_settings(&mut config);
    assert_eq!(config.sort_column, None);
    assert_eq!(config.sort_direction, None);
}

#[test]
fn welcome_status_without_url() {
    let app = App::new(1, "/tmp/z".to_string(), Config::empty(), None);
    assert_eq!(app.status, "Press U to set subscription URL");
    let mut config = Config::empty();
    config.subscribe_url = Some("u".to_string());
    let app = App::new(1, "/tmp/z".to_string(), config, None);
    assert_eq!(app.status, "Press R to refresh subscription");
}

#[test]
fn clearing_latencies_resets_both_lists() {
    let mut app = app_with(vec![node("a", "a", 1)]);
    app.update_latency(LatencyResult { index: 0, latency: LatencyStatus::Success(1), test_type: TestType::Http });
    app.update_latency(LatencyResult { index: 0, latency: LatencyStatus::Success(2), test_type: TestType::Tcp });
    app.clear_http_latencies();
    assert_eq!(app.nodes[0].http_latency, LatencyStatus::NotTested);
    assert_eq!(app.sorted_nodes[0].node.http_latency, LatencyStatus::NotTested);
    assert_eq!(app.nodes[0].tcp_latency, LatencyStatus::Success(2));
    app.clear_tcp_latencies();
    assert_eq!(app.sorted_nodes[0].node.tcp_latency, LatencyStatus::NotTested);
}
