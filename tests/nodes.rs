use subman::{
    display_width, find_active_node_index, first_pid, pad_string, restart_step, ActiveNodeInfo, Config,
    FieldValue, LatencyStatus, RestartError, RestartResult, RestartStep, SavedNode, VmessNode,
};

fn node_with_port(port: FieldValue) -> VmessNode {
    VmessNode { add: "host".to_string(), port, ..VmessNode::default() }
}

#[test]
fn port_field_forms() {
    assert_eq!(node_with_port(FieldValue::UInt(8443)).get_port(), 8443);
    assert_eq!(node_with_port(FieldValue::UInt(65536 + 80)).get_port(), 80);
    assert_eq!(node_with_port(FieldValue::Text("443".to_string())).get_port(), 443);
    assert_eq!(node_with_port(FieldValue::Text("+8080".to_string())).get_port(), 8080);
    assert_eq!(node_with_port(FieldValue::Text("0080".to_string())).get_port(), 80);
    assert_eq!(node_with_port(FieldValue::Text("70000".to_string())).get_port(), 443);
    assert_eq!(node_with_port(FieldValue::Text("80a".to_string())).get_port(), 443);
    assert_eq!(node_with_port(FieldValue::Text("".to_string())).get_port(), 443);
    assert_eq!(node_with_port(FieldValue::Text("+".to_string())).get_port(), 443);
    assert_eq!(node_with_port(FieldValue::Text("-1".to_string())).get_port(), 443);
    assert_eq!(node_with_port(FieldValue::Other).get_port(), 443);
}

#[test]
fn aid_field_forms() {
    let mut n = VmessNode::default();
    assert_eq!(n.get_aid(), 0);
    n.aid = FieldValue::UInt(64);
    assert_eq!(n.get_aid(), 64);
    n.aid = FieldValue::Text("4294967295".to_string());
    assert_eq!(n.get_aid(), 4294967295);
    n.aid = FieldValue::Text("4294967296".to_string());
    assert_eq!(n.get_aid(), 0);
    n.aid = FieldValue::UInt(4294967296 + 2);
    assert_eq!(n.get_aid(), 2);
}

#[test]
fn display_name_falls_back_to_address() {
    let mut n = node_with_port(FieldValue::UInt(0));
    assert_eq!(n.display_name(), "host:0");
    n.port = FieldValue::UInt(65535);
    assert_eq!(n.display_name(), "host:65535");
    n.ps = "香港 01".to_string();
    assert_eq!(n.display_name(), "香港 01");
}

#[test]
fn status_is_tested() {
    assert!(!LatencyStatus::NotTested.is_tested());
    assert!(LatencyStatus::TimedOut.is_tested());
    assert!(LatencyStatus::Success(0).is_tested());
    assert_eq!(subman::latency_sort_key(&LatencyStatus::Success(9)), (0, 9));
    assert_eq!(subman::latency_sort_key(&LatencyStatus::TimedOut), (1, 0));
    assert_eq!(subman::latency_sort_key(&LatencyStatus::NotTested), (2, 0));
}

#[test]
fn active_node_lookup() {
    let a = VmessNode { add: "a".to_string(), id: "u".to_string(), port: FieldValue::UInt(1), ..VmessNode::default() };
    let b = VmessNode { add: "b".to_string(), id: "u".to_string(), port: FieldValue::Text("2".to_string()), ..VmessNode::default() };
    let nodes = vec![a.clone(), b.clone(), b];
    let active = ActiveNodeInfo { address: "b".to_string(), port: 2, user_id: "u".to_string() };
    assert_eq!(find_active_node_index(&nodes, &active), Some(1));
    let other = ActiveNodeInfo { address: "b".to_string(), port: 3, user_id: "u".to_string() };
    assert_eq!(find_active_node_index(&nodes, &other), None);
}

#[test]
fn saved_node_round_trip() {
    let mut n = VmessNode { ps: "x".to_string(), ..VmessNode::default() };
    n.http_latency = LatencyStatus::Success(17);
    n.tcp_latency = LatencyStatus::TimedOut;
    let s = SavedNode::from(&n);
    assert_eq!((s.http_latency, s.http_timed_out), (Some(17), false));
    assert_eq!((s.tcp_latency, s.tcp_timed_out), (None, true));
    let back = VmessNode::from(s);
    assert_eq!(back.http_latency, LatencyStatus::Success(17));
    assert_eq!(back.tcp_latency, LatencyStatus::TimedOut);
    assert_eq!(back.ps, "x");

    let mut config = Config::empty();
    config.update_nodes(&[n.clone(), VmessNode::default()]);
    let nodes = config.to_vmess_nodes();
    assert_eq!(nodes.len(), 2);
    assert_eq!(nodes[1].tcp_latency, LatencyStatus::NotTested);
}

#[test]
fn restart_decisions() {
    assert_eq!(restart_step(10, 0, Some(11)), RestartStep::Restarted(RestartResult { old_pid: 10, new_pid: 11 }));
    assert_eq!(restart_step(10, 0, Some(10)), RestartStep::Retry);
    assert_eq!(restart_step(10, 5, Some(10)), RestartStep::Failed(RestartError::PidUnchanged(10)));
    assert_eq!(restart_step(10, 2, None), RestartStep::Retry);
    assert_eq!(restart_step(10, 5, None), RestartStep::Failed(RestartError::Disappeared(10)));
}

#[test]
fn pid_listing() {
    assert_eq!(first_pid("1234\n5678\n"), Some(1234));
    assert_eq!(first_pid("  42 \r\n"), Some(42));
    assert_eq!(first_pid(""), None);
    assert_eq!(first_pid("abc\n1\n"), None);
}

#[test]
fn widths_and_padding() {
    assert_eq!(display_width("abc"), 3);
    assert_eq!(display_width("香港"), 4);
    assert_eq!(pad_string("ab", 5), "ab   ");
    assert_eq!(pad_string("香港", 5), "香港 ");
    assert_eq!(pad_string("abcdef", 3), "abcdef");
}
