use subman::{
    classify_http, classify_tcp, probe_config_path, probe_proxy_url, tcp_target, FieldValue, HttpProbe,
    LatencyStatus, ProbeEvent, ProbeStage, ProbeStep, VmessNode, READY_ATTEMPTS,
};

#[test]
fn http_status_classification() {
    assert_eq!(classify_http(Some(204), 120), LatencyStatus::Success(120));
    assert_eq!(classify_http(Some(200), 7), LatencyStatus::Success(7));
    assert_eq!(classify_http(Some(299), 7), LatencyStatus::Success(7));
    assert_eq!(classify_http(Some(301), 7), LatencyStatus::TimedOut);
    assert_eq!(classify_http(Some(500), 7), LatencyStatus::TimedOut);
    assert_eq!(classify_http(None, 5000), LatencyStatus::TimedOut);
}

#[test]
fn tcp_classification() {
    assert_eq!(classify_tcp(true, 33), LatencyStatus::Success(33));
    assert_eq!(classify_tcp(false, 5000), LatencyStatus::TimedOut);
}

#[test]
fn probe_addresses() {
    assert_eq!(probe_config_path(10800), "/tmp/xray_test_10800.json");
    assert_eq!(probe_proxy_url(10801), "socks5://127.0.0.1:10801");
    let n = VmessNode { add: "example.com".to_string(), port: FieldValue::Text("8443".to_string()), ..VmessNode::default() };
    assert_eq!(tcp_target(&n), "example.com:8443");
}

#[test]
fn http_probe_success_path_releases_before_report() {
    let (mut p, step) = HttpProbe::start();
    assert_eq!(step, ProbeStep::WriteConfig);
    assert_eq!(p.on_event(ProbeEvent::ConfigWritten(true)), ProbeStep::SpawnHelper);
    assert_eq!(p.on_event(ProbeEvent::HelperSpawned(true)), ProbeStep::CheckPort);
    assert_eq!(p.on_event(ProbeEvent::PortChecked(false)), ProbeStep::Sleep(100));
    assert_eq!(p.on_event(ProbeEvent::Slept), ProbeStep::CheckPort);
    assert_eq!(p.on_event(ProbeEvent::PortChecked(true)), ProbeStep::SendRequest);
    assert_eq!(p.on_event(ProbeEvent::Responded(Some(204), 88)), ProbeStep::Release);
    assert_eq!(p.on_event(ProbeEvent::Released), ProbeStep::Report(LatencyStatus::Success(88)));
    assert_eq!(p.stage, ProbeStage::Done);
}

#[test]
fn http_probe_gives_up_after_ready_attempts() {
    let (mut p, _) = HttpProbe::start();
    p.on_event(ProbeEvent::ConfigWritten(true));
    p.on_event(ProbeEvent::HelperSpawned(true));
    for _ in 0..READY_ATTEMPTS - 1 {
        assert_eq!(p.on_event(ProbeEvent::PortChecked(false)), ProbeStep::Sleep(100));
        assert_eq!(p.on_event(ProbeEvent::Slept), ProbeStep::CheckPort);
    }
    assert_eq!(p.on_event(ProbeEvent::PortChecked(false)), ProbeStep::Release);
    assert_eq!(p.on_event(ProbeEvent::Released), ProbeStep::Report(LatencyStatus::TimedOut));
}

#[test]
fn http_probe_failures_time_out() {
    let (mut p, _) = HttpProbe::start();
    assert_eq!(p.on_event(ProbeEvent::ConfigWritten(false)), ProbeStep::Report(LatencyStatus::TimedOut));
    let (mut p, _) = HttpProbe::start();
    p.on_event(ProbeEvent::ConfigWritten(true));
    assert_eq!(p.on_event(ProbeEvent::HelperSpawned(false)), ProbeStep::Release);
    assert_eq!(p.on_event(ProbeEvent::Released), ProbeStep::Report(LatencyStatus::TimedOut));
    let (mut p, _) = HttpProbe::start();
    p.on_event(ProbeEvent::ConfigWritten(true));
    p.on_event(ProbeEvent::HelperSpawned(true));
    p.on_event(ProbeEvent::PortChecked(true));
    assert_eq!(p.on_event(ProbeEvent::Responded(Some(403), 20)), ProbeStep::Release);
    assert_eq!(p.on_event(ProbeEvent::Released), ProbeStep::Report(LatencyStatus::TimedOut));
}
