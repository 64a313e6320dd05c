use base64::engine::general_purpose;
use base64::Engine;
use subman::{
    decode_base64_lenient, decode_base64_text, decode_link_payload, generate_config, subscription_links,
    FieldValue, LatencyStatus, LinkError, VmessNode,
};

#[test]
fn test_parse_vmess_link() {
    let json = r#"{"v":"2","ps":"Test Node","add":"example.com","port":"443","id":"uuid-here","aid":"0","net":"ws","type":"none","host":"","path":"/path","tls":"tls"}"#;
    let encoded = general_purpose::STANDARD.encode(json);
    let link = format!("vmess://{}", encoded);

    let payload = decode_link_payload(&link).unwrap();
    let v: serde_json::Value = serde_json::from_str(&payload).unwrap();
    assert_eq!(v["ps"], "Test Node");
    assert_eq!(v["add"], "example.com");
    let node = VmessNode { port: FieldValue::Text(v["port"].as_str().unwrap().to_string()), ..VmessNode::default() };
    assert_eq!(node.get_port(), 443);
}

#[test]
fn test_parse_subscription_content() {
    let node1_json = r#"{"ps":"Node1","add":"n1.test.com","port":443,"id":"uuid1","aid":0,"net":"tcp","type":"none","host":"","path":"","tls":"tls"}"#;
    let node2_json = r#"{"ps":"Node2","add":"n2.test.com","port":8443,"id":"uuid2","aid":0,"net":"ws","type":"none","host":"","path":"/ws","tls":"tls"}"#;

    let link1 = format!("vmess://{}", general_purpose::STANDARD.encode(node1_json));
    let link2 = format!("vmess://{}", general_purpose::STANDARD.encode(node2_json));

    let content = format!("{}\n{}", link1, link2);
    let encoded = general_purpose::STANDARD.encode(&content);

    let links = subscription_links(&encoded).unwrap();
    assert_eq!(links.len(), 2);
    let names: Vec<String> = links
        .iter()
        .map(|l| {
            let v: serde_json::Value = serde_json::from_str(&decode_link_payload(l).unwrap()).unwrap();
            v["ps"].as_str().unwrap().to_string()
        })
        .collect();
    assert_eq!(names[0], "Node1");
    assert_eq!(names[1], "Node2");
}

#[test]
fn link_errors() {
    assert_eq!(decode_link_payload("http://abc"), Err(LinkError::MissingScheme));
    assert_eq!(decode_link_payload("vmess://***"), Err(LinkError::Base64));
    let not_utf8 = general_purpose::STANDARD.encode([0xffu8, 0xfe]);
    assert_eq!(decode_link_payload(&format!("vmess://{not_utf8}")), Err(LinkError::Utf8));
    assert_eq!(decode_link_payload("  vmess://aGk=  \n"), Ok("hi".to_string()));
}

#[test]
fn lenient_base64_variants() {
    assert_eq!(decode_base64_lenient("aGk="), Some(b"hi".to_vec()));
    assert_eq!(decode_base64_lenient("aGk"), Some(b"hi".to_vec()));
    assert_eq!(decode_base64_lenient("-_8="), Some(vec![0xfb, 0xff]));
    assert_eq!(decode_base64_lenient("-_8"), Some(vec![0xfb, 0xff]));
    assert_eq!(decode_base64_lenient("+/8="), Some(vec![0xfb, 0xff]));
    assert_eq!(decode_base64_lenient("!!"), None);
    assert_eq!(decode_base64_text("aGk="), Ok("hi".to_string()));
}

#[test]
fn subscription_skips_other_lines() {
    let body = "\r\n  vmess://abc  \r\nss://xyz\n\nvmess://def\n";
    let encoded = format!("  {}\n", general_purpose::STANDARD.encode(body));
    let links = subscription_links(&encoded).unwrap();
    assert_eq!(links, vec!["vmess://abc".to_string(), "vmess://def".to_string()]);
    assert_eq!(subscription_links("%%%"), Err(LinkError::Base64));
    assert_eq!(subscription_links(&general_purpose::STANDARD.encode("nothing here")), Ok(vec![]));
}

#[test]
fn test_generate_config() {
    let node = VmessNode {
        v: "2".to_string(),
        ps: "Test".to_string(),
        add: "test.com".to_string(),
        port: FieldValue::UInt(443),
        id: "test-uuid".to_string(),
        aid: FieldValue::UInt(0),
        net: "ws".to_string(),
        type_field: "none".to_string(),
        host: "cdn.test.com".to_string(),
        path: "/ws".to_string(),
        tls: "tls".to_string(),
        sni: "".to_string(),
        alpn: "".to_string(),
        fp: "".to_string(),
        http_latency: LatencyStatus::NotTested,
        tcp_latency: LatencyStatus::NotTested,
    };

    let config = generate_config(&node, 1080);
    assert!(config.socks_port == 1080);
    assert!(config.outbound_protocol() == "vmess");
}

#[test]
fn config_transport_rules() {
    let ws = VmessNode {
        add: "a.com".to_string(),
        port: FieldValue::Text("8443".to_string()),
        id: "u".to_string(),
        aid: FieldValue::Text("2".to_string()),
        net: "ws".to_string(),
        host: "cdn.a.com".to_string(),
        tls: "tls".to_string(),
        alpn: "h2,http/1.1".to_string(),
        fp: "chrome".to_string(),
        ..VmessNode::default()
    };
    let c = generate_config(&ws, 10805);
    assert_eq!((c.port, c.alter_id, c.address.as_str(), c.user_id.as_str()), (8443, 2, "a.com", "u"));
    assert_eq!(c.stream.network, "ws");
    let w = c.stream.ws.as_ref().unwrap();
    assert_eq!(w.path, None);
    assert_eq!(w.host.as_deref(), Some("cdn.a.com"));
    assert!(c.stream.tcp_http.is_none());
    let t = c.stream.tls.as_ref().unwrap();
    assert_eq!(t.server_name.as_deref(), Some("cdn.a.com"));
    assert_eq!(t.alpn.clone().unwrap(), vec!["h2".to_string(), "http/1.1".to_string()]);
    assert_eq!(t.fingerprint.as_deref(), Some("chrome"));

    let tcp = VmessNode {
        add: "b.com".to_string(),
        net: "tcp".to_string(),
        type_field: "http".to_string(),
        sni: "s.b.com".to_string(),
        ..VmessNode::default()
    };
    let c = generate_config(&tcp, 1);
    let h = c.stream.tcp_http.as_ref().unwrap();
    assert_eq!((h.path.as_str(), h.host.as_str()), ("/", "b.com"));
    assert!(c.stream.ws.is_none());
    assert!(c.stream.tls.is_none());
    assert_eq!(c.port, 443);

    let bare = VmessNode { tls: "tls".to_string(), alpn: "h2,".to_string(), sni: "s".to_string(), ..VmessNode::default() };
    let c = generate_config(&bare, 1);
    assert_eq!(c.stream.network, "tcp");
    let t = c.stream.tls.as_ref().unwrap();
    assert_eq!(t.server_name.as_deref(), Some("s"));
    assert_eq!(t.alpn.clone().unwrap(), vec!["h2".to_string(), "".to_string()]);
    assert_eq!(t.fingerprint, None);
}

#[test]
fn decoded_bytes_to_text() {
    assert_eq!(subman::text_from_decoded(Some(b"hi".to_vec())), Ok("hi".to_string()));
    assert_eq!(subman::text_from_decoded(Some("香港".as_bytes().to_vec())), Ok("香港".to_string()));
    assert_eq!(subman::text_from_decoded(Some(vec![0xc3])), Err(LinkError::Utf8));
    assert_eq!(subman::text_from_decoded(None), Err(LinkError::Base64));
}

#[test]
fn links_in_decoded_text() {
    let links = subman::links_in_text(" vmess://a \r\nvless://b\n\n\tvmess://c\nvmess:/d\nvmess://");
    assert_eq!(links, vec!["vmess://a".to_string(), "vmess://c".to_string(), "vmess://".to_string()]);
    assert!(subman::links_in_text("").is_empty());
}
