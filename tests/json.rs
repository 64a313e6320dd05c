use subman::{active_node_from_config, JsonValue};

fn obj(members: Vec<(&str, JsonValue)>) -> JsonValue {
    JsonValue::Object(members.into_iter().map(|(k, v)| (k.to_string(), v)).collect())
}

fn text(s: &str) -> JsonValue {
    JsonValue::Text(s.to_string())
}

fn config(port: JsonValue) -> JsonValue {
    let user = obj(vec![("id", text("uuid-1")), ("alterId", JsonValue::UInt(0))]);
    let server = obj(vec![
        ("address", text("n1.test.com")),
        ("port", port),
        ("users", JsonValue::Array(vec![user])),
    ]);
    let outbound = obj(vec![
        ("protocol", text("vmess")),
        ("settings", obj(vec![("vnext", JsonValue::Array(vec![server]))])),
    ]);
    obj(vec![("log", JsonValue::Null), ("outbounds", JsonValue::Array(vec![outbound]))])
}

#[test]
fn reads_active_node() {
    let info = active_node_from_config(&config(JsonValue::UInt(443))).unwrap();
    assert_eq!(info.address, "n1.test.com");
    assert_eq!(info.port, 443);
    assert_eq!(info.user_id, "uuid-1");
}

#[test]
fn port_is_truncated_to_sixteen_bits() {
    let info = active_node_from_config(&config(JsonValue::UInt(65536 + 8443))).unwrap();
    assert_eq!(info.port, 8443);
}

#[test]
fn missing_or_mistyped_fields_give_nothing() {
    assert!(active_node_from_config(&config(text("443"))).is_none());
    assert!(active_node_from_config(&config(JsonValue::OtherNumber)).is_none());
    assert!(active_node_from_config(&JsonValue::Null).is_none());
    assert!(active_node_from_config(&obj(vec![("outbounds", JsonValue::Array(vec![]))])).is_none());
    assert!(active_node_from_config(&JsonValue::Bool(true)).is_none());
}
