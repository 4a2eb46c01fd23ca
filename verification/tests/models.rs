use oracle_plugin::error::PluginError;
use oracle_plugin::json::JsonValue;
use oracle_plugin::models::{inner_params, ConnectionParams};

fn s(x: &str) -> JsonValue {
    JsonValue::String(x.to_string())
}

fn obj(entries: Vec<(&str, JsonValue)>) -> JsonValue {
    JsonValue::Object(entries.into_iter().map(|(k, v)| (k.to_string(), v)).collect())
}

#[test]
fn connection_params_are_read_from_the_form() {
    let form = obj(vec![
        ("driver", s("oracle")),
        ("host", s("  db  ")),
        ("port", s("1522")),
        ("database", JsonValue::Array(vec![JsonValue::from_i64(1), s(" FREEPDB1 "), s("X")])),
        ("username", s("system")),
        ("password", s("")),
        ("ssl_mode", s("require")),
    ]);
    let p = ConnectionParams::from_value(&form);
    assert_eq!(p.driver.as_deref(), Some("oracle"));
    assert_eq!(p.host.as_deref(), Some("db"));
    assert_eq!(p.port, Some(1522));
    assert_eq!(p.database.as_deref(), Some("FREEPDB1"));
    assert_eq!(p.username.as_deref(), Some("system"));
    assert_eq!(p.password, None);
    assert_eq!(p.ssl_mode.as_deref(), Some("require"));
}

#[test]
fn ports_must_fit() {
    let p = ConnectionParams::from_value(&obj(vec![("port", JsonValue::from_u64(70000))]));
    assert_eq!(p.port, None);
    let p = ConnectionParams::from_value(&obj(vec![("port", JsonValue::from_u64(1521))]));
    assert_eq!(p.port, Some(1521));
    let p = ConnectionParams::from_value(&obj(vec![("port", s("-1"))]));
    assert_eq!(p.port, None);
    let p = ConnectionParams::from_value(&s("not an object"));
    assert_eq!(p.host, None);
}

#[test]
fn inner_params_default_to_null() {
    let v = obj(vec![("params", obj(vec![("host", s("h"))]))]);
    assert_eq!(inner_params(&v), &obj(vec![("host", s("h"))]));
    assert_eq!(inner_params(&obj(vec![])), &JsonValue::Null);
}

#[test]
fn errors_carry_json_rpc_codes() {
    assert_eq!(PluginError::internal("a".to_string()).code, -32603);
    assert_eq!(PluginError::invalid_params("a".to_string()).code, -32602);
    assert_eq!(PluginError::unsupported("a".to_string()).code, -32601);
    let e = PluginError::invalid_params("bad".to_string());
    assert_eq!(e.to_display_string(), "[-32602] bad");
}

#[test]
fn client_library_errors_get_an_install_hint() {
    let e = PluginError::from_oracle_text("DPI-1047: Cannot locate a 64-bit Oracle Client library");
    assert_eq!(e.code, -32603);
    assert!(e.message.starts_with("Oracle Client library not found (DPI-1047)."));
    let e = PluginError::from_oracle_text("ORA-01017: invalid username/password");
    assert_eq!(e.message, "oracle error: ORA-01017: invalid username/password");
}
