use oracle_plugin::client::{
    after_describe, after_first, binary_cell, connect_failure, connect_string, json_retry_sql,
    json_to_bind, parse_number, recovered, session_target, text_cell, Bind, FirstRun,
    QueryResult,
};
use oracle_plugin::error::PluginError;
use oracle_plugin::json::{JsonNumber, JsonValue};
use oracle_plugin::models::ConnectionParams;

fn params(
    host: Option<&str>,
    port: Option<u16>,
    database: Option<&str>,
    ssl_mode: Option<&str>,
) -> ConnectionParams {
    ConnectionParams {
        host: host.map(String::from),
        port,
        database: database.map(String::from),
        ssl_mode: ssl_mode.map(String::from),
        ..Default::default()
    }
}

/// How the plugin reads a NUMBER's text: exactly when it is an integer,
/// else as a double.
#[derive(Debug, PartialEq)]
enum NumberRead {
    Exact(JsonValue),
    Double(f64),
}

fn read_number(s: &str) -> NumberRead {
    match parse_number(s) {
        Some(v) => NumberRead::Exact(v),
        None => NumberRead::Double(s.parse::<f64>().unwrap()),
    }
}

#[test]
fn host_and_service_build_ezconnect() {
    let p = params(Some("db.example.com"), Some(1521), Some("FREEPDB1"), None);
    assert_eq!(connect_string(&p).unwrap(), "//db.example.com:1521/FREEPDB1");
}

#[test]
fn default_port_is_1521() {
    let p = params(Some("localhost"), None, Some("XEPDB1"), None);
    assert_eq!(connect_string(&p).unwrap(), "//localhost:1521/XEPDB1");
}

#[test]
fn ssl_mode_require_uses_tcps() {
    let p = params(Some("adb.eu-1.oraclecloud.com"), Some(1522), Some("mydb_high"), Some("require"));
    assert_eq!(
        connect_string(&p).unwrap(),
        "tcps://adb.eu-1.oraclecloud.com:1522/mydb_high",
    );
}

#[test]
fn full_descriptor_passes_through() {
    let desc = "(DESCRIPTION=(ADDRESS=(PROTOCOL=TCP)(HOST=h)(PORT=1521))(CONNECT_DATA=(SERVICE_NAME=s)))";
    let p = params(Some("ignored"), None, Some(desc), None);
    assert_eq!(connect_string(&p).unwrap(), desc);
}

#[test]
fn ezconnect_in_database_field_passes_through() {
    let p = params(None, None, Some("//h:1521/svc"), None);
    assert_eq!(connect_string(&p).unwrap(), "//h:1521/svc");
}

#[test]
fn bare_database_is_tns_alias() {
    let p = params(None, None, Some("MYALIAS"), None);
    assert_eq!(connect_string(&p).unwrap(), "MYALIAS");
}

#[test]
fn host_without_service_is_an_error() {
    let p = params(Some("localhost"), None, None, None);
    assert!(connect_string(&p).is_err());
}

#[test]
fn empty_params_are_an_error() {
    let p = params(None, None, None, None);
    assert!(connect_string(&p).is_err());
}

#[test]
fn parses_numbers_precisely() {
    assert_eq!(read_number("42"), NumberRead::Exact(JsonValue::from_i64(42)));
    assert_eq!(read_number("-7"), NumberRead::Exact(JsonValue::from_i64(-7)));
    assert_eq!(read_number("3.25"), NumberRead::Double(3.25));
    // 39-digit NUMBER survives as a string instead of degrading to f64.
    let big = "123456789012345678901234567890123456789";
    assert_eq!(read_number(big), NumberRead::Exact(JsonValue::String(big.to_string())));
    assert_eq!(read_number("1E10"), NumberRead::Double(1e10));
}

#[test]
fn negative_big_integers_stay_strings() {
    let big = "-99999999999999999999";
    assert_eq!(parse_number(big), Some(JsonValue::String(big.to_string())));
    assert_eq!(parse_number("-"), None);
    assert_eq!(parse_number(""), None);
}

#[test]
fn tls_modes_and_ezconnect_schemes() {
    for mode in ["verify-ca", "verify-full", "verify_identity"] {
        let p = params(Some("h"), Some(2484), Some("svc"), Some(mode));
        assert_eq!(connect_string(&p).unwrap(), "tcps://h:2484/svc");
    }
    let p = params(Some("h"), None, Some("svc"), Some("disable"));
    assert_eq!(connect_string(&p).unwrap(), "//h:1521/svc");
    let p = params(Some("h"), None, Some("  TCPS://adb:1522/x_high  "), None);
    assert_eq!(connect_string(&p).unwrap(), "TCPS://adb:1522/x_high");
}

#[test]
fn connect_string_error_messages() {
    let p = params(Some("localhost"), None, Some("   "), None);
    let e = connect_string(&p).unwrap_err();
    assert_eq!(e.code, -32602);
    assert!(e.message.starts_with("missing service name"));
    let p = params(Some("  "), None, None, None);
    let e = connect_string(&p).unwrap_err();
    assert_eq!(e.code, -32602);
    assert!(e.message.starts_with("no connection target"));
}

#[test]
fn session_target_keys_by_user_and_target() {
    let mut p = params(Some("h"), Some(1521), Some("svc"), None);
    p.username = Some("scott".to_string());
    let t = session_target(&p).unwrap();
    assert_eq!(t.username, "scott");
    assert_eq!(t.password, "");
    assert_eq!(t.target, "//h:1521/svc");
    assert_eq!(t.key, "scott\u{1}//h:1521/svc");

    let missing = params(Some("h"), None, Some("svc"), None);
    let e = session_target(&missing).err().unwrap();
    assert_eq!(e.code, -32602);
    assert_eq!(e.message, "missing username");
}

#[test]
fn connect_failure_names_the_target() {
    let base = PluginError::internal("oracle error: ORA-12541: TNS:no listener".to_string());
    let e = connect_failure("//h:1521/svc", base);
    assert_eq!(e.code, -32603);
    assert_eq!(e.message, "cannot connect to '//h:1521/svc': oracle error: ORA-12541: TNS:no listener");
}

#[test]
fn json_columns_are_retried_serialized() {
    let buf = "2:ID\u{1}119:DOC\u{1}";
    assert_eq!(
        json_retry_sql("SELECT * FROM t", buf).unwrap(),
        "SELECT \"ID\", JSON_SERIALIZE(\"DOC\" RETURNING CLOB) AS \"DOC\" FROM (SELECT * FROM t)",
    );
    assert_eq!(json_retry_sql("SELECT * FROM t", "2:ID\u{1}"), None);
}

#[test]
fn failed_recovery_surfaces_the_original_error() {
    let original = PluginError::internal("unsupported Oracle type JSON".to_string());
    let retried = Err(PluginError::internal("ORA-00904".to_string()));
    let e = recovered(original, retried).err().unwrap();
    assert_eq!(e.message, "unsupported Oracle type JSON");

    let original = PluginError::internal("unsupported Oracle type JSON".to_string());
    let ok = QueryResult { columns: vec!["A".to_string()], rows: vec![], affected: 0 };
    let r = recovered(original, Ok(ok)).ok().unwrap();
    assert_eq!(r.columns, vec!["A".to_string()]);
}

#[test]
fn binds_follow_value_kinds() {
    assert!(matches!(json_to_bind(&JsonValue::Null), Bind::Null));
    assert!(matches!(json_to_bind(&JsonValue::Bool(true)), Bind::Int(1)));
    assert!(matches!(json_to_bind(&JsonValue::Bool(false)), Bind::Int(0)));
    assert!(matches!(json_to_bind(&JsonValue::from_i64(-5)), Bind::Int(-5)));
    assert!(matches!(
        json_to_bind(&JsonValue::from_u64(u64::MAX)),
        Bind::Real(JsonNumber::PosInt(u64::MAX))
    ));
    match json_to_bind(&JsonValue::String("x".to_string())) {
        Bind::Text(t) => assert_eq!(t, "x"),
        _ => panic!("text expected"),
    }
    match json_to_bind(&JsonValue::Array(vec![JsonValue::from_i64(1)])) {
        Bind::Serialized(v) => assert_eq!(v, JsonValue::Array(vec![JsonValue::from_i64(1)])),
        _ => panic!("serialized expected"),
    }
}

#[test]
fn binary_cells_are_base64() {
    assert_eq!(binary_cell(Some(b"hi".to_vec())), JsonValue::String("aGk=".to_string()));
    assert_eq!(binary_cell(Some(vec![0xff, 0x00, 0x10])), JsonValue::String("/wAQ".to_string()));
    assert_eq!(binary_cell(None), JsonValue::Null);
    assert_eq!(text_cell(Some("a".to_string())), JsonValue::String("a".to_string()));
    assert_eq!(text_cell(None), JsonValue::Null);
}

#[test]
fn only_the_json_define_error_leads_to_a_retry() {
    let json_err = Err(PluginError::internal("oracle error: unsupported Oracle type JSON".to_string()));
    match after_first(json_err) {
        FirstRun::Describe(e) => assert_eq!(e.message, "oracle error: unsupported Oracle type JSON"),
        FirstRun::Done(_) => panic!("a retry expected"),
    }
    let other = Err(PluginError::internal("ORA-00942".to_string()));
    match after_first(other) {
        FirstRun::Done(Err(e)) => assert_eq!(e.message, "ORA-00942"),
        _ => panic!("the error stands"),
    }
    let ok = Ok(QueryResult { columns: vec![], rows: vec![], affected: 0 });
    assert!(matches!(after_first(ok), FirstRun::Done(Ok(_))));

    assert_eq!(
        after_describe("SELECT * FROM t", Ok("119:DOC\u{1}".to_string())).unwrap(),
        "SELECT JSON_SERIALIZE(\"DOC\" RETURNING CLOB) AS \"DOC\" FROM (SELECT * FROM t)"
    );
    assert_eq!(after_describe("SELECT * FROM t", Ok("1:A\u{1}".to_string())), None);
    assert_eq!(after_describe("SELECT * FROM t", Err(PluginError::internal("ORA-06550".to_string()))), None);
}
