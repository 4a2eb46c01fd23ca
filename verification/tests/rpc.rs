use oracle_plugin::client::session_target;
use oracle_plugin::error::PluginError;
use oracle_plugin::handlers::{
    cell, cell_i64, cell_str, current_schema, opt_str, req_str, req_str_any, respond,
};
use oracle_plugin::json::JsonValue;
use oracle_plugin::models::{inner_params, ConnectionParams};
use oracle_plugin::rpc::{
    answer_line, dispatch, error_response, ok_response, parse_error_response, route, Dispatch,
    Method,
};
use oracle_plugin::settings::requested_client_lib_dir;

fn s(x: &str) -> JsonValue {
    JsonValue::String(x.to_string())
}

fn obj(entries: Vec<(&str, JsonValue)>) -> JsonValue {
    JsonValue::Object(entries.into_iter().map(|(k, v)| (k.to_string(), v)).collect())
}

fn request(method: &str, params: JsonValue, id: i64) -> JsonValue {
    obj(vec![("jsonrpc", s("2.0")), ("method", s(method)), ("params", params), ("id", JsonValue::from_i64(id))])
}

fn error_code(response: &JsonValue) -> i64 {
    response.get("error").unwrap().get("code").unwrap().as_i64().unwrap()
}

#[test]
fn parse_error_is_reported() {
    let resp = parse_error_response("expected ident at line 1 column 2");
    assert_eq!(error_code(&resp), -32700);
    assert_eq!(resp.get("id"), Some(&JsonValue::Null));
    assert_eq!(
        resp.get("error").unwrap().get("message"),
        Some(&s("parse error: expected ident at line 1 column 2"))
    );
}

#[test]
fn unknown_method_is_method_not_found() {
    match dispatch(&request("nope", obj(vec![]), 7)) {
        Dispatch::Reply(resp) => {
            assert_eq!(error_code(&resp), -32601);
            assert_eq!(resp.get("id"), Some(&JsonValue::from_i64(7)));
            assert_eq!(
                resp.get("error").unwrap().get("message"),
                Some(&s("method 'nope' is not supported by this plugin"))
            );
        },
        _ => panic!("an immediate reply expected"),
    }
}

#[test]
fn initialize_succeeds() {
    match dispatch(&request("initialize", obj(vec![]), 1)) {
        Dispatch::Handle { method, id, params } => {
            assert_eq!(method, Method::Initialize);
            assert_eq!(requested_client_lib_dir(&params), None);
            let resp = ok_response(id, JsonValue::Null);
            assert_eq!(resp.get("result"), Some(&JsonValue::Null));
            assert_eq!(resp.get("id"), Some(&JsonValue::from_i64(1)));
        },
        _ => panic!("initialize is handled by the program"),
    }
}

#[test]
fn missing_connection_target_is_invalid_params() {
    match dispatch(&request("get_tables", obj(vec![("params", obj(vec![]))]), 1)) {
        Dispatch::Handle { method, id, params } => {
            assert_eq!(method, Method::GetTables);
            let cp = ConnectionParams::from_value(inner_params(&params));
            let err = session_target(&cp).err().unwrap();
            let resp = respond(id, Err(err));
            assert_eq!(error_code(&resp), -32602);
        },
        _ => panic!("get_tables needs the database"),
    }
}

#[test]
fn generators_are_answered_at_once() {
    let params = obj(vec![("table", s("T")), ("index_name", s("IX")), ("columns", JsonValue::Array(vec![s("A")]))]);
    match dispatch(&request("get_create_index_sql", params, 4)) {
        Dispatch::Reply(resp) => {
            assert_eq!(resp.get("result"), Some(&JsonValue::Array(vec![s("CREATE INDEX \"IX\" ON \"T\" (\"A\")")])));
            assert_eq!(resp.get("id"), Some(&JsonValue::from_i64(4)));
        },
        _ => panic!("an immediate reply expected"),
    }
}

#[test]
fn requests_without_method_or_id() {
    match dispatch(&obj(vec![])) {
        Dispatch::Reply(resp) => {
            assert_eq!(error_code(&resp), -32601);
            assert_eq!(resp.get("id"), Some(&JsonValue::Null));
        },
        _ => panic!("an immediate reply expected"),
    }
}

#[test]
fn every_method_is_routed_by_its_name() {
    let names = [
        "initialize", "ping", "test_connection", "get_databases", "get_schemas", "get_tables",
        "get_columns", "get_foreign_keys", "get_indexes", "get_views", "get_view_definition",
        "get_view_columns", "get_routines", "get_routine_parameters", "get_routine_definition",
        "get_schema_snapshot", "get_all_columns_batch", "get_all_foreign_keys_batch",
        "create_view", "alter_view", "drop_view", "execute_query", "explain_query",
        "insert_record", "update_record", "delete_record", "get_create_table_sql",
        "get_add_column_sql", "get_alter_column_sql", "get_create_index_sql",
        "get_create_foreign_key_sql", "drop_index", "drop_foreign_key",
    ];
    let mut seen = Vec::new();
    for name in names {
        let m = route(name).unwrap();
        assert!(!seen.contains(&m));
        seen.push(m);
    }
    assert_eq!(route("GET_TABLES"), None);
    assert_eq!(route("get_triggers"), None);
}

#[test]
fn responses_carry_the_id() {
    let ok = ok_response(s("abc"), JsonValue::Bool(true));
    assert_eq!(ok, obj(vec![("jsonrpc", s("2.0")), ("result", JsonValue::Bool(true)), ("id", s("abc"))]));
    let err = error_response(JsonValue::from_i64(2), -32603, "boom");
    assert_eq!(err, obj(vec![
        ("jsonrpc", s("2.0")),
        ("error", obj(vec![("code", JsonValue::from_i64(-32603)), ("message", s("boom"))])),
        ("id", JsonValue::from_i64(2)),
    ]));
    let resp = respond(JsonValue::Null, Err(PluginError::unsupported("no triggers".to_string())));
    assert_eq!(error_code(&resp), -32601);
}

#[test]
fn parameters_are_trimmed_and_required() {
    let params = obj(vec![("a", s("  x ")), ("b", s("   ")), ("c", JsonValue::from_i64(1))]);
    assert_eq!(opt_str(&params, "a"), Some("x".to_string()));
    assert_eq!(opt_str(&params, "b"), None);
    assert_eq!(opt_str(&params, "c"), None);
    assert_eq!(req_str(&params, "a").unwrap(), "x");
    let e = req_str(&params, "b").err().unwrap();
    assert_eq!((e.code, e.message), (-32602, "missing 'b' parameter".to_string()));
    assert_eq!(req_str_any(&params, &["b", "a"]).unwrap(), "x");
    let e = req_str_any(&params, &["z", "b"]).err().unwrap();
    assert_eq!(e.message, "missing 'z' parameter");
    let e = current_schema(None).err().unwrap();
    assert_eq!((e.code, e.message), (-32603, "could not determine current schema".to_string()));
    assert_eq!(current_schema(Some("HR".to_string())).unwrap(), "HR");
}

#[test]
fn cells_default_when_missing() {
    let row = vec![s("x"), JsonValue::from_i64(5), s("12"), s("1.5")];
    assert_eq!(cell(&row, 0), s("x"));
    assert_eq!(cell(&row, 9), JsonValue::Null);
    assert_eq!(cell_str(&row, 0), Some("x".to_string()));
    assert_eq!(cell_str(&row, 1), None);
    assert_eq!(cell_i64(&row, 1), 5);
    assert_eq!(cell_i64(&row, 2), 12);
    assert_eq!(cell_i64(&row, 3), 0);
    assert_eq!(cell_i64(&row, 9), 0);
}

#[test]
fn settings_name_the_client_library() {
    let params = obj(vec![("settings", obj(vec![("client_lib_dir", s("  /opt/instantclient  "))]))]);
    assert_eq!(requested_client_lib_dir(&params), Some("/opt/instantclient".to_string()));
    let params = obj(vec![("settings", obj(vec![("client_lib_dir", s(""))]))]);
    assert_eq!(requested_client_lib_dir(&params), None);
}

#[test]
fn every_line_gets_an_envelope() {
    // A line that is not JSON: code -32700 and a null id.
    match answer_line(Err("expected value at line 1 column 1".to_string())) {
        Dispatch::Reply(r) => {
            assert_eq!(error_code(&r), -32700);
            assert_eq!(r.get("id"), Some(&JsonValue::Null));
            assert_eq!(r.get("jsonrpc"), Some(&s("2.0")));
        }
        Dispatch::Handle { .. } => panic!("a parse error is answered at once"),
    }
    // An unknown method keeps the request's id.
    match answer_line(Ok(request("no_such_method", JsonValue::Null, 9))) {
        Dispatch::Reply(r) => {
            assert_eq!(error_code(&r), -32601);
            assert_eq!(r.get("id"), Some(&JsonValue::from_i64(9)));
        }
        Dispatch::Handle { .. } => panic!("an unknown method is answered at once"),
    }
    // A method that needs the session: its result is wrapped with the id.
    match answer_line(Ok(request("get_tables", obj(vec![("schema", s("HR"))]), 4))) {
        Dispatch::Handle { method, id, params } => {
            assert_eq!(method, Method::GetTables);
            assert_eq!(params, obj(vec![("schema", s("HR"))]));
            let failed = respond(id.duplicate(), Err(PluginError::internal("ORA-12541".to_string())));
            assert_eq!(error_code(&failed), -32603);
            assert_eq!(failed.get("id"), Some(&JsonValue::from_i64(4)));
            let answered = respond(id, Ok(JsonValue::Null));
            assert_eq!(answered.get("result"), Some(&JsonValue::Null));
            assert_eq!(answered.get("error"), None);
        }
        Dispatch::Reply(_) => panic!("get_tables needs the session"),
    }
}
