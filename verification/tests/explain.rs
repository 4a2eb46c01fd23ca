use oracle_plugin::client::QueryResult;
use oracle_plugin::error::PluginError;
use oracle_plugin::handlers::explain::{
    analyze_requested, check_analyzable, executed_cursor, explain_into_sql, explain_response,
    missing_privilege_hint, payload, plan_text, statement_id, FORMAT,
};
use oracle_plugin::json::JsonValue;

fn s(x: &str) -> JsonValue {
    JsonValue::String(x.to_string())
}

fn obj(entries: Vec<(&str, JsonValue)>) -> JsonValue {
    JsonValue::Object(entries.into_iter().map(|(k, v)| (k.to_string(), v)).collect())
}

#[test]
fn payload_keys_rows_by_lowercase_column() {
    let rows = QueryResult {
        columns: vec!["ID".into(), "OPERATION".into()],
        rows: vec![vec![JsonValue::from_i64(0), s("SELECT STATEMENT")]],
        affected: 0,
    };
    let text = QueryResult {
        columns: vec!["PLAN_TABLE_OUTPUT".into()],
        rows: vec![vec![s("line 1")], vec![s("line 2")]],
        affected: 0,
    };
    assert_eq!(
        payload(&rows, &text, false),
        obj(vec![
            ("version", JsonValue::from_u64(1)),
            ("statistics", JsonValue::Bool(false)),
            ("plan", JsonValue::Array(vec![obj(vec![("id", JsonValue::from_i64(0)), ("operation", s("SELECT STATEMENT"))])])),
            ("text", s("line 1\nline 2")),
        ])
    );
}

#[test]
fn payload_pairs_columns_with_cells_up_to_the_shorter() {
    let rows = QueryResult {
        columns: vec!["ID".into(), "ÉTAPE".into(), "COST".into()],
        rows: vec![vec![JsonValue::from_i64(1), s("x")]],
        affected: 0,
    };
    let text = QueryResult { columns: vec![], rows: vec![vec![JsonValue::from_i64(3)], vec![]], affected: 0 };
    let p = payload(&rows, &text, true);
    assert_eq!(p.get("plan"), Some(&JsonValue::Array(vec![obj(vec![("id", JsonValue::from_i64(1)), ("étape", s("x"))])])));
    assert_eq!(p.get("text"), Some(&s("")));
    assert_eq!(p.get("statistics"), Some(&JsonValue::Bool(true)));
}

#[test]
fn privilege_hint_only_for_missing_views() {
    let hinted = missing_privilege_hint(PluginError::internal(
        "ORA-00942: table or view does not exist".to_string(),
    ));
    assert!(hinted.message.contains("SELECT_CATALOG_ROLE"));
    let other = missing_privilege_hint(PluginError::internal("ORA-01017".to_string()));
    assert_eq!(other.message, "ORA-01017");
}

#[test]
fn privilege_hint_keeps_the_code_and_the_message() {
    let hinted = missing_privilege_hint(PluginError::invalid_params("ORA-00942: x".to_string()));
    assert_eq!(hinted.code, -32602);
    assert_eq!(
        hinted.message,
        "ORA-00942: x. EXPLAIN ANALYZE needs SELECT on V$SESSION and V$SQL_PLAN_STATISTICS_ALL (for example through SELECT_CATALOG_ROLE)"
    );
}

#[test]
fn statement_ids_are_plain() {
    let id = statement_id(4242, 7);
    assert_eq!(id, "TABULARIS_4242_7");
    assert!(id.chars().all(|c| c.is_ascii_uppercase() || c.is_ascii_digit() || c == '_'));
    assert_eq!(
        explain_into_sql(&id, "SELECT 1 FROM dual"),
        "EXPLAIN PLAN SET STATEMENT_ID = 'TABULARIS_4242_7' FOR SELECT 1 FROM dual"
    );
}

#[test]
fn analyze_runs_queries_only() {
    assert!(check_analyzable("SELECT * FROM t").is_ok());
    assert!(check_analyzable("with a as (select 1 from dual) select * from a").is_ok());
    let e = check_analyzable("DELETE FROM t").err().unwrap();
    assert_eq!(e.code, -32602);
    assert!(e.message.starts_with("EXPLAIN ANALYZE executes the statement"));
    assert!(analyze_requested(&obj(vec![("analyze", JsonValue::Bool(true))])));
    assert!(!analyze_requested(&obj(vec![("analyze", s("yes"))])));
    assert!(!analyze_requested(&obj(vec![])));
}

#[test]
fn the_executed_cursor_comes_from_the_first_row() {
    let found = QueryResult {
        columns: vec![],
        rows: vec![vec![s("abc123"), JsonValue::from_i64(0), s("extra")]],
        affected: 0,
    };
    let (sql_id, child) = executed_cursor(&found).ok().unwrap();
    assert_eq!(sql_id, "abc123");
    assert_eq!(child, JsonValue::from_i64(0));
    let missing = QueryResult { columns: vec![], rows: vec![vec![JsonValue::Null, JsonValue::from_i64(0)]], affected: 0 };
    let e = executed_cursor(&missing).err().unwrap();
    assert_eq!((e.code, e.message), (-32603, "could not identify the executed cursor in V$SESSION".to_string()));
    let empty = QueryResult { columns: vec![], rows: vec![], affected: 0 };
    assert!(executed_cursor(&empty).is_err());
}

#[test]
fn raw_explain_response() {
    let r = explain_response("SELECT 1".to_string(), "{}".to_string());
    assert_eq!(r, obj(vec![
        ("engine", s("oracle")),
        ("format", s(FORMAT)),
        ("payload", s("{}")),
        ("original_query", s("SELECT 1")),
    ]));
    assert_eq!(FORMAT, "oracle-plan-json");
    let text = QueryResult { columns: vec![], rows: vec![vec![s("a")], vec![s("b")], vec![s("c")]], affected: 0 };
    assert_eq!(plan_text(&text), "a\nb\nc");
}
