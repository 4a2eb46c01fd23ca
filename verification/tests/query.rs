use oracle_plugin::client::QueryResult;
use oracle_plugin::handlers::query::{
    connection_ok, execute_response, explain_plan_sql, page_response, plan_query, rows_response,
    text_plan, QueryPlan,
};
use oracle_plugin::json::JsonValue;

fn s(x: &str) -> JsonValue {
    JsonValue::String(x.to_string())
}

fn u(x: u64) -> JsonValue {
    JsonValue::from_u64(x)
}

fn obj(entries: Vec<(&str, JsonValue)>) -> JsonValue {
    JsonValue::Object(entries.into_iter().map(|(k, v)| (k.to_string(), v)).collect())
}

#[test]
fn queries_with_a_limit_are_paged() {
    let params = obj(vec![("query", s("select * from t;")), ("limit", u(25)), ("page", u(3))]);
    match plan_query(&params).ok().unwrap() {
        QueryPlan::Paged { sql, page, size } => {
            assert_eq!(sql, "SELECT * FROM (select * from t) OFFSET 50 ROWS FETCH NEXT 26 ROWS ONLY");
            assert_eq!((page, size), (3, 25));
        },
        _ => panic!("paged plan expected"),
    }
}

#[test]
fn page_size_is_the_legacy_name_and_zero_means_unlimited() {
    let params = obj(vec![("query", s("WITH a AS (select 1 from dual) select * from a")), ("page_size", u(10))]);
    match plan_query(&params).ok().unwrap() {
        QueryPlan::Paged { sql, page, size } => {
            assert_eq!(sql, "SELECT * FROM (WITH a AS (select 1 from dual) select * from a) OFFSET 0 ROWS FETCH NEXT 11 ROWS ONLY");
            assert_eq!((page, size), (1, 10));
        },
        _ => panic!("paged plan expected"),
    }
    let params = obj(vec![("query", s("select 1 from dual")), ("limit", u(0))]);
    match plan_query(&params).ok().unwrap() {
        QueryPlan::Rows { sql } => assert_eq!(sql, "select 1 from dual"),
        _ => panic!("whole result expected"),
    }
}

#[test]
fn statements_without_rows_are_executed() {
    let params = obj(vec![("query", s("BEGIN p; END;")), ("limit", u(10))]);
    match plan_query(&params).ok().unwrap() {
        QueryPlan::Execute { sql } => assert_eq!(sql, "BEGIN p; END;"),
        _ => panic!("execute expected"),
    }
    let params = obj(vec![("query", s("  delete from t ; "))]);
    match plan_query(&params).ok().unwrap() {
        QueryPlan::Execute { sql } => assert_eq!(sql, "delete from t"),
        _ => panic!("execute expected"),
    }
    let e = plan_query(&obj(vec![("query", s("  "))])).err().unwrap();
    assert_eq!((e.code, e.message), (-32602, "missing 'query' parameter".to_string()));
}

fn rows(n: i64) -> Vec<Vec<JsonValue>> {
    (0..n).map(|i| vec![JsonValue::from_i64(i)]).collect()
}

#[test]
fn a_full_page_reports_more() {
    let result = QueryResult { columns: vec!["N".to_string()], rows: rows(3), affected: 0 };
    let r = page_response(2, 2, result);
    assert_eq!(r, obj(vec![
        ("columns", JsonValue::Array(vec![s("N")])),
        ("rows", JsonValue::Array(vec![JsonValue::Array(vec![JsonValue::from_i64(0)]), JsonValue::Array(vec![JsonValue::from_i64(1)])])),
        ("affected_rows", u(0)),
        ("truncated", JsonValue::Bool(true)),
        ("pagination", obj(vec![("page", u(2)), ("page_size", u(2)), ("total_rows", JsonValue::Null), ("has_more", JsonValue::Bool(true))])),
    ]));
}

#[test]
fn the_last_page_reports_no_more() {
    let result = QueryResult { columns: vec![], rows: rows(2), affected: 0 };
    let r = page_response(1, 2, result);
    assert_eq!(r.get("truncated"), Some(&JsonValue::Bool(false)));
    assert_eq!(r.get("rows").unwrap().as_array().unwrap().len(), 2);
}

#[test]
fn whole_results_and_affected_counts() {
    let result = QueryResult { columns: vec!["A".to_string()], rows: rows(1), affected: 0 };
    assert_eq!(rows_response(result), obj(vec![
        ("columns", JsonValue::Array(vec![s("A")])),
        ("rows", JsonValue::Array(vec![JsonValue::Array(vec![JsonValue::from_i64(0)])])),
        ("affected_rows", u(0)),
        ("truncated", JsonValue::Bool(false)),
        ("pagination", JsonValue::Null),
    ]));
    assert_eq!(execute_response(7), obj(vec![
        ("columns", JsonValue::Array(vec![])),
        ("rows", JsonValue::Array(vec![])),
        ("affected_rows", u(7)),
        ("truncated", JsonValue::Bool(false)),
        ("pagination", JsonValue::Null),
    ]));
    assert_eq!(connection_ok(), obj(vec![("success", JsonValue::Bool(true))]));
}

#[test]
fn text_plans() {
    assert_eq!(explain_plan_sql(" select 1 from dual; "), "EXPLAIN PLAN FOR select 1 from dual");
    let r = text_plan("select 1".to_string(), "line".to_string(), JsonValue::from_u64(5));
    assert_eq!(r.get("raw_output"), Some(&s("line")));
    assert_eq!(r.get("driver"), Some(&s("oracle")));
    assert_eq!(r.get("planning_time_ms"), Some(&u(5)));
    assert_eq!(r.get("root").unwrap().get("id"), Some(&s("oracle-plan")));
}

#[test]
fn the_largest_limit_still_probes_one_row_more() {
    let params = obj(vec![("query", s("select 1 from dual")), ("limit", u(u64::MAX))]);
    match plan_query(&params).ok().unwrap() {
        QueryPlan::Paged { sql, page, size } => {
            assert_eq!(
                sql,
                "SELECT * FROM (select 1 from dual) OFFSET 0 ROWS FETCH NEXT 18446744073709551616 ROWS ONLY"
            );
            assert_eq!((page, size), (1, u64::MAX));
        },
        _ => panic!("paged plan expected"),
    }
}
