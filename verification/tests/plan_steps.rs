use oracle_plugin::client::QueryResult;
use oracle_plugin::error::PluginError;
use oracle_plugin::handlers::explain::{
    analyze_next, analyze_start, estimate_next, estimate_start, payload, AnalyzeState,
    EstimateState, ExplainAction, CURSOR_TEXT_SQL, DELETE_PLAN_SQL, PLAN_ROWS_SQL, PLAN_TEXT_SQL,
    PREVIOUS_CURSOR_SQL, RUNTIME_ROWS_SQL, STATISTICS_ALL_SQL, STATISTICS_TYPICAL_SQL,
};
use oracle_plugin::json::JsonValue;

fn s(x: &str) -> JsonValue {
    JsonValue::String(x.to_string())
}

fn result(rows: Vec<Vec<JsonValue>>) -> QueryResult {
    QueryResult { columns: vec!["ID".to_string()], rows, affected: 0 }
}

fn empty() -> QueryResult {
    QueryResult { columns: vec![], rows: vec![], affected: 0 }
}

fn failure(message: &str) -> PluginError {
    PluginError::internal(message.to_string())
}

fn expect_execute(action: &ExplainAction, sql: &str, binds: &[JsonValue]) {
    match action {
        ExplainAction::Execute(got, args) => {
            assert_eq!(got, sql);
            assert_eq!(args.as_slice(), binds);
        }
        _ => panic!("expected a statement"),
    }
}

fn expect_query(action: &ExplainAction, sql: &str, binds: &[JsonValue]) {
    match action {
        ExplainAction::Query(got, args) => {
            assert_eq!(got, sql);
            assert_eq!(args.as_slice(), binds);
        }
        _ => panic!("expected a query"),
    }
}

fn finished(action: ExplainAction) -> Result<JsonValue, PluginError> {
    match action {
        ExplainAction::Finish(r) => r,
        _ => panic!("expected the finish"),
    }
}

#[test]
fn analyze_refuses_a_statement_before_any_step() {
    let (state, action) = analyze_start("DELETE FROM t");
    assert!(matches!(state, AnalyzeState::Done));
    let e = finished(action).err().unwrap();
    assert_eq!(e.code, -32602);
    assert!(e.message.starts_with("EXPLAIN ANALYZE executes the statement"));
}

#[test]
fn analyze_resets_statistics_before_reporting_a_failed_run() {
    let statement = "SELECT 1/0 FROM dual";
    let (state, action) = analyze_start(statement);
    expect_execute(&action, STATISTICS_ALL_SQL, &[]);
    let (state, action) = analyze_next(statement, state, Ok(empty()));
    match &action {
        ExplainAction::Drain(sql) => assert_eq!(sql, statement),
        _ => panic!("expected the statement to run"),
    }
    let (state, action) = analyze_next(statement, state, Err(failure("ORA-01476: divisor is equal to zero")));
    expect_execute(&action, STATISTICS_TYPICAL_SQL, &[]);
    let (state, action) = analyze_next(statement, state, Ok(empty()));
    assert!(matches!(state, AnalyzeState::Done));
    let e = finished(action).err().unwrap();
    assert_eq!((e.code, e.message), (-32603, "ORA-01476: divisor is equal to zero".to_string()));
}

#[test]
fn analyze_resets_statistics_before_reporting_a_hidden_cursor() {
    let statement = "SELECT * FROM t";
    let (state, _) = analyze_start(statement);
    let (state, _) = analyze_next(statement, state, Ok(empty()));
    let (state, action) = analyze_next(statement, state, Ok(empty()));
    expect_query(&action, PREVIOUS_CURSOR_SQL, &[]);
    let (state, action) = analyze_next(statement, state, Err(failure("ORA-00942: table or view does not exist")));
    expect_execute(&action, STATISTICS_TYPICAL_SQL, &[]);
    // A failed reset does not hide the lookup's error.
    let (_, action) = analyze_next(statement, state, Err(failure("ORA-03113")));
    let e = finished(action).err().unwrap();
    assert!(e.message.starts_with("ORA-00942: table or view does not exist. EXPLAIN ANALYZE needs SELECT"));
}

#[test]
fn analyze_reads_the_executed_cursor_after_the_reset() {
    let statement = "SELECT * FROM t";
    let (state, _) = analyze_start(statement);
    let (state, _) = analyze_next(statement, state, Ok(empty()));
    let (state, _) = analyze_next(statement, state, Ok(empty()));
    let cursor = result(vec![vec![s("abc123"), JsonValue::from_i64(2)]]);
    let (state, action) = analyze_next(statement, state, Ok(cursor));
    expect_execute(&action, STATISTICS_TYPICAL_SQL, &[]);
    let (state, action) = analyze_next(statement, state, Ok(empty()));
    expect_query(&action, RUNTIME_ROWS_SQL, &[s("abc123"), JsonValue::from_i64(2)]);
    let rows = result(vec![vec![JsonValue::from_i64(0)]]);
    let (state, action) = analyze_next(statement, state, Ok(result(vec![vec![JsonValue::from_i64(0)]])));
    expect_query(&action, CURSOR_TEXT_SQL, &[s("abc123"), JsonValue::from_i64(2)]);
    let text = result(vec![vec![s("Plan hash value: 1")]]);
    let (state, action) = analyze_next(statement, state, Ok(result(vec![vec![s("Plan hash value: 1")]])));
    assert!(matches!(state, AnalyzeState::Done));
    assert_eq!(finished(action).ok().unwrap(), payload(&rows, &text, true));
}

#[test]
fn analyze_without_a_cursor_finishes_after_the_reset() {
    let statement = "SELECT * FROM t";
    let (state, _) = analyze_start(statement);
    let (state, _) = analyze_next(statement, state, Ok(empty()));
    let (state, _) = analyze_next(statement, state, Ok(empty()));
    let (state, action) = analyze_next(statement, state, Ok(empty()));
    expect_execute(&action, STATISTICS_TYPICAL_SQL, &[]);
    let (_, action) = analyze_next(statement, state, Ok(empty()));
    let e = finished(action).err().unwrap();
    assert_eq!(e.message, "could not identify the executed cursor in V$SESSION");
}

#[test]
fn analyze_hints_at_privileges_when_runtime_rows_are_hidden() {
    let statement = "SELECT * FROM t";
    let (state, _) = analyze_start(statement);
    let (state, _) = analyze_next(statement, state, Ok(empty()));
    let (state, _) = analyze_next(statement, state, Ok(empty()));
    let cursor = result(vec![vec![s("abc123"), JsonValue::from_i64(0)]]);
    let (state, _) = analyze_next(statement, state, Ok(cursor));
    let (state, _) = analyze_next(statement, state, Ok(empty()));
    let (_, action) = analyze_next(statement, state, Err(failure("ORA-00942")));
    let e = finished(action).err().unwrap();
    assert!(e.message.contains("SELECT_CATALOG_ROLE"));
}

#[test]
fn a_finished_capture_has_no_further_step() {
    let (_, action) = analyze_next("SELECT 1 FROM dual", AnalyzeState::Done, Ok(empty()));
    assert_eq!(finished(action).err().unwrap().code, -32603);
    let (_, action) = estimate_next(EstimateState::Done, Ok(empty()));
    assert_eq!(finished(action).err().unwrap().code, -32603);
}

#[test]
fn estimate_explains_reads_and_cleans_up() {
    let id = "TABULARIS_1_0";
    let (state, action) = estimate_start(id, "SELECT 1 FROM dual");
    expect_execute(&action, "EXPLAIN PLAN SET STATEMENT_ID = 'TABULARIS_1_0' FOR SELECT 1 FROM dual", &[]);
    let (state, action) = estimate_next(state, Ok(empty()));
    expect_query(&action, PLAN_ROWS_SQL, &[s(id), s(id)]);
    let rows = result(vec![vec![JsonValue::from_i64(0)]]);
    let (state, action) = estimate_next(state, Ok(result(vec![vec![JsonValue::from_i64(0)]])));
    expect_query(&action, PLAN_TEXT_SQL, &[s(id)]);
    let text = result(vec![vec![s("line")]]);
    let (state, action) = estimate_next(state, Ok(result(vec![vec![s("line")]])));
    expect_execute(&action, DELETE_PLAN_SQL, &[s(id)]);
    // The payload stands whatever the delete gave.
    let (state, action) = estimate_next(state, Err(failure("ORA-01013")));
    assert!(matches!(state, EstimateState::Done));
    assert_eq!(finished(action).ok().unwrap(), payload(&rows, &text, false));
}

#[test]
fn estimate_deletes_the_plan_rows_after_a_failed_read() {
    let id = "TABULARIS_1_1";
    let (state, _) = estimate_start(id, "SELECT 1 FROM dual");
    let (state, _) = estimate_next(state, Ok(empty()));
    let (state, action) = estimate_next(state, Err(failure("ORA-00904: invalid identifier")));
    expect_execute(&action, DELETE_PLAN_SQL, &[s(id)]);
    let (_, action) = estimate_next(state, Ok(empty()));
    assert_eq!(finished(action).err().unwrap().message, "ORA-00904: invalid identifier");

    let (state, _) = estimate_start(id, "SELECT 1 FROM dual");
    let (state, _) = estimate_next(state, Ok(empty()));
    let (state, _) = estimate_next(state, Ok(empty()));
    let (state, action) = estimate_next(state, Err(failure("ORA-06550")));
    expect_execute(&action, DELETE_PLAN_SQL, &[s(id)]);
    let (_, action) = estimate_next(state, Ok(empty()));
    assert_eq!(finished(action).err().unwrap().message, "ORA-06550");
}

#[test]
fn estimate_stops_when_explain_fails() {
    let (state, _) = estimate_start("TABULARIS_1_2", "SELEC 1");
    let (state, action) = estimate_next(state, Err(failure("ORA-00900: invalid SQL statement")));
    assert!(matches!(state, EstimateState::Done));
    assert_eq!(finished(action).err().unwrap().message, "ORA-00900: invalid SQL statement");
}
