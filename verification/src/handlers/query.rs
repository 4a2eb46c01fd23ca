//! Arbitrary query execution: what to run for a request, and how results
//! are reported.
//!
//! `execute_query` results match the host's `QueryResult` model:
//! `{ columns, rows, affected_rows, truncated, pagination }`. Pagination
//! follows the native drivers' pattern: fetch `limit + 1` rows, report
//! `has_more` and truncate, leave `total_rows` unset (no COUNT round-trip).
use vstd::prelude::*;

use crate::client::{columns_json, rows_json, rows_value, QueryResult};
use crate::error::PluginError;
use crate::handlers::{req_str, req_str_spec};
use crate::json::{entry_models, models, Json, JsonValue};
use crate::text::{dec, push_dec, push_str, string_of};
use crate::utils::pagination::{offset_for, offset_spec};
use crate::utils::sql::{is_wrappable, prepare_spec, prepare_statement, returns_rows, returns_rows_spec};

verus! {

/// What `execute_query` runs.
pub enum QueryPlan {
    /// A row-returning statement read one page at a time.
    Paged { sql: String, page: u64, size: u64 },
    /// A row-returning statement read whole.
    Rows { sql: String },
    /// A statement without a result set, reporting its affected-row count.
    Execute { sql: String },
}

/// The unsigned integer parameter `key`.
pub open spec fn u64_param(params: Json, key: Seq<char>) -> Option<u64> {
    match params.get(key) {
        Some(v) => v.as_u64(),
        None => None,
    }
}

/// The page size: `limit` (the host's name) or `page_size` (the published
/// guide's), when positive.
pub open spec fn limit_spec(params: Json) -> Option<u64> {
    let l = match u64_param(params, "limit"@) {
        Some(n) => Some(n),
        None => u64_param(params, "page_size"@),
    };
    match l {
        Some(n) => if n > 0 {
            Some(n)
        } else {
            None
        },
        None => None,
    }
}

/// The 1-based page number, 1 when absent.
pub open spec fn page_spec(params: Json) -> u64 {
    match u64_param(params, "page"@) {
        Some(p) => p,
        None => 1,
    }
}

/// One page of a row-returning statement, probing one row beyond it to
/// learn whether more pages exist. Oracle table aliases take no AS keyword.
pub open spec fn paged_sql(prepared: Seq<char>, page: u64, size: u64) -> Seq<char> {
    "SELECT * FROM ("@ + prepared + ") OFFSET "@ + dec(offset_spec(page, size) as nat)
        + " ROWS FETCH NEXT "@ + dec((size + 1) as nat) + " ROWS ONLY"@
}

/// The plan for the statement `query` of a request.
pub open spec fn plan_spec(query: Seq<char>, params: Json, plan: QueryPlan) -> bool {
    let prepared = prepare_spec(query);
    if returns_rows_spec(prepared) {
        match limit_spec(params) {
            Some(size) => plan matches QueryPlan::Paged { sql, page, size: s } && sql@ == paged_sql(
                prepared,
                page_spec(params),
                size,
            ) && page == page_spec(params) && s == size,
            None => plan matches QueryPlan::Rows { sql } && sql@ == prepared,
        }
    } else {
        plan matches QueryPlan::Execute { sql } && sql@ == prepared
    }
}

/// The response to a page: at most `size` rows, and whether more exist.
pub open spec fn page_response_spec(
    page: u64,
    size: u64,
    columns: Seq<String>,
    rows: Seq<Vec<JsonValue>>,
) -> Json {
    let has_more = rows.len() > size;
    let kept = if has_more {
        rows.take(size as int)
    } else {
        rows
    };
    Json::Object(
        seq![
            ("columns"@, columns_json(columns)),
            ("rows"@, rows_json(kept)),
            ("affected_rows"@, Json::Int(0)),
            ("truncated"@, Json::Bool(has_more)),
            ("pagination"@, Json::Object(seq![
                ("page"@, Json::Int(page as int)),
                ("page_size"@, Json::Int(size as int)),
                ("total_rows"@, Json::Null),
                ("has_more"@, Json::Bool(has_more)),
            ])),
        ],
    )
}

/// The response to a whole result set.
pub open spec fn rows_response_spec(columns: Seq<String>, rows: Seq<Vec<JsonValue>>) -> Json {
    Json::Object(
        seq![
            ("columns"@, columns_json(columns)),
            ("rows"@, rows_json(rows)),
            ("affected_rows"@, Json::Int(0)),
            ("truncated"@, Json::Bool(false)),
            ("pagination"@, Json::Null),
        ],
    )
}

/// The response to a statement without a result set.
pub open spec fn execute_response_spec(affected: u64) -> Json {
    Json::Object(
        seq![
            ("columns"@, Json::Array(seq![])),
            ("rows"@, Json::Array(seq![])),
            ("affected_rows"@, Json::Int(affected as int)),
            ("truncated"@, Json::Bool(false)),
            ("pagination"@, Json::Null),
        ],
    )
}

fn u64_param_of(params: &JsonValue, key: &str) -> (r: Option<u64>)
    ensures
        r == u64_param(params@, key@),
{
    match params.get(key) {
        Some(v) => v.as_u64(),
        None => None,
    }
}

/// The page size a request asks for.
pub fn query_limit(params: &JsonValue) -> (r: Option<u64>)
    ensures
        r == limit_spec(params@),
{
    // The host sends `limit`; the published guide called it `page_size`.
    let l = match u64_param_of(params, "limit") {
        Some(n) => Some(n),
        None => u64_param_of(params, "page_size"),
    };
    match l {
        Some(n) => if n > 0 {
            Some(n)
        } else {
            None
        },
        None => None,
    }
}

/// What `execute_query` runs for a request.
pub fn plan_query(params: &JsonValue) -> (r: Result<QueryPlan, PluginError>)
    ensures
        match r {
            Ok(plan) => match req_str_spec(params@, "query"@) {
                Ok(q) => plan_spec(q, params@, plan),
                Err(_) => false,
            },
            Err(e) => req_str_spec(params@, "query"@) == Err::<Seq<char>, (i64, Seq<char>)>(e@),
        },
{
    let query = match req_str(params, "query") {
        Ok(q) => q,
        Err(e) => return Err(e),
    };
    let limit = query_limit(params);
    let page: u64 = match u64_param_of(params, "page") {
        Some(p) => p,
        None => 1,
    };
    let prepared = prepare_statement(query.as_str());
    if returns_rows(prepared) {
        match limit {
            Some(size) => {
                if is_wrappable(prepared) {
                    // OFFSET/FETCH needs Oracle 12c+. Fetch one row beyond the
                    // page to learn whether more pages exist.
                    let offset = offset_for(page, size);
                    let probe: u128 = size as u128 + 1;
                    let mut sql = string_of("SELECT * FROM (");
                    push_str(&mut sql, prepared);
                    push_str(&mut sql, ") OFFSET ");
                    push_dec(&mut sql, offset as u128);
                    push_str(&mut sql, " ROWS FETCH NEXT ");
                    push_dec(&mut sql, probe);
                    push_str(&mut sql, " ROWS ONLY");
                    return Ok(QueryPlan::Paged { sql, page, size });
                }
                Ok(QueryPlan::Rows { sql: string_of(prepared) })
            },
            None => Ok(QueryPlan::Rows { sql: string_of(prepared) }),
        }
    } else {
        // DML/DDL/PLSQL: no result set, report the affected-row count.
        Ok(QueryPlan::Execute { sql: string_of(prepared) })
    }
}

/// The response to one page of rows, fetched with one row of look-ahead.
pub fn page_response(page: u64, size: u64, result: QueryResult) -> (r: JsonValue)
    ensures
        r@ == page_response_spec(page, size, result.columns@, result.rows@),
{
    let QueryResult { columns, rows, affected: _ } = result;
    let ghost all = rows@;
    let mut rows = rows;
    let has_more = rows.len() as u64 > size;
    if has_more {
        rows.truncate(size as usize);
    }
    let mut pagination: Vec<(String, JsonValue)> = Vec::new();
    JsonValue::push_entry(&mut pagination, "page", JsonValue::from_u64(page));
    JsonValue::push_entry(&mut pagination, "page_size", JsonValue::from_u64(size));
    JsonValue::push_entry(&mut pagination, "total_rows", JsonValue::Null);
    JsonValue::push_entry(&mut pagination, "has_more", JsonValue::from_bool(has_more));
    let ghost kept = rows@;
    let mut e: Vec<(String, JsonValue)> = Vec::new();
    JsonValue::push_entry(&mut e, "columns", JsonValue::string_array(&columns));
    JsonValue::push_entry(&mut e, "rows", rows_value(rows));
    JsonValue::push_entry(&mut e, "affected_rows", JsonValue::from_u64(0));
    JsonValue::push_entry(&mut e, "truncated", JsonValue::from_bool(has_more));
    JsonValue::push_entry(&mut e, "pagination", JsonValue::Object(pagination));
    proof {
        let target = page_response_spec(page, size, columns@, all);
        assert(kept == (if has_more {
            all.take(size as int)
        } else {
            all
        }));
        assert(entry_models(pagination@) =~= target->Object_0[4].1->Object_0);
        assert(entry_models(e@) =~= target->Object_0);
    }
    JsonValue::Object(e)
}

/// The response to a whole result set.
pub fn rows_response(result: QueryResult) -> (r: JsonValue)
    ensures
        r@ == rows_response_spec(result.columns@, result.rows@),
{
    let QueryResult { columns, rows, affected: _ } = result;
    let ghost all = rows@;
    let mut e: Vec<(String, JsonValue)> = Vec::new();
    JsonValue::push_entry(&mut e, "columns", JsonValue::string_array(&columns));
    JsonValue::push_entry(&mut e, "rows", rows_value(rows));
    JsonValue::push_entry(&mut e, "affected_rows", JsonValue::from_u64(0));
    JsonValue::push_entry(&mut e, "truncated", JsonValue::from_bool(false));
    JsonValue::push_entry(&mut e, "pagination", JsonValue::Null);
    assert(entry_models(e@) =~= rows_response_spec(columns@, all)->Object_0);
    JsonValue::Object(e)
}

/// The response to a statement without a result set.
pub fn execute_response(affected: u64) -> (r: JsonValue)
    ensures
        r@ == execute_response_spec(affected),
{
    let no_columns: Vec<JsonValue> = Vec::new();
    let no_rows: Vec<JsonValue> = Vec::new();
    assert(models(no_columns@) =~= Seq::<Json>::empty());
    assert(models(no_rows@) =~= Seq::<Json>::empty());
    let mut e: Vec<(String, JsonValue)> = Vec::new();
    JsonValue::push_entry(&mut e, "columns", JsonValue::Array(no_columns));
    JsonValue::push_entry(&mut e, "rows", JsonValue::Array(no_rows));
    JsonValue::push_entry(&mut e, "affected_rows", JsonValue::from_u64(affected));
    JsonValue::push_entry(&mut e, "truncated", JsonValue::from_bool(false));
    JsonValue::push_entry(&mut e, "pagination", JsonValue::Null);
    assert(entry_models(e@) =~= execute_response_spec(affected)->Object_0);
    JsonValue::Object(e)
}

/// The result of a successful connection test.
pub fn connection_ok() -> (r: JsonValue)
    ensures
        r@ == Json::Object(seq![("success"@, Json::Bool(true))]),
{
    let mut e: Vec<(String, JsonValue)> = Vec::new();
    JsonValue::push_entry(&mut e, "success", JsonValue::from_bool(true));
    assert(entry_models(e@) =~= seq![("success"@, Json::Bool(true))]);
    JsonValue::Object(e)
}

/// Renders the plan that `EXPLAIN PLAN FOR` last stored.
pub const DISPLAY_PLAN_SQL: &'static str = "SELECT plan_table_output FROM TABLE(DBMS_XPLAN.DISPLAY())";

/// `EXPLAIN PLAN FOR` the prepared statement.
pub fn explain_plan_sql(query: &str) -> (r: String)
    ensures
        r@ == "EXPLAIN PLAN FOR "@ + prepare_spec(query@),
{
    let mut sql = string_of("EXPLAIN PLAN FOR ");
    push_str(&mut sql, prepare_statement(query));
    sql
}

/// The host's `ExplainPlan` for a DBMS_XPLAN text rendering: Oracle's plan
/// output is a formatted text table, so it ships in `raw_output` under a
/// single root node rather than a parsed tree.
pub open spec fn text_plan_spec(query: Seq<char>, raw: Seq<char>, planning_time_ms: Json) -> Json {
    Json::Object(
        seq![
            ("root"@, Json::Object(seq![
                ("id"@, Json::Str("oracle-plan"@)),
                ("node_type"@, Json::Str("Oracle execution plan"@)),
                ("extra"@, Json::Object(seq![])),
                ("children"@, Json::Array(seq![])),
            ])),
            ("planning_time_ms"@, planning_time_ms),
            ("original_query"@, Json::Str(query)),
            ("driver"@, Json::Str("oracle"@)),
            ("has_analyze_data"@, Json::Bool(false)),
            ("raw_output"@, Json::Str(raw)),
        ],
    )
}

/// The host's `ExplainPlan` for a text plan, given how long planning took.
pub fn text_plan(query: String, raw: String, planning_time_ms: JsonValue) -> (r: JsonValue)
    ensures
        r@ == text_plan_spec(query@, raw@, planning_time_ms@),
{
    let extra: Vec<(String, JsonValue)> = Vec::new();
    let children: Vec<JsonValue> = Vec::new();
    assert(entry_models(extra@) =~= Seq::<(Seq<char>, Json)>::empty());
    assert(models(children@) =~= Seq::<Json>::empty());
    let mut root: Vec<(String, JsonValue)> = Vec::new();
    JsonValue::push_entry(&mut root, "id", JsonValue::from_str("oracle-plan"));
    JsonValue::push_entry(&mut root, "node_type", JsonValue::from_str("Oracle execution plan"));
    JsonValue::push_entry(&mut root, "extra", JsonValue::Object(extra));
    JsonValue::push_entry(&mut root, "children", JsonValue::Array(children));
    let ghost target = text_plan_spec(query@, raw@, planning_time_ms@);
    assert(entry_models(root@) =~= target->Object_0[0].1->Object_0);
    let mut e: Vec<(String, JsonValue)> = Vec::new();
    JsonValue::push_entry(&mut e, "root", JsonValue::Object(root));
    JsonValue::push_entry(&mut e, "planning_time_ms", planning_time_ms);
    JsonValue::push_entry(&mut e, "original_query", JsonValue::String(query));
    JsonValue::push_entry(&mut e, "driver", JsonValue::from_str("oracle"));
    JsonValue::push_entry(&mut e, "has_analyze_data", JsonValue::from_bool(false));
    JsonValue::push_entry(&mut e, "raw_output", JsonValue::String(raw));
    assert(entry_models(e@) =~= target->Object_0);
    JsonValue::Object(e)
}

/// A page reports at most `size` rows, the first ones fetched, and reports
/// more pages exactly when the look-ahead row came back.
pub proof fn lemma_page_rows(page: u64, size: u64, columns: Seq<String>, rows: Seq<Vec<JsonValue>>)
    ensures
        ({
            let r = page_response_spec(page, size, columns, rows)->Object_0;
            let reported = r[1].1->Array_0;
            &&& reported.len() == if rows.len() > size {
                size as int
            } else {
                rows.len() as int
            }
            &&& forall|i: int| 0 <= i < reported.len() ==> #[trigger] reported[i] == Json::Array(models(rows[i]@))
            &&& r[3].1 == Json::Bool(rows.len() > size)
            &&& r[4].1->Object_0[3].1 == Json::Bool(rows.len() > size)
        }),
{
}

/// How a statement runs: one that does not return rows is executed, its
/// affected rows reported; one that does is read whole, or one page at a
/// time when the request gives a positive `limit` (or, without a `limit`,
/// a positive `page_size`). A page starts `(page - 1) * size` rows in,
/// page 1 when none is given, and fetches one row more than the page to
/// learn whether more follow.
pub proof fn lemma_query_plans(query: Seq<char>, params: Json, plan: QueryPlan)
    requires
        plan_spec(query, params, plan),
    ensures
        ({
            let prepared = prepare_spec(query);
            let limit = params.get("limit"@);
            let page_size = params.get("page_size"@);
            let size: Option<u64> = match limit {
                Some(v) => match v.as_u64() {
                    Some(n) => Some(n),
                    None => match page_size {
                        Some(w) => w.as_u64(),
                        None => None,
                    },
                },
                None => match page_size {
                    Some(w) => w.as_u64(),
                    None => None,
                },
            };
            let page: u64 = match params.get("page"@) {
                Some(v) => match v.as_u64() {
                    Some(p) => p,
                    None => 1,
                },
                None => 1,
            };
            &&& !returns_rows_spec(prepared) ==> (plan matches QueryPlan::Execute { sql } && sql@
                == prepared)
            &&& returns_rows_spec(prepared) && (size is None || size == Some(0u64)) ==> (
            plan matches QueryPlan::Rows { sql } && sql@ == prepared)
            &&& returns_rows_spec(prepared) && size is Some && size->0 > 0 ==> (
            plan matches QueryPlan::Paged { sql, page: pg, size: sz } && pg == page && sz == size->0
                && sql@ == "SELECT * FROM ("@ + prepared + ") OFFSET "@ + dec(
                offset_spec(page, sz) as nat,
            ) + " ROWS FETCH NEXT "@ + dec((sz + 1) as nat) + " ROWS ONLY"@)
        }),
{
}

/// A statement without a result set reports no columns, no rows and its
/// affected-row count; a result read whole reports all its rows, each as
/// an array of its cells, untruncated and without pagination.
pub proof fn lemma_whole_responses(affected: u64, columns: Seq<String>, rows: Seq<Vec<JsonValue>>)
    ensures
        execute_response_spec(affected) == Json::Object(
            seq![
                ("columns"@, Json::Array(seq![])),
                ("rows"@, Json::Array(seq![])),
                ("affected_rows"@, Json::Int(affected as int)),
                ("truncated"@, Json::Bool(false)),
                ("pagination"@, Json::Null),
            ],
        ),
        rows_response_spec(columns, rows)->Object_0[1].1->Array_0.len() == rows.len(),
        forall|i: int|
            0 <= i < rows.len() ==> #[trigger] rows_response_spec(columns, rows)->Object_0[1].1->Array_0[i]
                == Json::Array(models(rows[i]@)),
        rows_response_spec(columns, rows)->Object_0[3] == ("truncated"@, Json::Bool(false)),
        rows_response_spec(columns, rows)->Object_0[4] == ("pagination"@, Json::Null),
{
}

} // verus!
