//! `explain_query`: capture Oracle's execution plan and hand it to the host
//! as raw output for the plugin-owned TypeScript parser (`explain/`).
//!
//! The host recognizes `{ engine, format, payload, original_query }` as raw
//! EXPLAIN output and dispatches `payload` to the parser registered for
//! `format`. This module decides which statements capture a plan and shapes
//! the captured rows; tree building and metric mapping live in TypeScript.
//!
//! - Estimated plans use `EXPLAIN PLAN SET STATEMENT_ID ... FOR` and read the
//!   rows back from `PLAN_TABLE` (a session-private temporary table on 12c+).
//! - `analyze` executes the statement with `STATISTICS_LEVEL = ALL`, then reads
//!   the cursor's per-operation runtime statistics from
//!   `V$SQL_PLAN_STATISTICS_ALL`. It is limited to queries, so a plan request
//!   never modifies data.
use vstd::prelude::*;

use crate::client::QueryResult;
use crate::error::{res_view, PluginError, INTERNAL_ERROR, INVALID_PARAMS};
use crate::json::{entry_models, models, Json, JsonValue};
use crate::text::{
    contains, dec, is_digit, join, join_strings, lemma_dec_digits, push_dec, push_str, seq_contains,
    string_of, views,
};
use crate::utils::sql::{returns_rows, returns_rows_spec};

verus! {

/// Wire-format tag shared with `explain/src/parser.ts`.
pub const FORMAT: &'static str = "oracle-plan-json";

/// Bumped only on an incompatible payload change.
pub const PAYLOAD_VERSION: u64 = 1;

/// Plan columns common to `PLAN_TABLE` and `V$SQL_PLAN_STATISTICS_ALL`.
pub const PLAN_COLUMNS: &'static str = "id, parent_id, depth, position, operation, options, object_owner, object_name, object_alias, object_type, optimizer, cost, cardinality, bytes, cpu_cost, io_cost, time, partition_start, partition_stop, access_predicates, filter_predicates, projection, qblock_name";

/// The plan rows of one statement id (binds 1 and 2: the statement id).
pub const PLAN_ROWS_SQL: &'static str = "SELECT id, parent_id, depth, position, operation, options, object_owner, object_name, object_alias, object_type, optimizer, cost, cardinality, bytes, cpu_cost, io_cost, time, partition_start, partition_stop, access_predicates, filter_predicates, projection, qblock_name FROM plan_table WHERE statement_id = :1 AND plan_id = (SELECT MAX(plan_id) FROM plan_table WHERE statement_id = :2) ORDER BY id";

/// The DBMS_XPLAN rendering of one statement id (bind 1).
pub const PLAN_TEXT_SQL: &'static str = "SELECT plan_table_output FROM TABLE(DBMS_XPLAN.DISPLAY('PLAN_TABLE', :1, 'TYPICAL'))";

/// Removes the plan rows of one statement id (bind 1).
pub const DELETE_PLAN_SQL: &'static str = "DELETE FROM plan_table WHERE statement_id = :1";

/// Turns on runtime statistics for the session.
pub const STATISTICS_ALL_SQL: &'static str = "ALTER SESSION SET STATISTICS_LEVEL = ALL";

/// Restores the default statistics level.
pub const STATISTICS_TYPICAL_SQL: &'static str = "ALTER SESSION SET STATISTICS_LEVEL = TYPICAL";

/// The cursor the session executed last.
pub const PREVIOUS_CURSOR_SQL: &'static str = "SELECT prev_sql_id, prev_child_number FROM v$session WHERE sid = SYS_CONTEXT('USERENV', 'SID')";

/// The runtime plan rows of a cursor (binds: sql id, child number).
pub const RUNTIME_ROWS_SQL: &'static str = "SELECT id, parent_id, depth, position, operation, options, object_owner, object_name, object_alias, object_type, optimizer, cost, cardinality, bytes, cpu_cost, io_cost, time, partition_start, partition_stop, access_predicates, filter_predicates, projection, qblock_name, last_starts AS starts, last_output_rows AS actual_rows, last_elapsed_time AS elapsed_us, last_cr_buffer_gets AS cr_buffer_gets, last_cu_buffer_gets AS cu_buffer_gets, last_disk_reads AS disk_reads FROM v$sql_plan_statistics_all WHERE sql_id = :1 AND child_number = :2 ORDER BY id";

/// The DBMS_XPLAN rendering of a cursor's last execution (binds: sql id,
/// child number).
pub const CURSOR_TEXT_SQL: &'static str = "SELECT plan_table_output FROM TABLE(DBMS_XPLAN.DISPLAY_CURSOR(:1, :2, 'ALLSTATS LAST +COST +BYTES'))";

/// The statement id of the `seq`-th estimated plan of process `pid`.
pub open spec fn statement_id_spec(pid: u32, seq: u64) -> Seq<char> {
    "TABULARIS_"@ + dec(pid as nat) + "_"@ + dec(seq as nat)
}

/// The plugin-generated statement id of an estimated plan.
pub fn statement_id(pid: u32, seq: u64) -> (r: String)
    ensures
        r@ == statement_id_spec(pid, seq),
{
    let mut id = string_of("TABULARIS_");
    push_dec(&mut id, pid as u128);
    push_str(&mut id, "_");
    push_dec(&mut id, seq as u128);
    id
}

/// Statement ids are made of upper-case letters, digits and underscores
/// only, so quoting one into the EXPLAIN PLAN clause cannot end the string
/// literal early and inject SQL.
pub proof fn lemma_statement_id_safe(pid: u32, seq: u64)
    ensures
        forall|i: int|
            0 <= i < statement_id_spec(pid, seq).len() ==> {
                let c = #[trigger] statement_id_spec(pid, seq)[i];
                ('A' <= c && c <= 'Z') || is_digit(c) || c == '_'
            },
        !seq_contains(statement_id_spec(pid, seq), "'"@),
{
    reveal_strlit("TABULARIS_");
    reveal_strlit("_");
    reveal_strlit("'");
    lemma_dec_digits(pid as nat);
    lemma_dec_digits(seq as nat);
    let a = "TABULARIS_"@;
    let b = dec(pid as nat);
    let c = "_"@;
    let d = dec(seq as nat);
    let id = statement_id_spec(pid, seq);
    assert(id == a + b + c + d);
    assert forall|i: int| 0 <= i < id.len() implies {
        let ch = #[trigger] id[i];
        ('A' <= ch && ch <= 'Z') || is_digit(ch) || ch == '_'
    } by {
        if i < a.len() {
            assert(id[i] == a[i]);
        } else if i < a.len() + b.len() {
            assert(id[i] == b[i - a.len()]);
        } else if i < a.len() + b.len() + c.len() {
            assert(id[i] == c[i - a.len() - b.len()]);
        } else {
            assert(id[i] == d[i - a.len() - b.len() - c.len()]);
        }
    }
    assert forall|k: int| !crate::text::occurs_at(id, "'"@, k) by {
        if crate::text::occurs_at(id, "'"@, k) {
            assert(id.subrange(k, k + 1)[0] == id[k]);
        }
    }
}

/// `EXPLAIN PLAN` for `statement`, filed under `statement_id`.
pub fn explain_into_sql(statement_id: &str, statement: &str) -> (r: String)
    ensures
        r@ == "EXPLAIN PLAN SET STATEMENT_ID = '"@ + statement_id@ + "' FOR "@ + statement@,
{
    let mut sql = string_of("EXPLAIN PLAN SET STATEMENT_ID = '");
    push_str(&mut sql, statement_id);
    push_str(&mut sql, "' FOR ");
    push_str(&mut sql, statement);
    sql
}

/// Whether the request asks for runtime statistics.
pub fn analyze_requested(params: &JsonValue) -> (r: bool)
    ensures
        r == match params@.get("analyze"@) {
            Some(v) => v.as_bool() == Some(true),
            None => false,
        },
{
    match params.get("analyze") {
        Some(v) => match v.as_bool() {
            Some(b) => b,
            None => false,
        },
        None => false,
    }
}

/// The message refusing to execute a statement that is not a query.
pub open spec fn analyze_refusal() -> Seq<char> {
    "EXPLAIN ANALYZE executes the statement, so the Oracle driver only allows it for SELECT/WITH queries"@
}

/// EXPLAIN ANALYZE executes the statement, so only queries are allowed.
pub fn check_analyzable(statement: &str) -> (r: Result<(), PluginError>)
    ensures
        r is Ok <==> returns_rows_spec(statement@),
        match r {
            Ok(_) => true,
            Err(e) => e@ == (INVALID_PARAMS, analyze_refusal()),
        },
{
    if !returns_rows(statement) {
        return Err(
            PluginError::invalid_params(
                string_of(
                    "EXPLAIN ANALYZE executes the statement, so the Oracle driver only allows it for SELECT/WITH queries",
                ),
            ),
        );
    }
    Ok(())
}

/// The executed cursor: a string SQL id and the child number, from the
/// first row of the V$SESSION lookup.
pub open spec fn cursor_spec(rows: Seq<Vec<JsonValue>>) -> Result<(Seq<char>, Json), (i64, Seq<char>)> {
    if rows.len() > 0 && rows[0]@.len() >= 2 && rows[0]@[0]@ is Str {
        Ok((rows[0]@[0]@->Str_0, rows[0]@[1]@))
    } else {
        Err((INTERNAL_ERROR, "could not identify the executed cursor in V$SESSION"@))
    }
}

/// Identify the executed cursor from the V$SESSION lookup.
pub fn executed_cursor(result: &QueryResult) -> (r: Result<(String, JsonValue), PluginError>)
    ensures
        match r {
            Ok(c) => cursor_spec(result.rows@) == Ok::<(Seq<char>, Json), (i64, Seq<char>)>(
                (c.0@, c.1@),
            ),
            Err(e) => cursor_spec(result.rows@) == Err::<(Seq<char>, Json), (i64, Seq<char>)>(e@),
        },
{
    if result.rows.len() > 0 && result.rows[0].len() >= 2 {
        match &result.rows[0][0] {
            JsonValue::String(sql_id) => {
                return Ok((sql_id.clone(), result.rows[0][1].duplicate()));
            },
            _ => {},
        }
    }
    Err(
        PluginError::internal(string_of("could not identify the executed cursor in V$SESSION")),
    )
}

/// The hint appended when runtime statistics are not readable.
pub open spec fn privilege_hint() -> Seq<char> {
    ". EXPLAIN ANALYZE needs SELECT on V$SESSION and V$SQL_PLAN_STATISTICS_ALL (for example through SELECT_CATALOG_ROLE)"@
}

/// Runtime plan statistics live in dynamic performance views that ordinary
/// application accounts often cannot read: a missing-view error (ORA-00942)
/// gets a hint about the privileges, any other error passes unchanged.
pub fn missing_privilege_hint(err: PluginError) -> (r: PluginError)
    ensures
        r.code == err.code,
        r.message@ == if seq_contains(err.message@, "ORA-00942"@) {
            err.message@ + privilege_hint()
        } else {
            err.message@
        },
{
    if contains(err.message.as_str(), "ORA-00942") {
        let mut m = err.message;
        push_str(
            &mut m,
            ". EXPLAIN ANALYZE needs SELECT on V$SESSION and V$SQL_PLAN_STATISTICS_ALL (for example through SELECT_CATALOG_ROLE)",
        );
        PluginError { code: err.code, message: m }
    } else {
        err
    }
}

/// The strings in the first cell of each row, in order.
pub open spec fn first_strings(rows: Seq<Vec<JsonValue>>) -> Seq<Seq<char>>
    decreases rows.len(),
{
    if rows.len() == 0 {
        seq![]
    } else {
        let prev = first_strings(rows.drop_last());
        let row = rows.last()@;
        if row.len() > 0 && row[0]@ is Str {
            prev.push(row[0]@->Str_0)
        } else {
            prev
        }
    }
}

/// The text rendering of a plan: the first-column strings, one per line.
pub fn plan_text(result: &QueryResult) -> (r: String)
    ensures
        r@ == join(first_strings(result.rows@), "\n"@),
{
    let ghost rows = result.rows@;
    let mut lines: Vec<String> = Vec::new();
    let mut i: usize = 0;
    assert(rows.take(0) =~= Seq::<Vec<JsonValue>>::empty());
    assert(views(lines@) =~= Seq::<Seq<char>>::empty());
    while i < result.rows.len()
        invariant
            i <= rows.len(),
            rows == result.rows@,
            views(lines@) == first_strings(rows.take(i as int)),
        decreases rows.len() - i,
    {
        assert(rows.take(i + 1).drop_last() =~= rows.take(i as int));
        assert(rows.take(i + 1).last() == rows[i as int]);
        let row = &result.rows[i];
        if row.len() > 0 {
            match &row[0] {
                JsonValue::String(s) => {
                    let ghost before = views(lines@);
                    lines.push(s.clone());
                    assert(views(lines@) =~= before.push(s@));
                },
                _ => {},
            }
        }
        i = i + 1;
    }
    assert(rows.take(rows.len() as int) =~= rows);
    join_strings(&lines, "\n")
}

/// Names what `str::to_lowercase` returns: the Unicode lowercase mapping.
pub uninterp spec fn unicode_lowercase(s: Seq<char>) -> Seq<char>;

/// `str::to_lowercase`. Trusted: the result is the string's Unicode
/// lowercase mapping, which depends on the string alone.
#[verifier::external_body]
fn to_lowercase(s: &str) -> (r: String)
    ensures
        r@ == unicode_lowercase(s@),
{
    s.to_lowercase()
}

/// A plan row as an object keyed by the columns, pairing them up to the
/// shorter of the two.
pub open spec fn keyed_row(columns: Seq<Seq<char>>, row: Seq<Json>) -> Seq<(Seq<char>, Json)> {
    let n = if columns.len() <= row.len() {
        columns.len()
    } else {
        row.len()
    };
    Seq::new(n, |i: int| (columns[i], row[i]))
}

/// The lowercase column names of a plan result.
pub open spec fn plan_keys(columns: Seq<String>) -> Seq<Seq<char>> {
    columns.map_values(|c: String| unicode_lowercase(c@))
}

/// The `oracle-plan-json` payload: plan rows keyed by lowercase column
/// name, plus the DBMS_XPLAN text rendering for the raw view.
pub open spec fn payload_spec(rows: QueryResult, text: QueryResult, statistics: bool) -> Json {
    let keys = plan_keys(rows.columns@);
    Json::Object(
        seq![
            ("version"@, Json::Int(PAYLOAD_VERSION as int)),
            ("statistics"@, Json::Bool(statistics)),
            ("plan"@, Json::Array(rows.rows@.map_values(|r: Vec<JsonValue>| Json::Object(keyed_row(keys, models(r@)))))),
            ("text"@, Json::Str(join(first_strings(text.rows@), "\n"@))),
        ],
    )
}

/// One plan row keyed by the (lowercase) column names.
fn keyed_object(keys: &Vec<String>, row: &Vec<JsonValue>) -> (r: JsonValue)
    ensures
        r@ == Json::Object(keyed_row(views(keys@), models(row@))),
{
    let ghost m = models(row@);
    proof {
        crate::json::lemma_models(row@);
    }
    let n = if keys.len() <= row.len() {
        keys.len()
    } else {
        row.len()
    };
    let mut e: Vec<(String, JsonValue)> = Vec::new();
    let mut i: usize = 0;
    while i < n
        invariant
            i <= n,
            n <= keys@.len(),
            n <= row@.len(),
            n == (if keys@.len() <= row@.len() {
                keys@.len()
            } else {
                row@.len()
            }),
            m == models(row@),
            m.len() == row@.len(),
            forall|j: int| 0 <= j < row@.len() ==> #[trigger] m[j] == row@[j]@,
            entry_models(e@) == keyed_row(views(keys@), m).take(i as int),
        decreases n - i,
    {
        let value = row[i].duplicate();
        JsonValue::push_entry(&mut e, keys[i].as_str(), value);
        assert(entry_models(e@) =~= keyed_row(views(keys@), m).take(i + 1));
        i = i + 1;
    }
    assert(keyed_row(views(keys@), m).take(n as int) =~= keyed_row(views(keys@), m));
    JsonValue::Object(e)
}

/// A payload holds, in order, its version, the statistics flag it was
/// built with, the plan and the text. The plan has exactly one entry per
/// plan row, in the rows' order: entry `i` is an object that pairs each
/// column name, lowercased, with row `i`'s cell in that column, up to the
/// shorter of the column list and the row. The text is the first-column
/// strings of the text rows, one per line.
pub proof fn lemma_payload_shape(rows: QueryResult, text: QueryResult, statistics: bool)
    ensures
        payload_spec(rows, text, statistics) is Object,
        payload_spec(rows, text, statistics)->Object_0.len() == 4,
        payload_spec(rows, text, statistics)->Object_0[0] == ("version"@, Json::Int(1)),
        payload_spec(rows, text, statistics)->Object_0[1] == ("statistics"@, Json::Bool(statistics)),
        payload_spec(rows, text, statistics)->Object_0[2].0 == "plan"@,
        payload_spec(rows, text, statistics)->Object_0[2].1 is Array,
        payload_spec(rows, text, statistics)->Object_0[2].1->Array_0.len() == rows.rows@.len(),
        forall|i: int|
            0 <= i < rows.rows@.len() ==> {
                &&& (#[trigger] payload_spec(rows, text, statistics)->Object_0[2].1->Array_0[i]) is Object
                &&& payload_spec(rows, text, statistics)->Object_0[2].1->Array_0[i]->Object_0.len()
                    == if rows.columns@.len() <= rows.rows@[i]@.len() {
                    rows.columns@.len()
                } else {
                    rows.rows@[i]@.len()
                }
                &&& forall|j: int|
                    0 <= j < payload_spec(rows, text, statistics)->Object_0[2].1->Array_0[i]->Object_0.len()
                        ==> #[trigger] payload_spec(rows, text, statistics)->Object_0[2].1->Array_0[i]->Object_0[j]
                        == (unicode_lowercase(rows.columns@[j]@), rows.rows@[i]@[j]@)
            },
        payload_spec(rows, text, statistics)->Object_0[3] == (
            "text"@,
            Json::Str(join(first_strings(text.rows@), "\n"@)),
        ),
{
    let plan = payload_spec(rows, text, statistics)->Object_0[2].1->Array_0;
    assert forall|i: int| 0 <= i < rows.rows@.len() implies {
        &&& (#[trigger] plan[i]) is Object
        &&& plan[i]->Object_0.len() == if rows.columns@.len() <= rows.rows@[i]@.len() {
            rows.columns@.len()
        } else {
            rows.rows@[i]@.len()
        }
        &&& forall|j: int|
            0 <= j < plan[i]->Object_0.len() ==> #[trigger] plan[i]->Object_0[j] == (
                unicode_lowercase(rows.columns@[j]@),
                rows.rows@[i]@[j]@,
            )
    } by {
        crate::json::lemma_models(rows.rows@[i]@);
    }
}

/// Build the `oracle-plan-json` payload.
pub fn payload(rows: &QueryResult, text: &QueryResult, statistics: bool) -> (r: JsonValue)
    ensures
        r@ == payload_spec(*rows, *text, statistics),
{
    let mut keys: Vec<String> = Vec::new();
    let mut k: usize = 0;
    while k < rows.columns.len()
        invariant
            k <= rows.columns@.len(),
            views(keys@) == plan_keys(rows.columns@).take(k as int),
        decreases rows.columns@.len() - k,
    {
        let ghost before = views(keys@);
        let lowered = to_lowercase(rows.columns[k].as_str());
        keys.push(lowered);
        assert(views(keys@) =~= before.push(lowered@));
        assert(plan_keys(rows.columns@).take(k + 1) =~= plan_keys(rows.columns@).take(
            k as int,
        ).push(unicode_lowercase(rows.columns@[k as int]@)));
        k = k + 1;
    }
    assert(plan_keys(rows.columns@).take(rows.columns@.len() as int) =~= plan_keys(
        rows.columns@,
    ));
    let ghost keyed = rows.rows@.map_values(
        |r: Vec<JsonValue>| Json::Object(keyed_row(plan_keys(rows.columns@), models(r@))),
    );
    let mut plan: Vec<JsonValue> = Vec::new();
    let mut i: usize = 0;
    while i < rows.rows.len()
        invariant
            i <= rows.rows@.len(),
            views(keys@) == plan_keys(rows.columns@),
            keyed == rows.rows@.map_values(
                |r: Vec<JsonValue>| Json::Object(keyed_row(plan_keys(rows.columns@), models(r@))),
            ),
            models(plan@) == keyed.take(i as int),
        decreases rows.rows@.len() - i,
    {
        let object = keyed_object(&keys, &rows.rows[i]);
        JsonValue::push_item(&mut plan, object);
        assert(models(plan@) =~= keyed.take(i + 1));
        i = i + 1;
    }
    assert(keyed.take(rows.rows@.len() as int) =~= keyed);
    let t = plan_text(text);
    let mut e: Vec<(String, JsonValue)> = Vec::new();
    JsonValue::push_entry(&mut e, "version", JsonValue::from_u64(PAYLOAD_VERSION));
    JsonValue::push_entry(&mut e, "statistics", JsonValue::from_bool(statistics));
    JsonValue::push_entry(&mut e, "plan", JsonValue::Array(plan));
    JsonValue::push_entry(&mut e, "text", JsonValue::String(t));
    assert(entry_models(e@) =~= payload_spec(*rows, *text, statistics)->Object_0);
    JsonValue::Object(e)
}

/// The raw-EXPLAIN response, given the payload's JSON text.
pub fn explain_response(query: String, payload_text: String) -> (r: JsonValue)
    ensures
        r@ == Json::Object(
            seq![
                ("engine"@, Json::Str("oracle"@)),
                ("format"@, Json::Str(FORMAT@)),
                ("payload"@, Json::Str(payload_text@)),
                ("original_query"@, Json::Str(query@)),
            ],
        ),
{
    let mut e: Vec<(String, JsonValue)> = Vec::new();
    JsonValue::push_entry(&mut e, "engine", JsonValue::from_str("oracle"));
    JsonValue::push_entry(&mut e, "format", JsonValue::from_str(FORMAT));
    JsonValue::push_entry(&mut e, "payload", JsonValue::String(payload_text));
    JsonValue::push_entry(&mut e, "original_query", JsonValue::String(query));
    assert(entry_models(e@) =~= seq![
        ("engine"@, Json::Str("oracle"@)),
        ("format"@, Json::Str(FORMAT@)),
        ("payload"@, Json::Str(payload_text@)),
        ("original_query"@, Json::Str(query@)),
    ]);
    JsonValue::Object(e)
}

// ---------------------------------------------------------------------------
// Capturing a plan, step by step
// ---------------------------------------------------------------------------

/// The next thing a plan capture asks the program to do against the
/// session. `Execute` and `Drain` report success as an empty result.
pub enum ExplainAction {
    /// Run a statement without a result set, with these binds.
    Execute(String, Vec<JsonValue>),
    /// Run a query to its end, discarding the rows.
    Drain(String),
    /// Run a query and report its rows.
    Query(String, Vec<JsonValue>),
    /// The capture is over, with this result.
    Finish(Result<JsonValue, PluginError>),
}

/// A step of a plan capture by its statement text, binds and outcome.
pub enum PlanStep {
    Execute(Seq<char>, Seq<Json>),
    Drain(Seq<char>),
    Query(Seq<char>, Seq<Json>),
    Finish(Result<Json, (i64, Seq<char>)>),
}

impl View for ExplainAction {
    type V = PlanStep;

    open spec fn view(&self) -> PlanStep {
        match self {
            ExplainAction::Execute(sql, args) => PlanStep::Execute(sql@, models(args@)),
            ExplainAction::Drain(sql) => PlanStep::Drain(sql@),
            ExplainAction::Query(sql, args) => PlanStep::Query(sql@, models(args@)),
            ExplainAction::Finish(r) => PlanStep::Finish(res_view(*r)),
        }
    }
}

/// What the program reports after a step: the rows of a query, an empty
/// result for a statement or a drain, or the error.
pub open spec fn event_view(event: Result<QueryResult, PluginError>) -> Result<
    QueryResult,
    (i64, Seq<char>),
> {
    match event {
        Ok(q) => Ok(q),
        Err(e) => Err(e@),
    }
}

/// The error of a runtime-statistics read, with the privilege hint when a
/// view is missing.
pub open spec fn hint_spec(e: (i64, Seq<char>)) -> (i64, Seq<char>) {
    (
        e.0,
        if seq_contains(e.1, "ORA-00942"@) {
            e.1 + privilege_hint()
        } else {
            e.1
        },
    )
}

/// Where an EXPLAIN ANALYZE stands.
pub enum AnalyzeState {
    /// `STATISTICS_LEVEL = ALL` was issued.
    Raising,
    /// The statement is being executed to its end.
    Draining,
    /// The executed cursor is being looked up.
    ReadingCursor,
    /// `STATISTICS_LEVEL = TYPICAL` was issued; the cursor lookup's outcome
    /// waits for it.
    Restoring(Result<QueryResult, PluginError>),
    /// The runtime plan rows of the cursor (sql id, child) are being read.
    ReadingRows(String, JsonValue),
    /// The cursor's text rendering is being read, after these plan rows.
    ReadingText(QueryResult, String, JsonValue),
    /// The capture finished.
    Done,
}

/// `AnalyzeState` by its values.
pub enum AnalyzePhase {
    Raising,
    Draining,
    ReadingCursor,
    Restoring(Result<QueryResult, (i64, Seq<char>)>),
    ReadingRows(Seq<char>, Json),
    ReadingText(QueryResult, Seq<char>, Json),
    Done,
}

impl View for AnalyzeState {
    type V = AnalyzePhase;

    open spec fn view(&self) -> AnalyzePhase {
        match self {
            AnalyzeState::Raising => AnalyzePhase::Raising,
            AnalyzeState::Draining => AnalyzePhase::Draining,
            AnalyzeState::ReadingCursor => AnalyzePhase::ReadingCursor,
            AnalyzeState::Restoring(c) => AnalyzePhase::Restoring(event_view(*c)),
            AnalyzeState::ReadingRows(id, child) => AnalyzePhase::ReadingRows(id@, child@),
            AnalyzeState::ReadingText(rows, id, child) => AnalyzePhase::ReadingText(
                *rows,
                id@,
                child@,
            ),
            AnalyzeState::Done => AnalyzePhase::Done,
        }
    }
}

/// The first step of EXPLAIN ANALYZE: a statement that returns no rows is
/// refused before anything runs, so a plan request never modifies data;
/// otherwise the session's statistics level is raised.
pub open spec fn analyze_start_spec(statement: Seq<char>) -> (AnalyzePhase, PlanStep) {
    if returns_rows_spec(statement) {
        (AnalyzePhase::Raising, PlanStep::Execute(STATISTICS_ALL_SQL@, seq![]))
    } else {
        (AnalyzePhase::Done, PlanStep::Finish(Err((INVALID_PARAMS, analyze_refusal()))))
    }
}

/// The step after each reported outcome. The statement runs only after
/// the level was raised; the cursor is looked up only when it ran; the
/// level is reset whatever the run and the lookup gave, and their error is
/// the one finished with, after the reset. The cursor's runtime rows and
/// text rendering follow.
pub open spec fn analyze_next_spec(
    statement: Seq<char>,
    phase: AnalyzePhase,
    event: Result<QueryResult, (i64, Seq<char>)>,
) -> (AnalyzePhase, PlanStep) {
    let reset = PlanStep::Execute(STATISTICS_TYPICAL_SQL@, seq![]);
    match phase {
        AnalyzePhase::Raising => match event {
            Err(e) => (AnalyzePhase::Done, PlanStep::Finish(Err(e))),
            Ok(_) => (AnalyzePhase::Draining, PlanStep::Drain(statement)),
        },
        AnalyzePhase::Draining => match event {
            Err(e) => (AnalyzePhase::Restoring(Err(e)), reset),
            Ok(_) => (AnalyzePhase::ReadingCursor, PlanStep::Query(PREVIOUS_CURSOR_SQL@, seq![])),
        },
        AnalyzePhase::ReadingCursor => match event {
            Err(e) => (AnalyzePhase::Restoring(Err(hint_spec(e))), reset),
            Ok(c) => (AnalyzePhase::Restoring(Ok(c)), reset),
        },
        AnalyzePhase::Restoring(cursor) => match cursor {
            Err(e) => (AnalyzePhase::Done, PlanStep::Finish(Err(e))),
            Ok(c) => match cursor_spec(c.rows@) {
                Err(e) => (AnalyzePhase::Done, PlanStep::Finish(Err(e))),
                Ok(found) => (
                    AnalyzePhase::ReadingRows(found.0, found.1),
                    PlanStep::Query(RUNTIME_ROWS_SQL@, seq![Json::Str(found.0), found.1]),
                ),
            },
        },
        AnalyzePhase::ReadingRows(id, child) => match event {
            Err(e) => (AnalyzePhase::Done, PlanStep::Finish(Err(hint_spec(e)))),
            Ok(rows) => (
                AnalyzePhase::ReadingText(rows, id, child),
                PlanStep::Query(CURSOR_TEXT_SQL@, seq![Json::Str(id), child]),
            ),
        },
        AnalyzePhase::ReadingText(rows, _, _) => match event {
            Err(e) => (AnalyzePhase::Done, PlanStep::Finish(Err(e))),
            Ok(text) => (AnalyzePhase::Done, PlanStep::Finish(Ok(payload_spec(rows, text, true)))),
        },
        AnalyzePhase::Done => (AnalyzePhase::Done, PlanStep::Finish(Err((INTERNAL_ERROR, seq![])))),
    }
}

fn no_binds() -> (r: Vec<JsonValue>)
    ensures
        models(r@) == Seq::<Json>::empty(),
{
    let v: Vec<JsonValue> = Vec::new();
    assert(models(v@) =~= Seq::<Json>::empty());
    v
}

fn binds_of(first: JsonValue, second: Option<JsonValue>) -> (r: Vec<JsonValue>)
    ensures
        models(r@) == match second {
            Some(x) => seq![first@, x@],
            None => seq![first@],
        },
{
    let mut v: Vec<JsonValue> = Vec::new();
    assert(models(v@) =~= Seq::<Json>::empty());
    let ghost a = first@;
    JsonValue::push_item(&mut v, first);
    match second {
        Some(x) => {
            let ghost b = x@;
            JsonValue::push_item(&mut v, x);
            assert(models(v@) =~= seq![a, b]);
        },
        None => {
            assert(models(v@) =~= seq![a]);
        },
    }
    v
}

/// The first step of EXPLAIN ANALYZE for `statement`.
pub fn analyze_start(statement: &str) -> (r: (AnalyzeState, ExplainAction))
    ensures
        (r.0@, r.1@) == analyze_start_spec(statement@),
{
    match check_analyzable(statement) {
        Err(e) => (AnalyzeState::Done, ExplainAction::Finish(Err(e))),
        Ok(_) => (
            AnalyzeState::Raising,
            ExplainAction::Execute(string_of(STATISTICS_ALL_SQL), no_binds()),
        ),
    }
}

/// The step of EXPLAIN ANALYZE after the program reports the outcome of
/// the last one. A finished capture has no further step: asked again, it
/// finishes with an internal error.
pub fn analyze_next(
    statement: &str,
    state: AnalyzeState,
    event: Result<QueryResult, PluginError>,
) -> (r: (AnalyzeState, ExplainAction))
    ensures
        (r.0@, r.1@) == analyze_next_spec(statement@, state@, event_view(event)),
{
    match state {
        AnalyzeState::Raising => match event {
            Err(e) => (AnalyzeState::Done, ExplainAction::Finish(Err(e))),
            Ok(_) => (AnalyzeState::Draining, ExplainAction::Drain(string_of(statement))),
        },
        AnalyzeState::Draining => match event {
            Err(e) => (
                AnalyzeState::Restoring(Err(e)),
                ExplainAction::Execute(string_of(STATISTICS_TYPICAL_SQL), no_binds()),
            ),
            Ok(_) => (
                AnalyzeState::ReadingCursor,
                ExplainAction::Query(string_of(PREVIOUS_CURSOR_SQL), no_binds()),
            ),
        },
        AnalyzeState::ReadingCursor => {
            let cursor = match event {
                Err(e) => Err(missing_privilege_hint(e)),
                Ok(c) => Ok(c),
            };
            (
                AnalyzeState::Restoring(cursor),
                ExplainAction::Execute(string_of(STATISTICS_TYPICAL_SQL), no_binds()),
            )
        },
        AnalyzeState::Restoring(cursor) => match cursor {
            Err(e) => (AnalyzeState::Done, ExplainAction::Finish(Err(e))),
            Ok(c) => match executed_cursor(&c) {
                Err(e) => (AnalyzeState::Done, ExplainAction::Finish(Err(e))),
                Ok(found) => {
                    let (id, child) = found;
                    let binds = binds_of(JsonValue::String(id.clone()), Some(child.duplicate()));
                    (
                        AnalyzeState::ReadingRows(id, child),
                        ExplainAction::Query(string_of(RUNTIME_ROWS_SQL), binds),
                    )
                },
            },
        },
        AnalyzeState::ReadingRows(id, child) => match event {
            Err(e) => (AnalyzeState::Done, ExplainAction::Finish(Err(missing_privilege_hint(e)))),
            Ok(rows) => {
                let binds = binds_of(JsonValue::String(id.clone()), Some(child.duplicate()));
                (
                    AnalyzeState::ReadingText(rows, id, child),
                    ExplainAction::Query(string_of(CURSOR_TEXT_SQL), binds),
                )
            },
        },
        AnalyzeState::ReadingText(rows, _, _) => match event {
            Err(e) => (AnalyzeState::Done, ExplainAction::Finish(Err(e))),
            Ok(text) => (
                AnalyzeState::Done,
                ExplainAction::Finish(Ok(payload(&rows, &text, true))),
            ),
        },
        AnalyzeState::Done => (AnalyzeState::Done, ExplainAction::Finish(Err(PluginError::internal(String::new())))),
    }
}

/// The steps of EXPLAIN ANALYZE from `phase` on, given the outcomes the
/// program reports, up to the finish.
pub open spec fn analyze_steps(
    statement: Seq<char>,
    phase: AnalyzePhase,
    events: Seq<Result<QueryResult, (i64, Seq<char>)>>,
) -> Seq<PlanStep>
    decreases events.len(),
{
    if events.len() == 0 || phase is Done {
        seq![]
    } else {
        let next = analyze_next_spec(statement, phase, events[0]);
        seq![next.1] + analyze_steps(statement, next.0, events.drop_first())
    }
}

/// The steps of a whole EXPLAIN ANALYZE run.
pub open spec fn analyze_run(
    statement: Seq<char>,
    events: Seq<Result<QueryResult, (i64, Seq<char>)>>,
) -> Seq<PlanStep> {
    let first = analyze_start_spec(statement);
    seq![first.1] + analyze_steps(statement, first.0, events)
}

/// EXPLAIN ANALYZE, over the outcomes of raising the level, running the
/// statement, looking up the cursor, resetting the level, and reading the
/// runtime rows and the text:
/// - a statement that returns no rows is refused with INVALID_PARAMS
///   before anything runs, so a plan request never modifies data;
/// - once the level was raised, it is reset before the finish;
/// - a failure to run the statement or to look up the cursor is the error
///   finished with, after the reset;
/// - when every step succeeds, the payload holds the runtime rows and the
///   text of the executed cursor.
pub proof fn lemma_analyze_run(
    statement: Seq<char>,
    raised: Result<QueryResult, (i64, Seq<char>)>,
    drained: Result<QueryResult, (i64, Seq<char>)>,
    cursor: Result<QueryResult, (i64, Seq<char>)>,
    reset: Result<QueryResult, (i64, Seq<char>)>,
    rows: Result<QueryResult, (i64, Seq<char>)>,
    text: Result<QueryResult, (i64, Seq<char>)>,
)
    ensures
        ({
            let run = analyze_run(statement, seq![raised, drained, cursor, reset, rows, text]);
            let raise = PlanStep::Execute(STATISTICS_ALL_SQL@, seq![]);
            let lower = PlanStep::Execute(STATISTICS_TYPICAL_SQL@, seq![]);
            let look_up = PlanStep::Query(PREVIOUS_CURSOR_SQL@, seq![]);
            &&& !returns_rows_spec(statement) ==> run == seq![
                PlanStep::Finish(Err((INVALID_PARAMS, analyze_refusal()))),
            ]
            &&& returns_rows_spec(statement) && raised is Err ==> run == seq![
                raise,
                PlanStep::Finish(Err(raised->Err_0)),
            ]
            &&& returns_rows_spec(statement) && raised is Ok && drained is Err ==> run == seq![
                raise,
                PlanStep::Drain(statement),
                lower,
                PlanStep::Finish(Err(drained->Err_0)),
            ]
            &&& returns_rows_spec(statement) && raised is Ok && drained is Ok && cursor is Err
                ==> run == seq![
                raise,
                PlanStep::Drain(statement),
                look_up,
                lower,
                PlanStep::Finish(Err(hint_spec(cursor->Err_0))),
            ]
            &&& returns_rows_spec(statement) && raised is Ok && drained is Ok && cursor is Ok ==> {
                &&& run.subrange(0, 4) == seq![raise, PlanStep::Drain(statement), look_up, lower]
                &&& cursor_spec(cursor->Ok_0.rows@) is Err ==> run == seq![
                    raise,
                    PlanStep::Drain(statement),
                    look_up,
                    lower,
                    PlanStep::Finish(Err(cursor_spec(cursor->Ok_0.rows@)->Err_0)),
                ]
                &&& cursor_spec(cursor->Ok_0.rows@) is Ok && rows is Ok && text is Ok ==> {
                    let found = cursor_spec(cursor->Ok_0.rows@)->Ok_0;
                    run == seq![
                        raise,
                        PlanStep::Drain(statement),
                        look_up,
                        lower,
                        PlanStep::Query(RUNTIME_ROWS_SQL@, seq![Json::Str(found.0), found.1]),
                        PlanStep::Query(CURSOR_TEXT_SQL@, seq![Json::Str(found.0), found.1]),
                        PlanStep::Finish(Ok(payload_spec(rows->Ok_0, text->Ok_0, true))),
                    ]
                }
            }
            &&& run.last() is Finish
            &&& returns_rows_spec(statement) && raised is Ok ==> exists|j: int|
                0 < j < run.len() - 1 && #[trigger] run[j] == lower
        }),
{
    reveal_with_fuel(analyze_steps, 8);
    let events = seq![raised, drained, cursor, reset, rows, text];
    let run = analyze_run(statement, events);
    assert(events.drop_first() =~= seq![drained, cursor, reset, rows, text]);
    assert(events.drop_first().drop_first() =~= seq![cursor, reset, rows, text]);
    assert(events.drop_first().drop_first().drop_first() =~= seq![reset, rows, text]);
    assert(events.drop_first().drop_first().drop_first().drop_first() =~= seq![rows, text]);
    assert(events.drop_first().drop_first().drop_first().drop_first().drop_first() =~= seq![
        text,
    ]);
    let lower = PlanStep::Execute(STATISTICS_TYPICAL_SQL@, seq![]);
    if returns_rows_spec(statement) && raised is Ok {
        if drained is Err {
            assert(run[2] == lower);
        } else {
            assert(run[3] == lower);
        }
    }
}

/// Where an estimated plan stands.
pub enum EstimateState {
    /// `EXPLAIN PLAN` was issued under this statement id.
    Explaining(String),
    /// The plan rows of the statement id are being read.
    ReadingRows(String),
    /// The text rendering is being read, after these plan rows.
    ReadingText(String, QueryResult),
    /// The plan rows were deleted; the reads' outcome waits for it.
    Cleaning(Result<(QueryResult, QueryResult), PluginError>),
    /// The capture finished.
    Done,
}

/// `EstimateState` by its values.
pub enum EstimatePhase {
    Explaining(Seq<char>),
    ReadingRows(Seq<char>),
    ReadingText(Seq<char>, QueryResult),
    Cleaning(Result<(QueryResult, QueryResult), (i64, Seq<char>)>),
    Done,
}

impl View for EstimateState {
    type V = EstimatePhase;

    open spec fn view(&self) -> EstimatePhase {
        match self {
            EstimateState::Explaining(id) => EstimatePhase::Explaining(id@),
            EstimateState::ReadingRows(id) => EstimatePhase::ReadingRows(id@),
            EstimateState::ReadingText(id, rows) => EstimatePhase::ReadingText(id@, *rows),
            EstimateState::Cleaning(c) => EstimatePhase::Cleaning(
                match c {
                    Ok(pair) => Ok(*pair),
                    Err(e) => Err(e@),
                },
            ),
            EstimateState::Done => EstimatePhase::Done,
        }
    }
}

/// The first step of an estimated plan: `EXPLAIN PLAN` under the
/// statement id.
pub open spec fn estimate_start_spec(statement_id: Seq<char>, statement: Seq<char>) -> (
    EstimatePhase,
    PlanStep,
) {
    (
        EstimatePhase::Explaining(statement_id),
        PlanStep::Execute(
            "EXPLAIN PLAN SET STATEMENT_ID = '"@ + statement_id + "' FOR "@ + statement,
            seq![],
        ),
    )
}

/// The step after each reported outcome: the plan rows and the text are
/// read after a successful EXPLAIN; the rows are deleted from PLAN_TABLE
/// whatever the reads gave, and their error is the one finished with,
/// after the delete.
pub open spec fn estimate_next_spec(
    phase: EstimatePhase,
    event: Result<QueryResult, (i64, Seq<char>)>,
) -> (EstimatePhase, PlanStep) {
    match phase {
        EstimatePhase::Explaining(id) => match event {
            Err(e) => (EstimatePhase::Done, PlanStep::Finish(Err(e))),
            Ok(_) => (
                EstimatePhase::ReadingRows(id),
                PlanStep::Query(PLAN_ROWS_SQL@, seq![Json::Str(id), Json::Str(id)]),
            ),
        },
        EstimatePhase::ReadingRows(id) => match event {
            Err(e) => (
                EstimatePhase::Cleaning(Err(e)),
                PlanStep::Execute(DELETE_PLAN_SQL@, seq![Json::Str(id)]),
            ),
            Ok(rows) => (
                EstimatePhase::ReadingText(id, rows),
                PlanStep::Query(PLAN_TEXT_SQL@, seq![Json::Str(id)]),
            ),
        },
        EstimatePhase::ReadingText(id, rows) => match event {
            Err(e) => (
                EstimatePhase::Cleaning(Err(e)),
                PlanStep::Execute(DELETE_PLAN_SQL@, seq![Json::Str(id)]),
            ),
            Ok(text) => (
                EstimatePhase::Cleaning(Ok((rows, text))),
                PlanStep::Execute(DELETE_PLAN_SQL@, seq![Json::Str(id)]),
            ),
        },
        EstimatePhase::Cleaning(captured) => (
            EstimatePhase::Done,
            PlanStep::Finish(
                match captured {
                    Err(e) => Err(e),
                    Ok(pair) => Ok(payload_spec(pair.0, pair.1, false)),
                },
            ),
        ),
        EstimatePhase::Done => (EstimatePhase::Done, PlanStep::Finish(Err((INTERNAL_ERROR, seq![])))),
    }
}

/// The first step of an estimated plan of `statement`, filed under
/// `statement_id`.
pub fn estimate_start(statement_id: &str, statement: &str) -> (r: (EstimateState, ExplainAction))
    ensures
        (r.0@, r.1@) == estimate_start_spec(statement_id@, statement@),
{
    (
        EstimateState::Explaining(string_of(statement_id)),
        ExplainAction::Execute(explain_into_sql(statement_id, statement), no_binds()),
    )
}

/// The step of an estimated plan after the program reports the outcome of
/// the last one. A finished capture has no further step: asked again, it
/// finishes with an internal error.
pub fn estimate_next(state: EstimateState, event: Result<QueryResult, PluginError>) -> (r: (
    EstimateState,
    ExplainAction,
))
    ensures
        (r.0@, r.1@) == estimate_next_spec(state@, event_view(event)),
{
    match state {
        EstimateState::Explaining(id) => match event {
            Err(e) => (EstimateState::Done, ExplainAction::Finish(Err(e))),
            Ok(_) => {
                let binds = binds_of(JsonValue::String(id.clone()), Some(JsonValue::String(id.clone())));
                (EstimateState::ReadingRows(id), ExplainAction::Query(string_of(PLAN_ROWS_SQL), binds))
            },
        },
        EstimateState::ReadingRows(id) => {
            let binds = binds_of(JsonValue::String(id.clone()), None);
            match event {
                Err(e) => (
                    EstimateState::Cleaning(Err(e)),
                    ExplainAction::Execute(string_of(DELETE_PLAN_SQL), binds),
                ),
                Ok(rows) => (
                    EstimateState::ReadingText(id, rows),
                    ExplainAction::Query(string_of(PLAN_TEXT_SQL), binds),
                ),
            }
        },
        EstimateState::ReadingText(id, rows) => {
            let binds = binds_of(JsonValue::String(id.clone()), None);
            let captured = match event {
                Err(e) => Err(e),
                Ok(text) => Ok((rows, text)),
            };
            (EstimateState::Cleaning(captured), ExplainAction::Execute(string_of(DELETE_PLAN_SQL), binds))
        },
        EstimateState::Cleaning(captured) => {
            let result = match captured {
                Err(e) => Err(e),
                Ok(pair) => Ok(payload(&pair.0, &pair.1, false)),
            };
            (EstimateState::Done, ExplainAction::Finish(result))
        },
        EstimateState::Done => (EstimateState::Done, ExplainAction::Finish(Err(PluginError::internal(String::new())))),
    }
}

/// The steps of an estimated plan from `phase` on, up to the finish.
pub open spec fn estimate_steps(
    phase: EstimatePhase,
    events: Seq<Result<QueryResult, (i64, Seq<char>)>>,
) -> Seq<PlanStep>
    decreases events.len(),
{
    if events.len() == 0 || phase is Done {
        seq![]
    } else {
        let next = estimate_next_spec(phase, events[0]);
        seq![next.1] + estimate_steps(next.0, events.drop_first())
    }
}

/// The steps of a whole estimated-plan run.
pub open spec fn estimate_run(
    statement_id: Seq<char>,
    statement: Seq<char>,
    events: Seq<Result<QueryResult, (i64, Seq<char>)>>,
) -> Seq<PlanStep> {
    let first = estimate_start_spec(statement_id, statement);
    seq![first.1] + estimate_steps(first.0, events)
}

/// An estimated plan, over the outcomes of EXPLAIN PLAN, the two reads and
/// the delete: after a successful EXPLAIN the statement's rows are always
/// deleted from PLAN_TABLE before the finish, whatever the reads return;
/// the first failing read is the error finished with, and when both reads
/// succeed the payload holds their rows, whatever the delete gave.
pub proof fn lemma_estimate_run(
    statement_id: Seq<char>,
    statement: Seq<char>,
    explained: Result<QueryResult, (i64, Seq<char>)>,
    rows: Result<QueryResult, (i64, Seq<char>)>,
    text: Result<QueryResult, (i64, Seq<char>)>,
    deleted: Result<QueryResult, (i64, Seq<char>)>,
)
    ensures
        ({
            let run = estimate_run(statement_id, statement, seq![explained, rows, text, deleted]);
            let explain = PlanStep::Execute(
                "EXPLAIN PLAN SET STATEMENT_ID = '"@ + statement_id + "' FOR "@ + statement,
                seq![],
            );
            let read_rows = PlanStep::Query(
                PLAN_ROWS_SQL@,
                seq![Json::Str(statement_id), Json::Str(statement_id)],
            );
            let read_text = PlanStep::Query(PLAN_TEXT_SQL@, seq![Json::Str(statement_id)]);
            let delete = PlanStep::Execute(DELETE_PLAN_SQL@, seq![Json::Str(statement_id)]);
            &&& explained is Err ==> run == seq![explain, PlanStep::Finish(Err(explained->Err_0))]
            &&& explained is Ok && rows is Err ==> run == seq![
                explain,
                read_rows,
                delete,
                PlanStep::Finish(Err(rows->Err_0)),
            ]
            &&& explained is Ok && rows is Ok && text is Err ==> run == seq![
                explain,
                read_rows,
                read_text,
                delete,
                PlanStep::Finish(Err(text->Err_0)),
            ]
            &&& explained is Ok && rows is Ok && text is Ok ==> run == seq![
                explain,
                read_rows,
                read_text,
                delete,
                PlanStep::Finish(Ok(payload_spec(rows->Ok_0, text->Ok_0, false))),
            ]
            &&& run.last() is Finish
        }),
{
    reveal_with_fuel(estimate_steps, 6);
    let events = seq![explained, rows, text, deleted];
    assert(events.drop_first() =~= seq![rows, text, deleted]);
    assert(events.drop_first().drop_first() =~= seq![text, deleted]);
    assert(events.drop_first().drop_first().drop_first() =~= seq![deleted]);
}

/// The executed cursor is read from the first row of the lookup: its SQL
/// id is the first cell, a string, and its child number the second cell;
/// without such a row the cursor is not identified.
pub proof fn lemma_cursor(rows: Seq<Vec<JsonValue>>)
    ensures
        rows.len() > 0 && rows[0]@.len() >= 2 && rows[0]@[0]@ is Str ==> cursor_spec(rows) == Ok::<
            (Seq<char>, Json),
            (i64, Seq<char>),
        >((rows[0]@[0]@->Str_0, rows[0]@[1]@)),
        !(rows.len() > 0 && rows[0]@.len() >= 2 && rows[0]@[0]@ is Str) ==> cursor_spec(rows) is Err
            && cursor_spec(rows)->Err_0.0 == INTERNAL_ERROR,
{
}

/// The text of a plan is one line per text row whose first cell is a
/// string, in order: when every row starts with a string, those strings
/// are all the lines.
pub proof fn lemma_plan_lines(rows: Seq<Vec<JsonValue>>)
    ensures
        first_strings(rows).len() <= rows.len(),
        (forall|i: int| 0 <= i < rows.len() ==> (#[trigger] rows[i]@).len() > 0 && rows[i]@[0]@ is Str)
            ==> first_strings(rows) == rows.map_values(|r: Vec<JsonValue>| r@[0]@->Str_0),
    decreases rows.len(),
{
    if rows.len() > 0 {
        let init = rows.drop_last();
        lemma_plan_lines(init);
        if forall|i: int| 0 <= i < rows.len() ==> (#[trigger] rows[i]@).len() > 0 && rows[i]@[0]@ is Str {
            assert forall|i: int| 0 <= i < init.len() implies (#[trigger] init[i]@).len() > 0
                && init[i]@[0]@ is Str by {
                assert(init[i] == rows[i]);
                assert(rows[i]@.len() > 0);
            }
            assert(rows[rows.len() - 1]@.len() > 0);
            assert(rows.map_values(|r: Vec<JsonValue>| r@[0]@->Str_0) =~= init.map_values(
                |r: Vec<JsonValue>| r@[0]@->Str_0,
            ).push(rows.last()@[0]@->Str_0));
        }
    }
}

} // verus!
