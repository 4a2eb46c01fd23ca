//! JSON-RPC responses and method routing.
//!
//! A request names a method; `route` maps the name onto the handler set and
//! `dispatch` answers what needs no database on its own (unknown methods and
//! the pure DDL generators) and hands everything else back to the caller.
use vstd::prelude::*;

use crate::error::METHOD_NOT_FOUND;
use crate::error::PARSE_ERROR;
use crate::handlers::ddl::{
    add_column_request, alter_column_request, create_foreign_key_request, create_index_request,
    create_table_request, get_add_column_sql, get_alter_column_sql, get_create_foreign_key_sql,
    get_create_index_sql, get_create_table_sql,
};
use crate::handlers::respond_spec;
use crate::json::{entry_models, Json, JsonValue};
use crate::text::{push_str, str_eq};

verus! {

/// The success envelope.
pub open spec fn ok_response_spec(id: Json, result: Json) -> Json {
    Json::Object(
        seq![("jsonrpc"@, Json::Str("2.0"@)), ("result"@, result), ("id"@, id)],
    )
}

/// The error envelope.
pub open spec fn error_response_spec(id: Json, code: i64, message: Seq<char>) -> Json {
    Json::Object(
        seq![
            ("jsonrpc"@, Json::Str("2.0"@)),
            ("error"@, Json::Object(seq![("code"@, Json::Int(code as int)), ("message"@, Json::Str(message))])),
            ("id"@, id),
        ],
    )
}

/// The message for a method the plugin does not serve.
pub open spec fn not_implemented_msg(method: Seq<char>) -> Seq<char> {
    "method '"@ + method + "' is not supported by this plugin"@
}

/// A JSON-RPC 2.0 response for the request id `id`: `jsonrpc` set to
/// `2.0`, then either `result` or an `error` with an integer `code` and a
/// string `message`, then the `id`.
pub open spec fn is_envelope(r: Json, id: Json) -> bool {
    match r {
        Json::Object(e) => {
            &&& e.len() == 3
            &&& e[0] == ("jsonrpc"@, Json::Str("2.0"@))
            &&& e[2] == ("id"@, id)
            &&& (e[1].0 == "result"@ || (e[1].0 == "error"@ && match e[1].1 {
                Json::Object(f) => f.len() == 2 && f[0].0 == "code"@ && f[0].1 is Int && f[1].0
                    == "message"@ && f[1].1 is Str,
                _ => false,
            }))
        },
        _ => false,
    }
}

/// Every response the plugin gives is an envelope that echoes the request
/// id and holds exactly one of `result` and `error`: successes, errors,
/// handler results of either kind, and the answer to a line that is not
/// JSON (id `null`, code -32700).
pub proof fn lemma_responses_are_envelopes()
    ensures
        "result"@ != "error"@,
        forall|id: Json, result: Json| #[trigger] is_envelope(ok_response_spec(id, result), id),
        forall|id: Json, code: i64, message: Seq<char>|
            #[trigger] is_envelope(error_response_spec(id, code, message), id),
        forall|id: Json, outcome: Result<Json, (i64, Seq<char>)>|
            #[trigger] is_envelope(respond_spec(id, outcome), id),
{
    reveal_strlit("result");
    reveal_strlit("error");
    assert("result"@[0] != "error"@[0]);
    assert forall|id: Json, outcome: Result<Json, (i64, Seq<char>)>|
        #[trigger] is_envelope(respond_spec(id, outcome), id) by {
        match outcome {
            Ok(v) => {},
            Err(e) => {},
        }
    }
}

pub fn ok_response(id: JsonValue, result: JsonValue) -> (r: JsonValue)
    ensures
        r@ == ok_response_spec(id@, result@),
{
    let mut e: Vec<(String, JsonValue)> = Vec::new();
    JsonValue::push_entry(&mut e, "jsonrpc", JsonValue::from_str("2.0"));
    JsonValue::push_entry(&mut e, "result", result);
    JsonValue::push_entry(&mut e, "id", id);
    assert(entry_models(e@) =~= ok_response_spec(id@, result@)->Object_0);
    JsonValue::Object(e)
}

pub fn error_response(id: JsonValue, code: i64, message: &str) -> (r: JsonValue)
    ensures
        r@ == error_response_spec(id@, code, message@),
{
    let mut inner: Vec<(String, JsonValue)> = Vec::new();
    JsonValue::push_entry(&mut inner, "code", JsonValue::from_i64(code));
    JsonValue::push_entry(&mut inner, "message", JsonValue::from_str(message));
    let mut e: Vec<(String, JsonValue)> = Vec::new();
    JsonValue::push_entry(&mut e, "jsonrpc", JsonValue::from_str("2.0"));
    JsonValue::push_entry(&mut e, "error", JsonValue::Object(inner));
    JsonValue::push_entry(&mut e, "id", id);
    assert(entry_models(inner@) =~= seq![("code"@, Json::Int(code as int)), ("message"@, Json::Str(message@))]);
    assert(entry_models(e@) =~= error_response_spec(id@, code, message@)->Object_0);
    JsonValue::Object(e)
}

pub fn not_implemented(id: JsonValue, method: &str) -> (r: JsonValue)
    ensures
        r@ == error_response_spec(id@, METHOD_NOT_FOUND, not_implemented_msg(method@)),
{
    let mut m = String::new();
    push_str(&mut m, "method '");
    push_str(&mut m, method);
    push_str(&mut m, "' is not supported by this plugin");
    error_response(id, METHOD_NOT_FOUND, m.as_str())
}

/// The answer to a line that is not JSON, given the parser's description
/// of the failure.
pub fn parse_error_response(detail: &str) -> (r: JsonValue)
    ensures
        r@ == error_response_spec(Json::Null, PARSE_ERROR, "parse error: "@ + detail@),
{
    let mut m = String::new();
    push_str(&mut m, "parse error: ");
    push_str(&mut m, detail);
    error_response(JsonValue::Null, PARSE_ERROR, m.as_str())
}

/// The methods the plugin serves.
#[derive(PartialEq, Eq, Structural, Clone, Copy, Debug)]
pub enum Method {
    Initialize,
    Ping,
    TestConnection,
    GetDatabases,
    GetSchemas,
    GetTables,
    GetColumns,
    GetForeignKeys,
    GetIndexes,
    GetViews,
    GetViewDefinition,
    GetViewColumns,
    GetRoutines,
    GetRoutineParameters,
    GetRoutineDefinition,
    GetSchemaSnapshot,
    GetAllColumnsBatch,
    GetAllForeignKeysBatch,
    CreateView,
    AlterView,
    DropView,
    ExecuteQuery,
    ExplainQuery,
    InsertRecord,
    UpdateRecord,
    DeleteRecord,
    GetCreateTableSql,
    GetAddColumnSql,
    GetAlterColumnSql,
    GetCreateIndexSql,
    GetCreateForeignKeySql,
    DropIndex,
    DropForeignKey,
}

/// The wire name of a method.
pub open spec fn method_name(m: Method) -> Seq<char> {
    match m {
        Method::Initialize => "initialize"@,
        Method::Ping => "ping"@,
        Method::TestConnection => "test_connection"@,
        Method::GetDatabases => "get_databases"@,
        Method::GetSchemas => "get_schemas"@,
        Method::GetTables => "get_tables"@,
        Method::GetColumns => "get_columns"@,
        Method::GetForeignKeys => "get_foreign_keys"@,
        Method::GetIndexes => "get_indexes"@,
        Method::GetViews => "get_views"@,
        Method::GetViewDefinition => "get_view_definition"@,
        Method::GetViewColumns => "get_view_columns"@,
        Method::GetRoutines => "get_routines"@,
        Method::GetRoutineParameters => "get_routine_parameters"@,
        Method::GetRoutineDefinition => "get_routine_definition"@,
        Method::GetSchemaSnapshot => "get_schema_snapshot"@,
        Method::GetAllColumnsBatch => "get_all_columns_batch"@,
        Method::GetAllForeignKeysBatch => "get_all_foreign_keys_batch"@,
        Method::CreateView => "create_view"@,
        Method::AlterView => "alter_view"@,
        Method::DropView => "drop_view"@,
        Method::ExecuteQuery => "execute_query"@,
        Method::ExplainQuery => "explain_query"@,
        Method::InsertRecord => "insert_record"@,
        Method::UpdateRecord => "update_record"@,
        Method::DeleteRecord => "delete_record"@,
        Method::GetCreateTableSql => "get_create_table_sql"@,
        Method::GetAddColumnSql => "get_add_column_sql"@,
        Method::GetAlterColumnSql => "get_alter_column_sql"@,
        Method::GetCreateIndexSql => "get_create_index_sql"@,
        Method::GetCreateForeignKeySql => "get_create_foreign_key_sql"@,
        Method::DropIndex => "drop_index"@,
        Method::DropForeignKey => "drop_foreign_key"@,
    }
}

/// The method a request names, if the plugin serves it.
pub open spec fn route_spec(name: Seq<char>) -> Option<Method> {
    if name == "initialize"@ {
        Some(Method::Initialize)
    } else if name == "ping"@ {
        Some(Method::Ping)
    } else if name == "test_connection"@ {
        Some(Method::TestConnection)
    } else if name == "get_databases"@ {
        Some(Method::GetDatabases)
    } else if name == "get_schemas"@ {
        Some(Method::GetSchemas)
    } else if name == "get_tables"@ {
        Some(Method::GetTables)
    } else if name == "get_columns"@ {
        Some(Method::GetColumns)
    } else if name == "get_foreign_keys"@ {
        Some(Method::GetForeignKeys)
    } else if name == "get_indexes"@ {
        Some(Method::GetIndexes)
    } else if name == "get_views"@ {
        Some(Method::GetViews)
    } else if name == "get_view_definition"@ {
        Some(Method::GetViewDefinition)
    } else if name == "get_view_columns"@ {
        Some(Method::GetViewColumns)
    } else if name == "get_routines"@ {
        Some(Method::GetRoutines)
    } else if name == "get_routine_parameters"@ {
        Some(Method::GetRoutineParameters)
    } else if name == "get_routine_definition"@ {
        Some(Method::GetRoutineDefinition)
    } else if name == "get_schema_snapshot"@ {
        Some(Method::GetSchemaSnapshot)
    } else if name == "get_all_columns_batch"@ {
        Some(Method::GetAllColumnsBatch)
    } else if name == "get_all_foreign_keys_batch"@ {
        Some(Method::GetAllForeignKeysBatch)
    } else if name == "create_view"@ {
        Some(Method::CreateView)
    } else if name == "alter_view"@ {
        Some(Method::AlterView)
    } else if name == "drop_view"@ {
        Some(Method::DropView)
    } else if name == "execute_query"@ {
        Some(Method::ExecuteQuery)
    } else if name == "explain_query"@ {
        Some(Method::ExplainQuery)
    } else if name == "insert_record"@ {
        Some(Method::InsertRecord)
    } else if name == "update_record"@ {
        Some(Method::UpdateRecord)
    } else if name == "delete_record"@ {
        Some(Method::DeleteRecord)
    } else if name == "get_create_table_sql"@ {
        Some(Method::GetCreateTableSql)
    } else if name == "get_add_column_sql"@ {
        Some(Method::GetAddColumnSql)
    } else if name == "get_alter_column_sql"@ {
        Some(Method::GetAlterColumnSql)
    } else if name == "get_create_index_sql"@ {
        Some(Method::GetCreateIndexSql)
    } else if name == "get_create_foreign_key_sql"@ {
        Some(Method::GetCreateForeignKeySql)
    } else if name == "drop_index"@ {
        Some(Method::DropIndex)
    } else if name == "drop_foreign_key"@ {
        Some(Method::DropForeignKey)
    } else {
        None
    }
}

/// Route a method name.
pub fn route(name: &str) -> (r: Option<Method>)
    ensures
        r == route_spec(name@),
        match r {
            Some(m) => method_name(m) == name@,
            None => true,
        },
{
    if str_eq(name, "initialize") {
        Some(Method::Initialize)
    } else if str_eq(name, "ping") {
        Some(Method::Ping)
    } else if str_eq(name, "test_connection") {
        Some(Method::TestConnection)
    } else if str_eq(name, "get_databases") {
        Some(Method::GetDatabases)
    } else if str_eq(name, "get_schemas") {
        Some(Method::GetSchemas)
    } else if str_eq(name, "get_tables") {
        Some(Method::GetTables)
    } else if str_eq(name, "get_columns") {
        Some(Method::GetColumns)
    } else if str_eq(name, "get_foreign_keys") {
        Some(Method::GetForeignKeys)
    } else if str_eq(name, "get_indexes") {
        Some(Method::GetIndexes)
    } else if str_eq(name, "get_views") {
        Some(Method::GetViews)
    } else if str_eq(name, "get_view_definition") {
        Some(Method::GetViewDefinition)
    } else if str_eq(name, "get_view_columns") {
        Some(Method::GetViewColumns)
    } else if str_eq(name, "get_routines") {
        Some(Method::GetRoutines)
    } else if str_eq(name, "get_routine_parameters") {
        Some(Method::GetRoutineParameters)
    } else if str_eq(name, "get_routine_definition") {
        Some(Method::GetRoutineDefinition)
    } else if str_eq(name, "get_schema_snapshot") {
        Some(Method::GetSchemaSnapshot)
    } else if str_eq(name, "get_all_columns_batch") {
        Some(Method::GetAllColumnsBatch)
    } else if str_eq(name, "get_all_foreign_keys_batch") {
        Some(Method::GetAllForeignKeysBatch)
    } else if str_eq(name, "create_view") {
        Some(Method::CreateView)
    } else if str_eq(name, "alter_view") {
        Some(Method::AlterView)
    } else if str_eq(name, "drop_view") {
        Some(Method::DropView)
    } else if str_eq(name, "execute_query") {
        Some(Method::ExecuteQuery)
    } else if str_eq(name, "explain_query") {
        Some(Method::ExplainQuery)
    } else if str_eq(name, "insert_record") {
        Some(Method::InsertRecord)
    } else if str_eq(name, "update_record") {
        Some(Method::UpdateRecord)
    } else if str_eq(name, "delete_record") {
        Some(Method::DeleteRecord)
    } else if str_eq(name, "get_create_table_sql") {
        Some(Method::GetCreateTableSql)
    } else if str_eq(name, "get_add_column_sql") {
        Some(Method::GetAddColumnSql)
    } else if str_eq(name, "get_alter_column_sql") {
        Some(Method::GetAlterColumnSql)
    } else if str_eq(name, "get_create_index_sql") {
        Some(Method::GetCreateIndexSql)
    } else if str_eq(name, "get_create_foreign_key_sql") {
        Some(Method::GetCreateForeignKeySql)
    } else if str_eq(name, "drop_index") {
        Some(Method::DropIndex)
    } else if str_eq(name, "drop_foreign_key") {
        Some(Method::DropForeignKey)
    } else {
        None
    }
}

/// The methods answered from the request alone: the DDL generators.
pub open spec fn is_generator(m: Method) -> bool {
    ||| m == Method::GetCreateTableSql
    ||| m == Method::GetAddColumnSql
    ||| m == Method::GetAlterColumnSql
    ||| m == Method::GetCreateIndexSql
    ||| m == Method::GetCreateForeignKeySql
}

/// The response of a DDL generator.
pub open spec fn generator_response(m: Method, id: Json, params: Json) -> Json {
    match m {
        Method::GetCreateTableSql => respond_spec(id, create_table_request(params)),
        Method::GetAddColumnSql => respond_spec(id, add_column_request(params)),
        Method::GetAlterColumnSql => respond_spec(id, alter_column_request(params)),
        Method::GetCreateIndexSql => respond_spec(id, create_index_request(params)),
        Method::GetCreateForeignKeySql => respond_spec(id, create_foreign_key_request(params)),
        _ => Json::Null,
    }
}

/// The request id, `null` when absent.
pub open spec fn request_id(request: Json) -> Json {
    match request.get("id"@) {
        Some(v) => v,
        None => Json::Null,
    }
}

/// The method name, empty when absent or not a string.
pub open spec fn request_method(request: Json) -> Seq<char> {
    match request.get("method"@) {
        Some(v) => match v.as_str() {
            Some(s) => s,
            None => seq![],
        },
        None => seq![],
    }
}

/// The request parameters, `null` when absent.
pub open spec fn request_params(request: Json) -> Json {
    match request.get("params"@) {
        Some(v) => v,
        None => Json::Null,
    }
}

/// What a request leads to.
pub enum Dispatch {
    /// The response, decided from the request alone.
    Reply(JsonValue),
    /// A method that needs the database (or the client library).
    Handle { method: Method, id: JsonValue, params: JsonValue },
}

/// Route a parsed request: unknown methods are answered "method not
/// found" with the request's id, the DDL generators are answered at once,
/// and every other method is handed back with its id and parameters.
pub fn dispatch(request: &JsonValue) -> (r: Dispatch)
    ensures
        match r {
            Dispatch::Reply(response) => match route_spec(request_method(request@)) {
                None => response@ == error_response_spec(
                    request_id(request@),
                    METHOD_NOT_FOUND,
                    not_implemented_msg(request_method(request@)),
                ),
                Some(m) => is_generator(m) && response@ == generator_response(
                    m,
                    request_id(request@),
                    request_params(request@),
                ),
            },
            Dispatch::Handle { method, id, params } => {
                &&& route_spec(request_method(request@)) == Some(method)
                &&& !is_generator(method)
                &&& id@ == request_id(request@)
                &&& params@ == request_params(request@)
            },
        },
        r matches Dispatch::Reply(response) ==> is_envelope(response@, request_id(request@)),
{
    proof {
        lemma_responses_are_envelopes();
    }
    let id = match request.get("id") {
        Some(v) => v.duplicate(),
        None => JsonValue::Null,
    };
    let method: &str = match request.get("method") {
        Some(v) => match v.as_str() {
            Some(s) => s,
            None => "",
        },
        None => "",
    };
    proof {
        reveal_strlit("");
        assert(""@ =~= Seq::<char>::empty());
    }
    assert(method@ == request_method(request@));
    let params = match request.get("params") {
        Some(v) => v.duplicate(),
        None => JsonValue::Null,
    };
    match route(method) {
        None => Dispatch::Reply(not_implemented(id, method)),
        Some(m) => match m {
            Method::GetCreateTableSql => Dispatch::Reply(get_create_table_sql(id, &params)),
            Method::GetAddColumnSql => Dispatch::Reply(get_add_column_sql(id, &params)),
            Method::GetAlterColumnSql => Dispatch::Reply(get_alter_column_sql(id, &params)),
            Method::GetCreateIndexSql => Dispatch::Reply(get_create_index_sql(id, &params)),
            Method::GetCreateForeignKeySql => Dispatch::Reply(
                get_create_foreign_key_sql(id, &params),
            ),
            _ => Dispatch::Handle { method: m, id, params },
        },
    }
}

/// A line by its values: the request it holds, or the parser's
/// description of why it holds none.
pub open spec fn parsed_view(parsed: Result<JsonValue, String>) -> Result<Json, Seq<char>> {
    match parsed {
        Ok(request) => Ok(request@),
        Err(detail) => Err(detail@),
    }
}

/// The id a line's response carries: the request's, `null` for a line
/// that is not JSON.
pub open spec fn line_id(parsed: Result<Json, Seq<char>>) -> Json {
    match parsed {
        Ok(request) => request_id(request),
        Err(_) => Json::Null,
    }
}

/// The response to a line, given what the handler of a method that needs
/// the database returned: a parse error for a line that is not JSON,
/// "method not found" for an unknown method, the generator's response for
/// a DDL generator, and the handler's result otherwise, all with the
/// request's id.
pub open spec fn line_response_spec(
    parsed: Result<Json, Seq<char>>,
    handled: Result<Json, (i64, Seq<char>)>,
) -> Json {
    match parsed {
        Err(detail) => error_response_spec(Json::Null, PARSE_ERROR, "parse error: "@ + detail),
        Ok(request) => {
            let id = request_id(request);
            match route_spec(request_method(request)) {
                None => error_response_spec(
                    id,
                    METHOD_NOT_FOUND,
                    not_implemented_msg(request_method(request)),
                ),
                Some(m) => if is_generator(m) {
                    generator_response(m, id, request_params(request))
                } else {
                    respond_spec(id, handled)
                },
            }
        },
    }
}

/// What a line leads to, given the parser's outcome: the response, or the
/// method to run with its id and parameters, whose result `respond` turns
/// into the response.
pub fn answer_line(parsed: Result<JsonValue, String>) -> (r: Dispatch)
    ensures
        match r {
            Dispatch::Reply(response) => forall|handled: Result<Json, (i64, Seq<char>)>|
                #[trigger] line_response_spec(parsed_view(parsed), handled) == response@,
            Dispatch::Handle { method, id, params } => {
                &&& parsed is Ok
                &&& route_spec(request_method(parsed->Ok_0@)) == Some(method)
                &&& !is_generator(method)
                &&& params@ == request_params(parsed->Ok_0@)
                &&& id@ == line_id(parsed_view(parsed))
                &&& forall|handled: Result<Json, (i64, Seq<char>)>|
                    #[trigger] line_response_spec(parsed_view(parsed), handled) == respond_spec(
                        id@,
                        handled,
                    )
            },
        },
{
    match parsed {
        Err(detail) => Dispatch::Reply(parse_error_response(detail.as_str())),
        Ok(request) => dispatch(&request),
    }
}

/// Every line gets one JSON-RPC 2.0 envelope, whatever the line and
/// whatever the database answers: `jsonrpc` is `2.0`, exactly one of
/// `result` and `error` (an error with an integer `code` and a string
/// `message`), and the request's `id`, `null` when absent; a line that is
/// not JSON is answered with code -32700 and id `null`.
pub proof fn lemma_line_envelope(
    parsed: Result<Json, Seq<char>>,
    handled: Result<Json, (i64, Seq<char>)>,
)
    ensures
        is_envelope(line_response_spec(parsed, handled), line_id(parsed)),
        parsed is Err ==> line_id(parsed) == Json::Null && line_response_spec(parsed, handled)->Object_0[1].1->Object_0[0].1 == Json::Int(PARSE_ERROR as int),
{
    lemma_responses_are_envelopes();
    match parsed {
        Err(_) => {},
        Ok(request) => {
            let id = request_id(request);
            match route_spec(request_method(request)) {
                None => {},
                Some(m) => {
                    if is_generator(m) {
                        let params = request_params(request);
                        match m {
                            Method::GetCreateTableSql => {
                                assert(is_envelope(respond_spec(id, create_table_request(params)), id));
                            },
                            Method::GetAddColumnSql => {
                                assert(is_envelope(respond_spec(id, add_column_request(params)), id));
                            },
                            Method::GetAlterColumnSql => {
                                assert(is_envelope(respond_spec(id, alter_column_request(params)), id));
                            },
                            Method::GetCreateIndexSql => {
                                assert(is_envelope(respond_spec(id, create_index_request(params)), id));
                            },
                            Method::GetCreateForeignKeySql => {
                                assert(is_envelope(
                                    respond_spec(id, create_foreign_key_request(params)),
                                    id,
                                ));
                            },
                            _ => {},
                        }
                    } else {
                        assert(is_envelope(respond_spec(id, handled), id));
                    }
                },
            }
        },
    }
}

/// Every method the plugin serves is routed from its wire name, and a name
/// is routed only to the method it names.
pub proof fn lemma_route_names(m: Method, name: Seq<char>)
    ensures
        route_spec(method_name(m)) == Some(m),
        route_spec(name) == Some(m) ==> name == method_name(m),
{
    reveal_strlit("initialize");
    reveal_strlit("ping");
    reveal_strlit("test_connection");
    reveal_strlit("get_databases");
    reveal_strlit("get_schemas");
    reveal_strlit("get_tables");
    reveal_strlit("get_columns");
    reveal_strlit("get_foreign_keys");
    reveal_strlit("get_indexes");
    reveal_strlit("get_views");
    reveal_strlit("get_view_definition");
    reveal_strlit("get_view_columns");
    reveal_strlit("get_routines");
    reveal_strlit("get_routine_parameters");
    reveal_strlit("get_routine_definition");
    reveal_strlit("get_schema_snapshot");
    reveal_strlit("get_all_columns_batch");
    reveal_strlit("get_all_foreign_keys_batch");
    reveal_strlit("create_view");
    reveal_strlit("alter_view");
    reveal_strlit("drop_view");
    reveal_strlit("execute_query");
    reveal_strlit("explain_query");
    reveal_strlit("insert_record");
    reveal_strlit("update_record");
    reveal_strlit("delete_record");
    reveal_strlit("get_create_table_sql");
    reveal_strlit("get_add_column_sql");
    reveal_strlit("get_alter_column_sql");
    reveal_strlit("get_create_index_sql");
    reveal_strlit("get_create_foreign_key_sql");
    reveal_strlit("drop_index");
    reveal_strlit("drop_foreign_key");
    // Each name differs from every name tried before it.
    match m {
        Method::Initialize => {},
        Method::Ping => {
            assert("initialize"@[0] != "ping"@[0]);
        },
        Method::TestConnection => {
            assert("initialize"@[0] != "test_connection"@[0]);
            assert("ping"@[0] != "test_connection"@[0]);
        },
        Method::GetDatabases => {
            assert("initialize"@[0] != "get_databases"@[0]);
            assert("ping"@[0] != "get_databases"@[0]);
            assert("test_connection"@[0] != "get_databases"@[0]);
        },
        Method::GetSchemas => {
            assert("initialize"@[0] != "get_schemas"@[0]);
            assert("ping"@[0] != "get_schemas"@[0]);
            assert("test_connection"@[0] != "get_schemas"@[0]);
            assert("get_databases"@[4] != "get_schemas"@[4]);
        },
        Method::GetTables => {
            assert("initialize"@[0] != "get_tables"@[0]);
            assert("ping"@[0] != "get_tables"@[0]);
            assert("test_connection"@[0] != "get_tables"@[0]);
            assert("get_databases"@[4] != "get_tables"@[4]);
            assert("get_schemas"@[4] != "get_tables"@[4]);
        },
        Method::GetColumns => {
            assert("initialize"@[0] != "get_columns"@[0]);
            assert("ping"@[0] != "get_columns"@[0]);
            assert("test_connection"@[0] != "get_columns"@[0]);
            assert("get_databases"@[4] != "get_columns"@[4]);
            assert("get_schemas"@[4] != "get_columns"@[4]);
            assert("get_tables"@[4] != "get_columns"@[4]);
        },
        Method::GetForeignKeys => {
            assert("initialize"@[0] != "get_foreign_keys"@[0]);
            assert("ping"@[0] != "get_foreign_keys"@[0]);
            assert("test_connection"@[0] != "get_foreign_keys"@[0]);
            assert("get_databases"@[4] != "get_foreign_keys"@[4]);
            assert("get_schemas"@[4] != "get_foreign_keys"@[4]);
            assert("get_tables"@[4] != "get_foreign_keys"@[4]);
            assert("get_columns"@[4] != "get_foreign_keys"@[4]);
        },
        Method::GetIndexes => {
            assert("initialize"@[0] != "get_indexes"@[0]);
            assert("ping"@[0] != "get_indexes"@[0]);
            assert("test_connection"@[0] != "get_indexes"@[0]);
            assert("get_databases"@[4] != "get_indexes"@[4]);
            assert("get_schemas"@[4] != "get_indexes"@[4]);
            assert("get_tables"@[4] != "get_indexes"@[4]);
            assert("get_columns"@[4] != "get_indexes"@[4]);
            assert("get_foreign_keys"@[4] != "get_indexes"@[4]);
        },
        Method::GetViews => {
            assert("initialize"@[0] != "get_views"@[0]);
            assert("ping"@[0] != "get_views"@[0]);
            assert("test_connection"@[0] != "get_views"@[0]);
            assert("get_databases"@[4] != "get_views"@[4]);
            assert("get_schemas"@[4] != "get_views"@[4]);
            assert("get_tables"@[4] != "get_views"@[4]);
            assert("get_columns"@[4] != "get_views"@[4]);
            assert("get_foreign_keys"@[4] != "get_views"@[4]);
            assert("get_indexes"@[4] != "get_views"@[4]);
        },
        Method::GetViewDefinition => {
            assert("initialize"@[0] != "get_view_definition"@[0]);
            assert("ping"@[0] != "get_view_definition"@[0]);
            assert("test_connection"@[0] != "get_view_definition"@[0]);
            assert("get_databases"@[4] != "get_view_definition"@[4]);
            assert("get_schemas"@[4] != "get_view_definition"@[4]);
            assert("get_tables"@[4] != "get_view_definition"@[4]);
            assert("get_columns"@[4] != "get_view_definition"@[4]);
            assert("get_foreign_keys"@[4] != "get_view_definition"@[4]);
            assert("get_indexes"@[4] != "get_view_definition"@[4]);
            assert("get_views"@[8] != "get_view_definition"@[8]);
        },
        Method::GetViewColumns => {
            assert("initialize"@[0] != "get_view_columns"@[0]);
            assert("ping"@[0] != "get_view_columns"@[0]);
            assert("test_connection"@[0] != "get_view_columns"@[0]);
            assert("get_databases"@[4] != "get_view_columns"@[4]);
            assert("get_schemas"@[4] != "get_view_columns"@[4]);
            assert("get_tables"@[4] != "get_view_columns"@[4]);
            assert("get_columns"@[4] != "get_view_columns"@[4]);
            assert("get_foreign_keys"@[4] != "get_view_columns"@[4]);
            assert("get_indexes"@[4] != "get_view_columns"@[4]);
            assert("get_views"@[8] != "get_view_columns"@[8]);
            assert("get_view_definition"@[9] != "get_view_columns"@[9]);
        },
        Method::GetRoutines => {
            assert("initialize"@[0] != "get_routines"@[0]);
            assert("ping"@[0] != "get_routines"@[0]);
            assert("test_connection"@[0] != "get_routines"@[0]);
            assert("get_databases"@[4] != "get_routines"@[4]);
            assert("get_schemas"@[4] != "get_routines"@[4]);
            assert("get_tables"@[4] != "get_routines"@[4]);
            assert("get_columns"@[4] != "get_routines"@[4]);
            assert("get_foreign_keys"@[4] != "get_routines"@[4]);
            assert("get_indexes"@[4] != "get_routines"@[4]);
            assert("get_views"@[4] != "get_routines"@[4]);
            assert("get_view_definition"@[4] != "get_routines"@[4]);
            assert("get_view_columns"@[4] != "get_routines"@[4]);
        },
        Method::GetRoutineParameters => {
            assert("initialize"@[0] != "get_routine_parameters"@[0]);
            assert("ping"@[0] != "get_routine_parameters"@[0]);
            assert("test_connection"@[0] != "get_routine_parameters"@[0]);
            assert("get_databases"@[4] != "get_routine_parameters"@[4]);
            assert("get_schemas"@[4] != "get_routine_parameters"@[4]);
            assert("get_tables"@[4] != "get_routine_parameters"@[4]);
            assert("get_columns"@[4] != "get_routine_parameters"@[4]);
            assert("get_foreign_keys"@[4] != "get_routine_parameters"@[4]);
            assert("get_indexes"@[4] != "get_routine_parameters"@[4]);
            assert("get_views"@[4] != "get_routine_parameters"@[4]);
            assert("get_view_definition"@[4] != "get_routine_parameters"@[4]);
            assert("get_view_columns"@[4] != "get_routine_parameters"@[4]);
            assert("get_routines"@[11] != "get_routine_parameters"@[11]);
        },
        Method::GetRoutineDefinition => {
            assert("initialize"@[0] != "get_routine_definition"@[0]);
            assert("ping"@[0] != "get_routine_definition"@[0]);
            assert("test_connection"@[0] != "get_routine_definition"@[0]);
            assert("get_databases"@[4] != "get_routine_definition"@[4]);
            assert("get_schemas"@[4] != "get_routine_definition"@[4]);
            assert("get_tables"@[4] != "get_routine_definition"@[4]);
            assert("get_columns"@[4] != "get_routine_definition"@[4]);
            assert("get_foreign_keys"@[4] != "get_routine_definition"@[4]);
            assert("get_indexes"@[4] != "get_routine_definition"@[4]);
            assert("get_views"@[4] != "get_routine_definition"@[4]);
            assert("get_view_definition"@[4] != "get_routine_definition"@[4]);
            assert("get_view_columns"@[4] != "get_routine_definition"@[4]);
            assert("get_routines"@[11] != "get_routine_definition"@[11]);
            assert("get_routine_parameters"@[12] != "get_routine_definition"@[12]);
        },
        Method::GetSchemaSnapshot => {
            assert("initialize"@[0] != "get_schema_snapshot"@[0]);
            assert("ping"@[0] != "get_schema_snapshot"@[0]);
            assert("test_connection"@[0] != "get_schema_snapshot"@[0]);
            assert("get_databases"@[4] != "get_schema_snapshot"@[4]);
            assert("get_schemas"@[10] != "get_schema_snapshot"@[10]);
            assert("get_tables"@[4] != "get_schema_snapshot"@[4]);
            assert("get_columns"@[4] != "get_schema_snapshot"@[4]);
            assert("get_foreign_keys"@[4] != "get_schema_snapshot"@[4]);
            assert("get_indexes"@[4] != "get_schema_snapshot"@[4]);
            assert("get_views"@[4] != "get_schema_snapshot"@[4]);
            assert("get_view_definition"@[4] != "get_schema_snapshot"@[4]);
            assert("get_view_columns"@[4] != "get_schema_snapshot"@[4]);
            assert("get_routines"@[4] != "get_schema_snapshot"@[4]);
            assert("get_routine_parameters"@[4] != "get_schema_snapshot"@[4]);
            assert("get_routine_definition"@[4] != "get_schema_snapshot"@[4]);
        },
        Method::GetAllColumnsBatch => {
            assert("initialize"@[0] != "get_all_columns_batch"@[0]);
            assert("ping"@[0] != "get_all_columns_batch"@[0]);
            assert("test_connection"@[0] != "get_all_columns_batch"@[0]);
            assert("get_databases"@[4] != "get_all_columns_batch"@[4]);
            assert("get_schemas"@[4] != "get_all_columns_batch"@[4]);
            assert("get_tables"@[4] != "get_all_columns_batch"@[4]);
            assert("get_columns"@[4] != "get_all_columns_batch"@[4]);
            assert("get_foreign_keys"@[4] != "get_all_columns_batch"@[4]);
            assert("get_indexes"@[4] != "get_all_columns_batch"@[4]);
            assert("get_views"@[4] != "get_all_columns_batch"@[4]);
            assert("get_view_definition"@[4] != "get_all_columns_batch"@[4]);
            assert("get_view_columns"@[4] != "get_all_columns_batch"@[4]);
            assert("get_routines"@[4] != "get_all_columns_batch"@[4]);
            assert("get_routine_parameters"@[4] != "get_all_columns_batch"@[4]);
            assert("get_routine_definition"@[4] != "get_all_columns_batch"@[4]);
            assert("get_schema_snapshot"@[4] != "get_all_columns_batch"@[4]);
        },
        Method::GetAllForeignKeysBatch => {
            assert("initialize"@[0] != "get_all_foreign_keys_batch"@[0]);
            assert("ping"@[0] != "get_all_foreign_keys_batch"@[0]);
            assert("test_connection"@[0] != "get_all_foreign_keys_batch"@[0]);
            assert("get_databases"@[4] != "get_all_foreign_keys_batch"@[4]);
            assert("get_schemas"@[4] != "get_all_foreign_keys_batch"@[4]);
            assert("get_tables"@[4] != "get_all_foreign_keys_batch"@[4]);
            assert("get_columns"@[4] != "get_all_foreign_keys_batch"@[4]);
            assert("get_foreign_keys"@[4] != "get_all_foreign_keys_batch"@[4]);
            assert("get_indexes"@[4] != "get_all_foreign_keys_batch"@[4]);
            assert("get_views"@[4] != "get_all_foreign_keys_batch"@[4]);
            assert("get_view_definition"@[4] != "get_all_foreign_keys_batch"@[4]);
            assert("get_view_columns"@[4] != "get_all_foreign_keys_batch"@[4]);
            assert("get_routines"@[4] != "get_all_foreign_keys_batch"@[4]);
            assert("get_routine_parameters"@[4] != "get_all_foreign_keys_batch"@[4]);
            assert("get_routine_definition"@[4] != "get_all_foreign_keys_batch"@[4]);
            assert("get_schema_snapshot"@[4] != "get_all_foreign_keys_batch"@[4]);
            assert("get_all_columns_batch"@[8] != "get_all_foreign_keys_batch"@[8]);
        },
        Method::CreateView => {
            assert("initialize"@[0] != "create_view"@[0]);
            assert("ping"@[0] != "create_view"@[0]);
            assert("test_connection"@[0] != "create_view"@[0]);
            assert("get_databases"@[0] != "create_view"@[0]);
            assert("get_schemas"@[0] != "create_view"@[0]);
            assert("get_tables"@[0] != "create_view"@[0]);
            assert("get_columns"@[0] != "create_view"@[0]);
            assert("get_foreign_keys"@[0] != "create_view"@[0]);
            assert("get_indexes"@[0] != "create_view"@[0]);
            assert("get_views"@[0] != "create_view"@[0]);
            assert("get_view_definition"@[0] != "create_view"@[0]);
            assert("get_view_columns"@[0] != "create_view"@[0]);
            assert("get_routines"@[0] != "create_view"@[0]);
            assert("get_routine_parameters"@[0] != "create_view"@[0]);
            assert("get_routine_definition"@[0] != "create_view"@[0]);
            assert("get_schema_snapshot"@[0] != "create_view"@[0]);
            assert("get_all_columns_batch"@[0] != "create_view"@[0]);
            assert("get_all_foreign_keys_batch"@[0] != "create_view"@[0]);
        },
        Method::AlterView => {
            assert("initialize"@[0] != "alter_view"@[0]);
            assert("ping"@[0] != "alter_view"@[0]);
            assert("test_connection"@[0] != "alter_view"@[0]);
            assert("get_databases"@[0] != "alter_view"@[0]);
            assert("get_schemas"@[0] != "alter_view"@[0]);
            assert("get_tables"@[0] != "alter_view"@[0]);
            assert("get_columns"@[0] != "alter_view"@[0]);
            assert("get_foreign_keys"@[0] != "alter_view"@[0]);
            assert("get_indexes"@[0] != "alter_view"@[0]);
            assert("get_views"@[0] != "alter_view"@[0]);
            assert("get_view_definition"@[0] != "alter_view"@[0]);
            assert("get_view_columns"@[0] != "alter_view"@[0]);
            assert("get_routines"@[0] != "alter_view"@[0]);
            assert("get_routine_parameters"@[0] != "alter_view"@[0]);
            assert("get_routine_definition"@[0] != "alter_view"@[0]);
            assert("get_schema_snapshot"@[0] != "alter_view"@[0]);
            assert("get_all_columns_batch"@[0] != "alter_view"@[0]);
            assert("get_all_foreign_keys_batch"@[0] != "alter_view"@[0]);
            assert("create_view"@[0] != "alter_view"@[0]);
        },
        Method::DropView => {
            assert("initialize"@[0] != "drop_view"@[0]);
            assert("ping"@[0] != "drop_view"@[0]);
            assert("test_connection"@[0] != "drop_view"@[0]);
            assert("get_databases"@[0] != "drop_view"@[0]);
            assert("get_schemas"@[0] != "drop_view"@[0]);
            assert("get_tables"@[0] != "drop_view"@[0]);
            assert("get_columns"@[0] != "drop_view"@[0]);
            assert("get_foreign_keys"@[0] != "drop_view"@[0]);
            assert("get_indexes"@[0] != "drop_view"@[0]);
            assert("get_views"@[0] != "drop_view"@[0]);
            assert("get_view_definition"@[0] != "drop_view"@[0]);
            assert("get_view_columns"@[0] != "drop_view"@[0]);
            assert("get_routines"@[0] != "drop_view"@[0]);
            assert("get_routine_parameters"@[0] != "drop_view"@[0]);
            assert("get_routine_definition"@[0] != "drop_view"@[0]);
            assert("get_schema_snapshot"@[0] != "drop_view"@[0]);
            assert("get_all_columns_batch"@[0] != "drop_view"@[0]);
            assert("get_all_foreign_keys_batch"@[0] != "drop_view"@[0]);
            assert("create_view"@[0] != "drop_view"@[0]);
            assert("alter_view"@[0] != "drop_view"@[0]);
        },
        Method::ExecuteQuery => {
            assert("initialize"@[0] != "execute_query"@[0]);
            assert("ping"@[0] != "execute_query"@[0]);
            assert("test_connection"@[0] != "execute_query"@[0]);
            assert("get_databases"@[0] != "execute_query"@[0]);
            assert("get_schemas"@[0] != "execute_query"@[0]);
            assert("get_tables"@[0] != "execute_query"@[0]);
            assert("get_columns"@[0] != "execute_query"@[0]);
            assert("get_foreign_keys"@[0] != "execute_query"@[0]);
            assert("get_indexes"@[0] != "execute_query"@[0]);
            assert("get_views"@[0] != "execute_query"@[0]);
            assert("get_view_definition"@[0] != "execute_query"@[0]);
            assert("get_view_columns"@[0] != "execute_query"@[0]);
            assert("get_routines"@[0] != "execute_query"@[0]);
            assert("get_routine_parameters"@[0] != "execute_query"@[0]);
            assert("get_routine_definition"@[0] != "execute_query"@[0]);
            assert("get_schema_snapshot"@[0] != "execute_query"@[0]);
            assert("get_all_columns_batch"@[0] != "execute_query"@[0]);
            assert("get_all_foreign_keys_batch"@[0] != "execute_query"@[0]);
            assert("create_view"@[0] != "execute_query"@[0]);
            assert("alter_view"@[0] != "execute_query"@[0]);
            assert("drop_view"@[0] != "execute_query"@[0]);
        },
        Method::ExplainQuery => {
            assert("initialize"@[0] != "explain_query"@[0]);
            assert("ping"@[0] != "explain_query"@[0]);
            assert("test_connection"@[0] != "explain_query"@[0]);
            assert("get_databases"@[0] != "explain_query"@[0]);
            assert("get_schemas"@[0] != "explain_query"@[0]);
            assert("get_tables"@[0] != "explain_query"@[0]);
            assert("get_columns"@[0] != "explain_query"@[0]);
            assert("get_foreign_keys"@[0] != "explain_query"@[0]);
            assert("get_indexes"@[0] != "explain_query"@[0]);
            assert("get_views"@[0] != "explain_query"@[0]);
            assert("get_view_definition"@[0] != "explain_query"@[0]);
            assert("get_view_columns"@[0] != "explain_query"@[0]);
            assert("get_routines"@[0] != "explain_query"@[0]);
            assert("get_routine_parameters"@[0] != "explain_query"@[0]);
            assert("get_routine_definition"@[0] != "explain_query"@[0]);
            assert("get_schema_snapshot"@[0] != "explain_query"@[0]);
            assert("get_all_columns_batch"@[0] != "explain_query"@[0]);
            assert("get_all_foreign_keys_batch"@[0] != "explain_query"@[0]);
            assert("create_view"@[0] != "explain_query"@[0]);
            assert("alter_view"@[0] != "explain_query"@[0]);
            assert("drop_view"@[0] != "explain_query"@[0]);
            assert("execute_query"@[2] != "explain_query"@[2]);
        },
        Method::InsertRecord => {
            assert("initialize"@[2] != "insert_record"@[2]);
            assert("ping"@[0] != "insert_record"@[0]);
            assert("test_connection"@[0] != "insert_record"@[0]);
            assert("get_databases"@[0] != "insert_record"@[0]);
            assert("get_schemas"@[0] != "insert_record"@[0]);
            assert("get_tables"@[0] != "insert_record"@[0]);
            assert("get_columns"@[0] != "insert_record"@[0]);
            assert("get_foreign_keys"@[0] != "insert_record"@[0]);
            assert("get_indexes"@[0] != "insert_record"@[0]);
            assert("get_views"@[0] != "insert_record"@[0]);
            assert("get_view_definition"@[0] != "insert_record"@[0]);
            assert("get_view_columns"@[0] != "insert_record"@[0]);
            assert("get_routines"@[0] != "insert_record"@[0]);
            assert("get_routine_parameters"@[0] != "insert_record"@[0]);
            assert("get_routine_definition"@[0] != "insert_record"@[0]);
            assert("get_schema_snapshot"@[0] != "insert_record"@[0]);
            assert("get_all_columns_batch"@[0] != "insert_record"@[0]);
            assert("get_all_foreign_keys_batch"@[0] != "insert_record"@[0]);
            assert("create_view"@[0] != "insert_record"@[0]);
            assert("alter_view"@[0] != "insert_record"@[0]);
            assert("drop_view"@[0] != "insert_record"@[0]);
            assert("execute_query"@[0] != "insert_record"@[0]);
            assert("explain_query"@[0] != "insert_record"@[0]);
        },
        Method::UpdateRecord => {
            assert("initialize"@[0] != "update_record"@[0]);
            assert("ping"@[0] != "update_record"@[0]);
            assert("test_connection"@[0] != "update_record"@[0]);
            assert("get_databases"@[0] != "update_record"@[0]);
            assert("get_schemas"@[0] != "update_record"@[0]);
            assert("get_tables"@[0] != "update_record"@[0]);
            assert("get_columns"@[0] != "update_record"@[0]);
            assert("get_foreign_keys"@[0] != "update_record"@[0]);
            assert("get_indexes"@[0] != "update_record"@[0]);
            assert("get_views"@[0] != "update_record"@[0]);
            assert("get_view_definition"@[0] != "update_record"@[0]);
            assert("get_view_columns"@[0] != "update_record"@[0]);
            assert("get_routines"@[0] != "update_record"@[0]);
            assert("get_routine_parameters"@[0] != "update_record"@[0]);
            assert("get_routine_definition"@[0] != "update_record"@[0]);
            assert("get_schema_snapshot"@[0] != "update_record"@[0]);
            assert("get_all_columns_batch"@[0] != "update_record"@[0]);
            assert("get_all_foreign_keys_batch"@[0] != "update_record"@[0]);
            assert("create_view"@[0] != "update_record"@[0]);
            assert("alter_view"@[0] != "update_record"@[0]);
            assert("drop_view"@[0] != "update_record"@[0]);
            assert("execute_query"@[0] != "update_record"@[0]);
            assert("explain_query"@[0] != "update_record"@[0]);
            assert("insert_record"@[0] != "update_record"@[0]);
        },
        Method::DeleteRecord => {
            assert("initialize"@[0] != "delete_record"@[0]);
            assert("ping"@[0] != "delete_record"@[0]);
            assert("test_connection"@[0] != "delete_record"@[0]);
            assert("get_databases"@[0] != "delete_record"@[0]);
            assert("get_schemas"@[0] != "delete_record"@[0]);
            assert("get_tables"@[0] != "delete_record"@[0]);
            assert("get_columns"@[0] != "delete_record"@[0]);
            assert("get_foreign_keys"@[0] != "delete_record"@[0]);
            assert("get_indexes"@[0] != "delete_record"@[0]);
            assert("get_views"@[0] != "delete_record"@[0]);
            assert("get_view_definition"@[0] != "delete_record"@[0]);
            assert("get_view_columns"@[0] != "delete_record"@[0]);
            assert("get_routines"@[0] != "delete_record"@[0]);
            assert("get_routine_parameters"@[0] != "delete_record"@[0]);
            assert("get_routine_definition"@[0] != "delete_record"@[0]);
            assert("get_schema_snapshot"@[0] != "delete_record"@[0]);
            assert("get_all_columns_batch"@[0] != "delete_record"@[0]);
            assert("get_all_foreign_keys_batch"@[0] != "delete_record"@[0]);
            assert("create_view"@[0] != "delete_record"@[0]);
            assert("alter_view"@[0] != "delete_record"@[0]);
            assert("drop_view"@[1] != "delete_record"@[1]);
            assert("execute_query"@[0] != "delete_record"@[0]);
            assert("explain_query"@[0] != "delete_record"@[0]);
            assert("insert_record"@[0] != "delete_record"@[0]);
            assert("update_record"@[0] != "delete_record"@[0]);
        },
        Method::GetCreateTableSql => {
            assert("initialize"@[0] != "get_create_table_sql"@[0]);
            assert("ping"@[0] != "get_create_table_sql"@[0]);
            assert("test_connection"@[0] != "get_create_table_sql"@[0]);
            assert("get_databases"@[4] != "get_create_table_sql"@[4]);
            assert("get_schemas"@[4] != "get_create_table_sql"@[4]);
            assert("get_tables"@[4] != "get_create_table_sql"@[4]);
            assert("get_columns"@[5] != "get_create_table_sql"@[5]);
            assert("get_foreign_keys"@[4] != "get_create_table_sql"@[4]);
            assert("get_indexes"@[4] != "get_create_table_sql"@[4]);
            assert("get_views"@[4] != "get_create_table_sql"@[4]);
            assert("get_view_definition"@[4] != "get_create_table_sql"@[4]);
            assert("get_view_columns"@[4] != "get_create_table_sql"@[4]);
            assert("get_routines"@[4] != "get_create_table_sql"@[4]);
            assert("get_routine_parameters"@[4] != "get_create_table_sql"@[4]);
            assert("get_routine_definition"@[4] != "get_create_table_sql"@[4]);
            assert("get_schema_snapshot"@[4] != "get_create_table_sql"@[4]);
            assert("get_all_columns_batch"@[4] != "get_create_table_sql"@[4]);
            assert("get_all_foreign_keys_batch"@[4] != "get_create_table_sql"@[4]);
            assert("create_view"@[0] != "get_create_table_sql"@[0]);
            assert("alter_view"@[0] != "get_create_table_sql"@[0]);
            assert("drop_view"@[0] != "get_create_table_sql"@[0]);
            assert("execute_query"@[0] != "get_create_table_sql"@[0]);
            assert("explain_query"@[0] != "get_create_table_sql"@[0]);
            assert("insert_record"@[0] != "get_create_table_sql"@[0]);
            assert("update_record"@[0] != "get_create_table_sql"@[0]);
            assert("delete_record"@[0] != "get_create_table_sql"@[0]);
        },
        Method::GetAddColumnSql => {
            assert("initialize"@[0] != "get_add_column_sql"@[0]);
            assert("ping"@[0] != "get_add_column_sql"@[0]);
            assert("test_connection"@[0] != "get_add_column_sql"@[0]);
            assert("get_databases"@[4] != "get_add_column_sql"@[4]);
            assert("get_schemas"@[4] != "get_add_column_sql"@[4]);
            assert("get_tables"@[4] != "get_add_column_sql"@[4]);
            assert("get_columns"@[4] != "get_add_column_sql"@[4]);
            assert("get_foreign_keys"@[4] != "get_add_column_sql"@[4]);
            assert("get_indexes"@[4] != "get_add_column_sql"@[4]);
            assert("get_views"@[4] != "get_add_column_sql"@[4]);
            assert("get_view_definition"@[4] != "get_add_column_sql"@[4]);
            assert("get_view_columns"@[4] != "get_add_column_sql"@[4]);
            assert("get_routines"@[4] != "get_add_column_sql"@[4]);
            assert("get_routine_parameters"@[4] != "get_add_column_sql"@[4]);
            assert("get_routine_definition"@[4] != "get_add_column_sql"@[4]);
            assert("get_schema_snapshot"@[4] != "get_add_column_sql"@[4]);
            assert("get_all_columns_batch"@[5] != "get_add_column_sql"@[5]);
            assert("get_all_foreign_keys_batch"@[5] != "get_add_column_sql"@[5]);
            assert("create_view"@[0] != "get_add_column_sql"@[0]);
            assert("alter_view"@[0] != "get_add_column_sql"@[0]);
            assert("drop_view"@[0] != "get_add_column_sql"@[0]);
            assert("execute_query"@[0] != "get_add_column_sql"@[0]);
            assert("explain_query"@[0] != "get_add_column_sql"@[0]);
            assert("insert_record"@[0] != "get_add_column_sql"@[0]);
            assert("update_record"@[0] != "get_add_column_sql"@[0]);
            assert("delete_record"@[0] != "get_add_column_sql"@[0]);
            assert("get_create_table_sql"@[4] != "get_add_column_sql"@[4]);
        },
        Method::GetAlterColumnSql => {
            assert("initialize"@[0] != "get_alter_column_sql"@[0]);
            assert("ping"@[0] != "get_alter_column_sql"@[0]);
            assert("test_connection"@[0] != "get_alter_column_sql"@[0]);
            assert("get_databases"@[4] != "get_alter_column_sql"@[4]);
            assert("get_schemas"@[4] != "get_alter_column_sql"@[4]);
            assert("get_tables"@[4] != "get_alter_column_sql"@[4]);
            assert("get_columns"@[4] != "get_alter_column_sql"@[4]);
            assert("get_foreign_keys"@[4] != "get_alter_column_sql"@[4]);
            assert("get_indexes"@[4] != "get_alter_column_sql"@[4]);
            assert("get_views"@[4] != "get_alter_column_sql"@[4]);
            assert("get_view_definition"@[4] != "get_alter_column_sql"@[4]);
            assert("get_view_columns"@[4] != "get_alter_column_sql"@[4]);
            assert("get_routines"@[4] != "get_alter_column_sql"@[4]);
            assert("get_routine_parameters"@[4] != "get_alter_column_sql"@[4]);
            assert("get_routine_definition"@[4] != "get_alter_column_sql"@[4]);
            assert("get_schema_snapshot"@[4] != "get_alter_column_sql"@[4]);
            assert("get_all_columns_batch"@[6] != "get_alter_column_sql"@[6]);
            assert("get_all_foreign_keys_batch"@[6] != "get_alter_column_sql"@[6]);
            assert("create_view"@[0] != "get_alter_column_sql"@[0]);
            assert("alter_view"@[0] != "get_alter_column_sql"@[0]);
            assert("drop_view"@[0] != "get_alter_column_sql"@[0]);
            assert("execute_query"@[0] != "get_alter_column_sql"@[0]);
            assert("explain_query"@[0] != "get_alter_column_sql"@[0]);
            assert("insert_record"@[0] != "get_alter_column_sql"@[0]);
            assert("update_record"@[0] != "get_alter_column_sql"@[0]);
            assert("delete_record"@[0] != "get_alter_column_sql"@[0]);
            assert("get_create_table_sql"@[4] != "get_alter_column_sql"@[4]);
            assert("get_add_column_sql"@[5] != "get_alter_column_sql"@[5]);
        },
        Method::GetCreateIndexSql => {
            assert("initialize"@[0] != "get_create_index_sql"@[0]);
            assert("ping"@[0] != "get_create_index_sql"@[0]);
            assert("test_connection"@[0] != "get_create_index_sql"@[0]);
            assert("get_databases"@[4] != "get_create_index_sql"@[4]);
            assert("get_schemas"@[4] != "get_create_index_sql"@[4]);
            assert("get_tables"@[4] != "get_create_index_sql"@[4]);
            assert("get_columns"@[5] != "get_create_index_sql"@[5]);
            assert("get_foreign_keys"@[4] != "get_create_index_sql"@[4]);
            assert("get_indexes"@[4] != "get_create_index_sql"@[4]);
            assert("get_views"@[4] != "get_create_index_sql"@[4]);
            assert("get_view_definition"@[4] != "get_create_index_sql"@[4]);
            assert("get_view_columns"@[4] != "get_create_index_sql"@[4]);
            assert("get_routines"@[4] != "get_create_index_sql"@[4]);
            assert("get_routine_parameters"@[4] != "get_create_index_sql"@[4]);
            assert("get_routine_definition"@[4] != "get_create_index_sql"@[4]);
            assert("get_schema_snapshot"@[4] != "get_create_index_sql"@[4]);
            assert("get_all_columns_batch"@[4] != "get_create_index_sql"@[4]);
            assert("get_all_foreign_keys_batch"@[4] != "get_create_index_sql"@[4]);
            assert("create_view"@[0] != "get_create_index_sql"@[0]);
            assert("alter_view"@[0] != "get_create_index_sql"@[0]);
            assert("drop_view"@[0] != "get_create_index_sql"@[0]);
            assert("execute_query"@[0] != "get_create_index_sql"@[0]);
            assert("explain_query"@[0] != "get_create_index_sql"@[0]);
            assert("insert_record"@[0] != "get_create_index_sql"@[0]);
            assert("update_record"@[0] != "get_create_index_sql"@[0]);
            assert("delete_record"@[0] != "get_create_index_sql"@[0]);
            assert("get_create_table_sql"@[11] != "get_create_index_sql"@[11]);
            assert("get_add_column_sql"@[4] != "get_create_index_sql"@[4]);
            assert("get_alter_column_sql"@[4] != "get_create_index_sql"@[4]);
        },
        Method::GetCreateForeignKeySql => {
            assert("initialize"@[0] != "get_create_foreign_key_sql"@[0]);
            assert("ping"@[0] != "get_create_foreign_key_sql"@[0]);
            assert("test_connection"@[0] != "get_create_foreign_key_sql"@[0]);
            assert("get_databases"@[4] != "get_create_foreign_key_sql"@[4]);
            assert("get_schemas"@[4] != "get_create_foreign_key_sql"@[4]);
            assert("get_tables"@[4] != "get_create_foreign_key_sql"@[4]);
            assert("get_columns"@[5] != "get_create_foreign_key_sql"@[5]);
            assert("get_foreign_keys"@[4] != "get_create_foreign_key_sql"@[4]);
            assert("get_indexes"@[4] != "get_create_foreign_key_sql"@[4]);
            assert("get_views"@[4] != "get_create_foreign_key_sql"@[4]);
            assert("get_view_definition"@[4] != "get_create_foreign_key_sql"@[4]);
            assert("get_view_columns"@[4] != "get_create_foreign_key_sql"@[4]);
            assert("get_routines"@[4] != "get_create_foreign_key_sql"@[4]);
            assert("get_routine_parameters"@[4] != "get_create_foreign_key_sql"@[4]);
            assert("get_routine_definition"@[4] != "get_create_foreign_key_sql"@[4]);
            assert("get_schema_snapshot"@[4] != "get_create_foreign_key_sql"@[4]);
            assert("get_all_columns_batch"@[4] != "get_create_foreign_key_sql"@[4]);
            assert("get_all_foreign_keys_batch"@[4] != "get_create_foreign_key_sql"@[4]);
            assert("create_view"@[0] != "get_create_foreign_key_sql"@[0]);
            assert("alter_view"@[0] != "get_create_foreign_key_sql"@[0]);
            assert("drop_view"@[0] != "get_create_foreign_key_sql"@[0]);
            assert("execute_query"@[0] != "get_create_foreign_key_sql"@[0]);
            assert("explain_query"@[0] != "get_create_foreign_key_sql"@[0]);
            assert("insert_record"@[0] != "get_create_foreign_key_sql"@[0]);
            assert("update_record"@[0] != "get_create_foreign_key_sql"@[0]);
            assert("delete_record"@[0] != "get_create_foreign_key_sql"@[0]);
            assert("get_create_table_sql"@[11] != "get_create_foreign_key_sql"@[11]);
            assert("get_add_column_sql"@[4] != "get_create_foreign_key_sql"@[4]);
            assert("get_alter_column_sql"@[4] != "get_create_foreign_key_sql"@[4]);
            assert("get_create_index_sql"@[11] != "get_create_foreign_key_sql"@[11]);
        },
        Method::DropIndex => {
            assert("initialize"@[0] != "drop_index"@[0]);
            assert("ping"@[0] != "drop_index"@[0]);
            assert("test_connection"@[0] != "drop_index"@[0]);
            assert("get_databases"@[0] != "drop_index"@[0]);
            assert("get_schemas"@[0] != "drop_index"@[0]);
            assert("get_tables"@[0] != "drop_index"@[0]);
            assert("get_columns"@[0] != "drop_index"@[0]);
            assert("get_foreign_keys"@[0] != "drop_index"@[0]);
            assert("get_indexes"@[0] != "drop_index"@[0]);
            assert("get_views"@[0] != "drop_index"@[0]);
            assert("get_view_definition"@[0] != "drop_index"@[0]);
            assert("get_view_columns"@[0] != "drop_index"@[0]);
            assert("get_routines"@[0] != "drop_index"@[0]);
            assert("get_routine_parameters"@[0] != "drop_index"@[0]);
            assert("get_routine_definition"@[0] != "drop_index"@[0]);
            assert("get_schema_snapshot"@[0] != "drop_index"@[0]);
            assert("get_all_columns_batch"@[0] != "drop_index"@[0]);
            assert("get_all_foreign_keys_batch"@[0] != "drop_index"@[0]);
            assert("create_view"@[0] != "drop_index"@[0]);
            assert("alter_view"@[0] != "drop_index"@[0]);
            assert("drop_view"@[5] != "drop_index"@[5]);
            assert("execute_query"@[0] != "drop_index"@[0]);
            assert("explain_query"@[0] != "drop_index"@[0]);
            assert("insert_record"@[0] != "drop_index"@[0]);
            assert("update_record"@[0] != "drop_index"@[0]);
            assert("delete_record"@[1] != "drop_index"@[1]);
            assert("get_create_table_sql"@[0] != "drop_index"@[0]);
            assert("get_add_column_sql"@[0] != "drop_index"@[0]);
            assert("get_alter_column_sql"@[0] != "drop_index"@[0]);
            assert("get_create_index_sql"@[0] != "drop_index"@[0]);
            assert("get_create_foreign_key_sql"@[0] != "drop_index"@[0]);
        },
        Method::DropForeignKey => {
            assert("initialize"@[0] != "drop_foreign_key"@[0]);
            assert("ping"@[0] != "drop_foreign_key"@[0]);
            assert("test_connection"@[0] != "drop_foreign_key"@[0]);
            assert("get_databases"@[0] != "drop_foreign_key"@[0]);
            assert("get_schemas"@[0] != "drop_foreign_key"@[0]);
            assert("get_tables"@[0] != "drop_foreign_key"@[0]);
            assert("get_columns"@[0] != "drop_foreign_key"@[0]);
            assert("get_foreign_keys"@[0] != "drop_foreign_key"@[0]);
            assert("get_indexes"@[0] != "drop_foreign_key"@[0]);
            assert("get_views"@[0] != "drop_foreign_key"@[0]);
            assert("get_view_definition"@[0] != "drop_foreign_key"@[0]);
            assert("get_view_columns"@[0] != "drop_foreign_key"@[0]);
            assert("get_routines"@[0] != "drop_foreign_key"@[0]);
            assert("get_routine_parameters"@[0] != "drop_foreign_key"@[0]);
            assert("get_routine_definition"@[0] != "drop_foreign_key"@[0]);
            assert("get_schema_snapshot"@[0] != "drop_foreign_key"@[0]);
            assert("get_all_columns_batch"@[0] != "drop_foreign_key"@[0]);
            assert("get_all_foreign_keys_batch"@[0] != "drop_foreign_key"@[0]);
            assert("create_view"@[0] != "drop_foreign_key"@[0]);
            assert("alter_view"@[0] != "drop_foreign_key"@[0]);
            assert("drop_view"@[5] != "drop_foreign_key"@[5]);
            assert("execute_query"@[0] != "drop_foreign_key"@[0]);
            assert("explain_query"@[0] != "drop_foreign_key"@[0]);
            assert("insert_record"@[0] != "drop_foreign_key"@[0]);
            assert("update_record"@[0] != "drop_foreign_key"@[0]);
            assert("delete_record"@[1] != "drop_foreign_key"@[1]);
            assert("get_create_table_sql"@[0] != "drop_foreign_key"@[0]);
            assert("get_add_column_sql"@[0] != "drop_foreign_key"@[0]);
            assert("get_alter_column_sql"@[0] != "drop_foreign_key"@[0]);
            assert("get_create_index_sql"@[0] != "drop_foreign_key"@[0]);
            assert("get_create_foreign_key_sql"@[0] != "drop_foreign_key"@[0]);
            assert("drop_index"@[5] != "drop_foreign_key"@[5]);
        },
    }
}

} // verus!
