//! JSON-RPC method handlers, split by concern, and the parameter and cell
//! readers they share.
pub mod crud;
pub mod ddl;
pub mod explain;
pub mod metadata;
pub mod query;

use vstd::prelude::*;

use crate::error::{res_view, PluginError, INTERNAL_ERROR, INVALID_PARAMS};
use crate::json::{Json, JsonValue};
use crate::models::field_str;
use crate::rpc::{error_response, error_response_spec, ok_response, ok_response_spec};
use crate::text::{opt_view, parse_i64, parse_i64_spec, push_str, string_of, trim_str};

verus! {

/// The query that reads the session's current schema.
pub const CURRENT_SCHEMA_SQL: &'static str = "SELECT SYS_CONTEXT('USERENV', 'CURRENT_SCHEMA') FROM DUAL";

/// The response for a handler result.
pub open spec fn respond_spec(id: Json, result: Result<Json, (i64, Seq<char>)>) -> Json {
    match result {
        Ok(v) => ok_response_spec(id, v),
        Err(e) => error_response_spec(id, e.0, e.1),
    }
}

/// The message for a missing parameter.
pub open spec fn missing_param(key: Seq<char>) -> Seq<char> {
    "missing '"@ + key + "' parameter"@
}

/// A required string parameter.
pub open spec fn req_str_spec(params: Json, key: Seq<char>) -> Result<Seq<char>, (i64, Seq<char>)> {
    match field_str(params, key) {
        Some(s) => Ok(s),
        None => Err((INVALID_PARAMS, missing_param(key))),
    }
}

/// The first of `keys` under which a string parameter is present.
pub open spec fn any_field(params: Json, keys: Seq<&str>) -> Option<Seq<char>>
    decreases keys.len(),
{
    if keys.len() == 0 {
        None
    } else {
        match field_str(params, keys[0]@) {
            Some(s) => Some(s),
            None => any_field(params, keys.drop_first()),
        }
    }
}

/// A required string parameter under any of several keys; the error names
/// the first key.
pub open spec fn req_str_any_spec(params: Json, keys: Seq<&str>) -> Result<
    Seq<char>,
    (i64, Seq<char>),
> {
    match any_field(params, keys) {
        Some(s) => Ok(s),
        None => Err((INVALID_PARAMS, missing_param(keys[0]@))),
    }
}

/// The cell `i` of a row, `null` when out of range.
pub open spec fn cell_spec(row: Seq<JsonValue>, i: int) -> Json {
    if 0 <= i < row.len() {
        row[i]@
    } else {
        Json::Null
    }
}

/// The string in cell `i` of a row.
pub open spec fn cell_str_spec(row: Seq<JsonValue>, i: int) -> Option<Seq<char>> {
    cell_spec(row, i).as_str()
}

/// An integer read from a value: a JSON integer in range of `i64`, or a
/// string that parses as one.
pub open spec fn int_of(v: Json) -> Option<i64> {
    match v.as_i64() {
        Some(i) => Some(i),
        None => match v.as_str() {
            Some(s) => parse_i64_spec(s),
            None => None,
        },
    }
}

/// The integer in cell `i` of a row, 0 when there is none.
pub open spec fn cell_i64_spec(row: Seq<JsonValue>, i: int) -> i64 {
    match int_of(cell_spec(row, i)) {
        Some(n) => n,
        None => 0,
    }
}

/// Turn a handler result into a JSON-RPC response.
pub fn respond(id: JsonValue, result: Result<JsonValue, PluginError>) -> (r: JsonValue)
    ensures
        r@ == respond_spec(id@, res_view(result)),
{
    match result {
        Ok(value) => ok_response(id, value),
        Err(err) => error_response(id, err.code, err.message.as_str()),
    }
}

/// Read an optional string parameter (absent, null and empty all count as
/// missing).
pub fn opt_str(params: &JsonValue, key: &str) -> (r: Option<String>)
    ensures
        opt_view(r) == field_str(params@, key@),
{
    match params.get(key) {
        Some(v) => match v.as_str() {
            Some(s) => {
                let t = trim_str(s);
                if t.unicode_len() > 0 {
                    Some(string_of(t))
                } else {
                    None
                }
            },
            None => None,
        },
        None => None,
    }
}

/// The invalid-params error for a missing parameter.
pub fn missing_param_error(key: &str) -> (e: PluginError)
    ensures
        e@ == (INVALID_PARAMS, missing_param(key@)),
{
    let mut m = String::new();
    push_str(&mut m, "missing '");
    push_str(&mut m, key);
    push_str(&mut m, "' parameter");
    PluginError::invalid_params(m)
}

/// Read a required string parameter from the top-level params object.
pub fn req_str(params: &JsonValue, key: &str) -> (r: Result<String, PluginError>)
    ensures
        res_view(r) == req_str_spec(params@, key@),
{
    match opt_str(params, key) {
        Some(s) => Ok(s),
        None => Err(missing_param_error(key)),
    }
}

/// Read a required string parameter that may arrive under any of several
/// keys (the host and the published guide disagree on some names).
pub fn req_str_any(params: &JsonValue, keys: &[&str]) -> (r: Result<String, PluginError>)
    requires
        keys@.len() > 0,
    ensures
        res_view(r) == req_str_any_spec(params@, keys@),
{
    let mut i: usize = 0;
    assert(keys@.skip(0) =~= keys@);
    while i < keys.len()
        invariant
            i <= keys@.len(),
            any_field(params@, keys@) == any_field(params@, keys@.skip(i as int)),
        decreases keys@.len() - i,
    {
        assert(keys@.skip(i as int).drop_first() =~= keys@.skip(i + 1));
        assert(keys@.skip(i as int)[0] == keys@[i as int]);
        match opt_str(params, keys[i]) {
            Some(s) => {
                return Ok(s);
            },
            None => {},
        }
        i = i + 1;
    }
    assert(keys@.skip(i as int) =~= Seq::<&str>::empty());
    Err(missing_param_error(keys[0]))
}

/// The schema named by the session when the request names none, or the
/// error when the session reports none.
pub fn current_schema(reported: Option<String>) -> (r: Result<String, PluginError>)
    ensures
        res_view(r) == match opt_view(reported) {
            Some(s) => Ok(s),
            None => Err((INTERNAL_ERROR, "could not determine current schema"@)),
        },
{
    match reported {
        Some(s) => Ok(s),
        None => Err(PluginError::internal(string_of("could not determine current schema"))),
    }
}

/// A cell from a result row, defaulting to JSON null when out of range.
pub fn cell(row: &[JsonValue], i: usize) -> (r: JsonValue)
    ensures
        r@ == cell_spec(row@, i as int),
{
    if i < row.len() {
        row[i].duplicate()
    } else {
        JsonValue::Null
    }
}

pub fn cell_str(row: &[JsonValue], i: usize) -> (r: Option<String>)
    ensures
        opt_view(r) == cell_str_spec(row@, i as int),
{
    if i < row.len() {
        match row[i].as_str() {
            Some(s) => Some(string_of(s)),
            None => None,
        }
    } else {
        None
    }
}

pub fn cell_i64(row: &[JsonValue], i: usize) -> (r: i64)
    ensures
        r == cell_i64_spec(row@, i as int),
{
    if i < row.len() {
        match row[i].as_i64() {
            Some(n) => n,
            None => match row[i].as_str() {
                Some(s) => match parse_i64(s) {
                    Some(n) => n,
                    None => 0,
                },
                None => 0,
            },
        }
    } else {
        0
    }
}

/// A parameter read under several keys is the value under the first key
/// that holds a non-blank string; when none does, the error names the
/// first key.
pub proof fn lemma_req_str_any(params: Json, keys: Seq<&str>)
    requires
        keys.len() > 0,
    ensures
        req_str_any_spec(params, keys) is Ok <==> exists|i: int|
            0 <= i < keys.len() && (#[trigger] field_str(params, keys[i]@)) is Some,
        req_str_any_spec(params, keys) is Ok ==> exists|i: int|
            0 <= i < keys.len() && Some(req_str_any_spec(params, keys)->Ok_0) == #[trigger] field_str(
                params,
                keys[i]@,
            ) && forall|j: int| 0 <= j < i ==> (#[trigger] field_str(params, keys[j]@)) is None,
        req_str_any_spec(params, keys) is Err ==> req_str_any_spec(params, keys)
            == Err::<Seq<char>, (i64, Seq<char>)>((INVALID_PARAMS, missing_param(keys[0]@))),
{
    lemma_any_field(params, keys);
}

proof fn lemma_any_field(params: Json, keys: Seq<&str>)
    ensures
        any_field(params, keys) is Some <==> exists|i: int|
            0 <= i < keys.len() && (#[trigger] field_str(params, keys[i]@)) is Some,
        any_field(params, keys) is Some ==> exists|i: int|
            0 <= i < keys.len() && any_field(params, keys) == #[trigger] field_str(params, keys[i]@)
                && forall|j: int| 0 <= j < i ==> (#[trigger] field_str(params, keys[j]@)) is None,
    decreases keys.len(),
{
    if keys.len() > 0 {
        let rest = keys.drop_first();
        lemma_any_field(params, rest);
        assert forall|i: int| 0 <= i < rest.len() implies rest[i] == keys[i + 1] by {}
        if field_str(params, keys[0]@) is Some {
            assert(any_field(params, keys) == field_str(params, keys[0]@));
        } else {
            if any_field(params, rest) is Some {
                let i = choose|i: int|
                    0 <= i < rest.len() && any_field(params, rest) == #[trigger] field_str(
                        params,
                        rest[i]@,
                    ) && forall|j: int| 0 <= j < i ==> (#[trigger] field_str(params, rest[j]@)) is None;
                assert(field_str(params, keys[i + 1]@) == field_str(params, rest[i]@));
                assert forall|j: int| 0 <= j < i + 1 implies (#[trigger] field_str(params, keys[j]@)) is None by {
                    if j > 0 {
                        assert(keys[j] == rest[j - 1]);
                        assert(field_str(params, rest[j - 1]@) is None);
                    }
                }
            }
            if exists|i: int| 0 <= i < keys.len() && (#[trigger] field_str(params, keys[i]@)) is Some {
                let i = choose|i: int| 0 <= i < keys.len() && (#[trigger] field_str(params, keys[i]@)) is Some;
                assert(i > 0);
                assert(field_str(params, rest[i - 1]@) is Some);
            }
        }
    }
}

} // verus!
