//! Row-level create/update/delete, using bound parameters throughout so values
//! are never interpolated into SQL. Table names are schema-qualified because
//! one Oracle session sees every schema it has rights on.
use vstd::prelude::*;

use crate::error::{res_view, PluginError, INVALID_PARAMS};
use crate::handlers::{missing_param, missing_param_error, opt_str, req_str, req_str_spec};
use crate::json::{entry_models, lemma_entry_models, models, Json, JsonValue};
use crate::models::field_str;
use crate::text::{as_opt_str, dec, join, join_strings, push_dec, push_str, string_of, views};
use crate::utils::identifiers::{qualify, qualify_spec, quote, quote_spec};

verus! {

/// A statement with its bind values, in placeholder order.
pub struct Statement {
    pub sql: String,
    pub args: Vec<JsonValue>,
}

impl View for Statement {
    type V = (Seq<char>, Seq<Json>);

    open spec fn view(&self) -> (Seq<char>, Seq<Json>) {
        (self.sql@, models(self.args@))
    }
}

/// A required value parameter of any JSON type.
pub open spec fn req_value_spec(params: Json, key: Seq<char>) -> Result<Json, (i64, Seq<char>)> {
    match params.get(key) {
        Some(v) => Ok(v),
        None => Err((INVALID_PARAMS, missing_param(key))),
    }
}

/// The primary-key filter: the `pk_map` object's entries (column -> value,
/// supporting composite keys) or the single `pk_col`/`pk_val` pair.
pub open spec fn pk_pairs_spec(params: Json) -> Result<Seq<(Seq<char>, Json)>, (i64, Seq<char>)> {
    match params.get("pk_map"@) {
        Some(Json::Object(entries)) => if entries.len() == 0 {
            Err((INVALID_PARAMS, "'pk_map' object is empty"@))
        } else {
            Ok(entries)
        },
        _ => match req_str_spec(params, "pk_col"@) {
            Err(e) => Err(e),
            Ok(col) => match req_value_spec(params, "pk_val"@) {
                Err(e) => Err(e),
                Ok(v) => Ok(seq![(col, v)]),
            },
        },
    }
}

/// The values bound by a key filter: the non-null key values, in order.
pub open spec fn pk_binds(pairs: Seq<(Seq<char>, Json)>) -> Seq<Json>
    decreases pairs.len(),
{
    if pairs.len() == 0 {
        seq![]
    } else if pairs.last().1 == Json::Null {
        pk_binds(pairs.drop_last())
    } else {
        pk_binds(pairs.drop_last()).push(pairs.last().1)
    }
}

/// The condition of each key column: `IS NULL` for a null value, else a
/// placeholder numbered from `first` in bind order.
pub open spec fn pk_conditions(pairs: Seq<(Seq<char>, Json)>, first: nat) -> Seq<Seq<char>>
    decreases pairs.len(),
{
    if pairs.len() == 0 {
        seq![]
    } else {
        let prev = pk_conditions(pairs.drop_last(), first);
        let col = quote_spec(pairs.last().0);
        if pairs.last().1 == Json::Null {
            prev.push(col + " IS NULL"@)
        } else {
            prev.push(col + " = :"@ + dec(first + pk_binds(pairs.drop_last()).len()))
        }
    }
}

/// The WHERE clause of a key filter.
pub open spec fn pk_where_spec(pairs: Seq<(Seq<char>, Json)>, first: nat) -> Seq<char> {
    join(pk_conditions(pairs, first), " AND "@)
}

/// The placeholders `:1, :2, ...` of `n` values.
pub open spec fn placeholders(n: nat) -> Seq<Seq<char>> {
    Seq::new(n, |i: int| ":"@ + dec((i + 1) as nat))
}

/// `INSERT` for the `data` object of a request.
pub open spec fn insert_spec(params: Json) -> Result<(Seq<char>, Seq<Json>), (i64, Seq<char>)> {
    match req_str_spec(params, "table"@) {
        Err(e) => Err(e),
        Ok(table) => match params.get("data"@) {
            Some(Json::Object(entries)) => if entries.len() == 0 {
                Err((INVALID_PARAMS, "'data' object is empty"@))
            } else {
                Ok(
                    (
                        "INSERT INTO "@ + qualify_spec(field_str(params, "schema"@), table)
                            + " ("@ + join(
                            entries.map_values(|e: (Seq<char>, Json)| quote_spec(e.0)),
                            ", "@,
                        ) + ") VALUES ("@ + join(placeholders(entries.len()), ", "@) + ")"@,
                        entries.map_values(|e: (Seq<char>, Json)| e.1),
                    ),
                )
            },
            _ => Err((INVALID_PARAMS, "missing 'data' object"@)),
        },
    }
}

/// `UPDATE` of one column of the rows a key filter selects.
pub open spec fn update_spec(params: Json) -> Result<(Seq<char>, Seq<Json>), (i64, Seq<char>)> {
    match req_str_spec(params, "table"@) {
        Err(e) => Err(e),
        Ok(table) => match req_str_spec(params, "col_name"@) {
            Err(e) => Err(e),
            Ok(col) => match req_value_spec(params, "new_val"@) {
                Err(e) => Err(e),
                Ok(new_val) => match pk_pairs_spec(params) {
                    Err(e) => Err(e),
                    Ok(pk) => Ok(
                        (
                            "UPDATE "@ + qualify_spec(field_str(params, "schema"@), table)
                                + " SET "@ + quote_spec(col) + " = :1 WHERE "@ + pk_where_spec(
                                pk,
                                2,
                            ),
                            seq![new_val] + pk_binds(pk),
                        ),
                    ),
                },
            },
        },
    }
}

/// `DELETE` of the rows a key filter selects.
pub open spec fn delete_spec(params: Json) -> Result<(Seq<char>, Seq<Json>), (i64, Seq<char>)> {
    match req_str_spec(params, "table"@) {
        Err(e) => Err(e),
        Ok(table) => match pk_pairs_spec(params) {
            Err(e) => Err(e),
            Ok(pk) => Ok(
                (
                    "DELETE FROM "@ + qualify_spec(field_str(params, "schema"@), table)
                        + " WHERE "@ + pk_where_spec(pk, 1),
                    pk_binds(pk),
                ),
            ),
        },
    }
}

/// Read a required value parameter of any JSON type.
pub fn req_value(params: &JsonValue, key: &str) -> (r: Result<JsonValue, PluginError>)
    ensures
        res_view(r) == req_value_spec(params@, key@),
{
    match params.get(key) {
        Some(v) => Ok(v.duplicate()),
        None => Err(missing_param_error(key)),
    }
}

/// Copies of object entries.
fn copy_entries(entries: &Vec<(String, JsonValue)>) -> (r: Vec<(String, JsonValue)>)
    ensures
        entry_models(r@) == entry_models(entries@),
{
    let ghost m = entry_models(entries@);
    proof {
        lemma_entry_models(entries@);
    }
    let mut out: Vec<(String, JsonValue)> = Vec::new();
    let mut i: usize = 0;
    assert(entry_models(out@) =~= m.take(0));
    while i < entries.len()
        invariant
            i <= entries@.len(),
            m == entry_models(entries@),
            m.len() == entries@.len(),
            forall|j: int|
                0 <= j < entries@.len() ==> #[trigger] m[j] == (
                    entries@[j].0@,
                    entries@[j].1@,
                ),
            entry_models(out@) == m.take(i as int),
        decreases entries@.len() - i,
    {
        let value = entries[i].1.duplicate();
        JsonValue::push_entry(&mut out, entries[i].0.as_str(), value);
        assert(entry_models(out@) =~= m.take(i + 1));
        i = i + 1;
    }
    assert(m.take(entries@.len() as int) =~= m);
    out
}

/// The primary-key filter for update/delete. The host sends `pk_map`
/// (column -> value, supporting composite keys); the published guide
/// documents `pk_col`/`pk_val`, so accept that too.
pub fn pk_pairs(params: &JsonValue) -> (r: Result<Vec<(String, JsonValue)>, PluginError>)
    ensures
        match r {
            Ok(v) => pk_pairs_spec(params@) == Ok::<Seq<(Seq<char>, Json)>, (i64, Seq<char>)>(
                entry_models(v@),
            ),
            Err(e) => pk_pairs_spec(params@) == Err::<Seq<(Seq<char>, Json)>, (i64, Seq<char>)>(
                e@,
            ),
        },
{
    match params.get("pk_map") {
        Some(JsonValue::Object(entries)) => {
            proof {
                lemma_entry_models(entries@);
            }
            if entries.len() == 0 {
                return Err(PluginError::invalid_params(string_of("'pk_map' object is empty")));
            }
            return Ok(copy_entries(entries));
        },
        _ => {},
    }
    let pk_col = match req_str(params, "pk_col") {
        Ok(c) => c,
        Err(e) => return Err(e),
    };
    let pk_val = match req_value(params, "pk_val") {
        Ok(v) => v,
        Err(e) => return Err(e),
    };
    let mut out: Vec<(String, JsonValue)> = Vec::new();
    JsonValue::push_entry(&mut out, pk_col.as_str(), pk_val);
    assert(entry_models(out@) =~= seq![(pk_col@, pk_val@)]);
    Ok(out)
}

/// Build `WHERE` conditions for the key columns, binding values starting at
/// placeholder `:{first_bind}`. NULL keys become `IS NULL` (no bind).
pub fn pk_where(pairs: &[(String, JsonValue)], first_bind: usize, args: &mut Vec<JsonValue>) -> (r:
    String)
    ensures
        r@ == pk_where_spec(entry_models(pairs@), first_bind as nat),
        models(final(args)@) == models(old(args)@) + pk_binds(entry_models(pairs@)),
{
    let ghost m = entry_models(pairs@);
    let ghost start = models(args@);
    proof {
        lemma_entry_models(pairs@);
    }
    let mut bind: u128 = first_bind as u128;
    let mut conds: Vec<String> = Vec::new();
    let mut i: usize = 0;
    assert(m.take(0) =~= Seq::<(Seq<char>, Json)>::empty());
    assert(views(conds@) =~= Seq::<Seq<char>>::empty());
    assert(models(args@) =~= start + pk_binds(m.take(0)));
    while i < pairs.len()
        invariant
            i <= pairs@.len(),
            m == entry_models(pairs@),
            m.len() == pairs@.len(),
            forall|j: int|
                0 <= j < pairs@.len() ==> #[trigger] m[j] == (pairs@[j].0@, pairs@[j].1@),
            bind == first_bind + pk_binds(m.take(i as int)).len(),
            pk_binds(m.take(i as int)).len() <= i,
            views(conds@) == pk_conditions(m.take(i as int), first_bind as nat),
            models(args@) == start + pk_binds(m.take(i as int)),
        decreases pairs@.len() - i,
    {
        assert(m.take(i + 1).drop_last() =~= m.take(i as int));
        assert(m.take(i + 1).last() == m[i as int]);
        let col = quote(pairs[i].0.as_str());
        if pairs[i].1.is_null() {
            let mut c = col;
            push_str(&mut c, " IS NULL");
            conds.push(c);
        } else {
            let ghost before = models(args@);
            JsonValue::push_item(args, pairs[i].1.duplicate());
            assert(models(args@) =~= start + pk_binds(m.take(i + 1)));
            let mut c = col;
            push_str(&mut c, " = :");
            push_dec(&mut c, bind);
            conds.push(c);
            bind = bind + 1;
        }
        assert(views(conds@) =~= pk_conditions(m.take(i + 1), first_bind as nat));
        i = i + 1;
    }
    assert(m.take(pairs@.len() as int) =~= m);
    join_strings(&conds, " AND ")
}

/// The placeholders `:1 .. :n`.
fn placeholder_list(n: usize) -> (r: Vec<String>)
    ensures
        views(r@) == placeholders(n as nat),
{
    let mut out: Vec<String> = Vec::new();
    let mut i: usize = 0;
    while i < n
        invariant
            i <= n,
            views(out@) == placeholders(i as nat),
        decreases n - i,
    {
        let mut p = string_of(":");
        push_dec(&mut p, i as u128 + 1);
        let ghost before = views(out@);
        out.push(p);
        assert(views(out@) =~= before.push(p@));
        assert(placeholders((i + 1) as nat) =~= placeholders(i as nat).push(
            ":"@ + dec((i + 1) as nat),
        ));
        i = i + 1;
    }
    assert(views(out@) =~= placeholders(n as nat));
    out
}

/// The statement and binds of `insert_record`.
pub fn insert_statement(params: &JsonValue) -> (r: Result<Statement, PluginError>)
    ensures
        res_view(r) == insert_spec(params@),
{
    let schema = opt_str(params, "schema");
    let table = match req_str(params, "table") {
        Ok(t) => t,
        Err(e) => return Err(e),
    };
    let data = match params.get("data") {
        Some(JsonValue::Object(entries)) => entries,
        _ => return Err(PluginError::invalid_params(string_of("missing 'data' object"))),
    };
    let ghost m = entry_models(data@);
    proof {
        lemma_entry_models(data@);
    }
    if data.len() == 0 {
        return Err(PluginError::invalid_params(string_of("'data' object is empty")));
    }
    let mut columns: Vec<String> = Vec::new();
    let mut args: Vec<JsonValue> = Vec::new();
    let mut i: usize = 0;
    while i < data.len()
        invariant
            i <= data@.len(),
            m == entry_models(data@),
            m.len() == data@.len(),
            forall|j: int|
                0 <= j < data@.len() ==> #[trigger] m[j] == (data@[j].0@, data@[j].1@),
            views(columns@) == m.take(i as int).map_values(
                |e: (Seq<char>, Json)| quote_spec(e.0),
            ),
            models(args@) == m.take(i as int).map_values(|e: (Seq<char>, Json)| e.1),
        decreases data@.len() - i,
    {
        let ghost cols_before = views(columns@);
        let qk = quote(data[i].0.as_str());
        columns.push(qk);
        assert(views(columns@) =~= cols_before.push(qk@));
        assert(m.take(i + 1) =~= m.take(i as int).push(m[i as int]));
        JsonValue::push_item(&mut args, data[i].1.duplicate());
        assert(views(columns@) =~= m.take(i + 1).map_values(
            |e: (Seq<char>, Json)| quote_spec(e.0),
        ));
        assert(models(args@) =~= m.take(i + 1).map_values(|e: (Seq<char>, Json)| e.1));
        i = i + 1;
    }
    assert(m.take(data@.len() as int) =~= m);
    let marks = placeholder_list(data.len());
    let mut sql = string_of("INSERT INTO ");
    let q = qualify(as_opt_str(&schema), table.as_str());
    push_str(&mut sql, q.as_str());
    push_str(&mut sql, " (");
    let cols = join_strings(&columns, ", ");
    push_str(&mut sql, cols.as_str());
    push_str(&mut sql, ") VALUES (");
    let ms = join_strings(&marks, ", ");
    push_str(&mut sql, ms.as_str());
    push_str(&mut sql, ")");
    Ok(Statement { sql, args })
}

/// The statement and binds of `update_record`.
pub fn update_statement(params: &JsonValue) -> (r: Result<Statement, PluginError>)
    ensures
        res_view(r) == update_spec(params@),
{
    let schema = opt_str(params, "schema");
    let table = match req_str(params, "table") {
        Ok(t) => t,
        Err(e) => return Err(e),
    };
    let col_name = match req_str(params, "col_name") {
        Ok(c) => c,
        Err(e) => return Err(e),
    };
    let new_val = match req_value(params, "new_val") {
        Ok(v) => v,
        Err(e) => return Err(e),
    };
    let pk = match pk_pairs(params) {
        Ok(p) => p,
        Err(e) => return Err(e),
    };
    let mut args: Vec<JsonValue> = Vec::new();
    JsonValue::push_item(&mut args, new_val);
    let conditions = pk_where(pk.as_slice(), 2, &mut args);
    let mut sql = string_of("UPDATE ");
    let q = qualify(as_opt_str(&schema), table.as_str());
    push_str(&mut sql, q.as_str());
    push_str(&mut sql, " SET ");
    let qc = quote(col_name.as_str());
    push_str(&mut sql, qc.as_str());
    push_str(&mut sql, " = :1 WHERE ");
    push_str(&mut sql, conditions.as_str());
    Ok(Statement { sql, args })
}

/// The statement and binds of `delete_record`.
pub fn delete_statement(params: &JsonValue) -> (r: Result<Statement, PluginError>)
    ensures
        res_view(r) == delete_spec(params@),
{
    let schema = opt_str(params, "schema");
    let table = match req_str(params, "table") {
        Ok(t) => t,
        Err(e) => return Err(e),
    };
    let pk = match pk_pairs(params) {
        Ok(p) => p,
        Err(e) => return Err(e),
    };
    let mut args: Vec<JsonValue> = Vec::new();
    let conditions = pk_where(pk.as_slice(), 1, &mut args);
    let mut sql = string_of("DELETE FROM ");
    let q = qualify(as_opt_str(&schema), table.as_str());
    push_str(&mut sql, q.as_str());
    push_str(&mut sql, " WHERE ");
    push_str(&mut sql, conditions.as_str());
    Ok(Statement { sql, args })
}

/// Key filters bind by position: a null key value becomes `IS NULL` and
/// binds nothing; any other value is bound, in order, and its condition
/// names the placeholder `first + k`, where `k` counts the values bound
/// before it, so placeholder `first + k` receives bind `k`.
pub proof fn lemma_pk_where_binds(pairs: Seq<(Seq<char>, Json)>, first: nat, j: int)
    requires
        0 <= j < pairs.len(),
    ensures
        pk_conditions(pairs, first).len() == pairs.len(),
        pairs[j].1 == Json::Null ==> pk_conditions(pairs, first)[j] == quote_spec(pairs[j].0)
            + " IS NULL"@,
        pairs[j].1 != Json::Null ==> {
            let k = pk_binds(pairs.take(j)).len();
            &&& k < pk_binds(pairs).len()
            &&& pk_binds(pairs)[k as int] == pairs[j].1
            &&& pk_conditions(pairs, first)[j] == quote_spec(pairs[j].0) + " = :"@ + dec(first + k)
        },
    decreases pairs.len(),
{
    lemma_pk_lengths(pairs, first);
    let init = pairs.drop_last();
    if j == pairs.len() - 1 {
        assert(pairs.take(j) =~= init);
    } else {
        lemma_pk_where_binds(init, first, j);
        assert(init.take(j) =~= pairs.take(j));
        assert(init[j] == pairs[j]);
    }
}

/// One condition per key column, and at most one bind per key column.
proof fn lemma_pk_lengths(pairs: Seq<(Seq<char>, Json)>, first: nat)
    ensures
        pk_conditions(pairs, first).len() == pairs.len(),
        pk_binds(pairs).len() <= pairs.len(),
    decreases pairs.len(),
{
    if pairs.len() > 0 {
        lemma_pk_lengths(pairs.drop_last(), first);
    }
}

/// Joining a non-empty list whose last item is non-empty gives non-empty
/// text.
proof fn lemma_join_nonempty(items: Seq<Seq<char>>, sep: Seq<char>)
    requires
        items.len() > 0,
        items.last().len() > 0,
    ensures
        join(items, sep).len() > 0,
{
}

/// A key filter is never empty, so UPDATE and DELETE always carry a
/// non-empty WHERE clause and never touch a whole table. INSERT binds the
/// `data` values in their order, one per column; UPDATE binds the new value
/// first, as `:1`, then the non-null key values; DELETE binds the non-null
/// key values only.
pub proof fn lemma_crud_statements(params: Json)
    ensures
        pk_pairs_spec(params) is Ok ==> pk_pairs_spec(params)->Ok_0.len() > 0,
        insert_spec(params) is Ok ==> {
            &&& params.get("data"@) matches Some(Json::Object(entries))
            &&& entries.len() > 0
            &&& insert_spec(params)->Ok_0.1.len() == entries.len()
            &&& forall|i: int|
                0 <= i < entries.len() ==> #[trigger] insert_spec(params)->Ok_0.1[i] == entries[i].1
        },
        update_spec(params) is Ok ==> {
            let pk = pk_pairs_spec(params)->Ok_0;
            let stmt = update_spec(params)->Ok_0;
            &&& pk_pairs_spec(params) is Ok
            &&& params.get("new_val"@) is Some
            &&& stmt.1 == seq![params.get("new_val"@)->0] + pk_binds(pk)
            &&& pk_where_spec(pk, 2).len() > 0
            &&& stmt.0 == "UPDATE "@ + qualify_spec(field_str(params, "schema"@), req_str_spec(params, "table"@)->Ok_0)
                + " SET "@ + quote_spec(req_str_spec(params, "col_name"@)->Ok_0) + " = :1 WHERE "@
                + pk_where_spec(pk, 2)
        },
        delete_spec(params) is Ok ==> {
            let pk = pk_pairs_spec(params)->Ok_0;
            let stmt = delete_spec(params)->Ok_0;
            &&& pk_pairs_spec(params) is Ok
            &&& stmt.1 == pk_binds(pk)
            &&& pk_where_spec(pk, 1).len() > 0
            &&& stmt.0 == "DELETE FROM "@ + qualify_spec(field_str(params, "schema"@), req_str_spec(params, "table"@)->Ok_0)
                + " WHERE "@ + pk_where_spec(pk, 1)
        },
{
    if pk_pairs_spec(params) is Ok {
        let pk = pk_pairs_spec(params)->Ok_0;
        lemma_pk_where_binds(pk, 1, pk.len() - 1);
        lemma_pk_where_binds(pk, 2, pk.len() - 1);
        assert(pk_conditions(pk, 1).last().len() > 0);
        assert(pk_conditions(pk, 2).last().len() > 0);
        lemma_join_nonempty(pk_conditions(pk, 1), " AND "@);
        lemma_join_nonempty(pk_conditions(pk, 2), " AND "@);
    }
}

} // verus!
