//! Schema discovery and view management on top of Oracle's `ALL_*` catalog
//! views, so the plugin sees exactly what the connected user is allowed to see.
//!
//! Result shapes match the host's models (`TableColumn`, `ForeignKey`,
//! `Index`, `TableSchema`, ...). This module holds the catalog queries and
//! turns their rows into those shapes.
//!
//! Batch methods (snapshot, columns/FKs batch) hit the catalog once per schema
//! instead of once per table. Their rows are kept as `(table, entry)` pairs
//! in catalog order; taking a table's entries removes them, so a table named
//! twice gets its entries once.
use vstd::prelude::*;

use crate::client::QueryResult;
use crate::error::{res_view, PluginError, INTERNAL_ERROR};
use crate::handlers::explain::event_view;
use crate::handlers::{
    cell, cell_i64, cell_i64_spec, cell_spec, cell_str, cell_str_spec, int_of, req_str,
    req_str_any, req_str_any_spec, req_str_spec,
};
use crate::json::{
    entry_models, lemma_entry_models, lemma_models, models, reversed, str_array, Json, JsonValue,
};
use crate::text::{
    dec_int, join, join_strings, opt_str_view, opt_view, push_dec_i64, push_str, str_eq, string_of,
    trim, trim_str, views,
};
use crate::utils::identifiers::{qualify, qualify_spec};

verus! {

// ---------------------------------------------------------------------------
// Catalog queries
// ---------------------------------------------------------------------------

/// The tables of a schema (bind 1: owner).
pub const TABLE_NAMES_SQL: &'static str = "SELECT table_name FROM all_tables WHERE owner = :1 AND nested = 'NO' AND secondary = 'N' AND table_name NOT LIKE 'BIN$%' ORDER BY table_name";

/// The name of the database the session is connected to.
pub const DB_NAME_SQL: &'static str = "SELECT SYS_CONTEXT('USERENV', 'DB_NAME') FROM DUAL";

/// The schemas visible to the session.
pub const SCHEMAS_SQL: &'static str = "SELECT username FROM all_users ORDER BY username";

/// The views of a schema (bind 1: owner).
pub const VIEWS_SQL: &'static str = "SELECT view_name FROM all_views WHERE owner = :1 ORDER BY view_name";

/// The text of a view (binds: owner, view).
pub const VIEW_TEXT_SQL: &'static str = "SELECT text FROM all_views WHERE owner = :1 AND view_name = :2";

/// The stand-alone procedures and functions of a schema (bind 1: owner).
pub const ROUTINES_SQL: &'static str = "SELECT object_name, object_type FROM all_objects WHERE owner = :1 AND object_type IN ('PROCEDURE', 'FUNCTION') ORDER BY object_name";

/// The parameters of a routine (binds: owner, routine).
pub const ROUTINE_PARAMETERS_SQL: &'static str = "SELECT argument_name, data_type, in_out, position FROM all_arguments WHERE owner = :1 AND object_name = :2 AND package_name IS NULL AND argument_name IS NOT NULL ORDER BY sequence";

/// The source lines of a routine (binds: owner, routine).
pub const ROUTINE_SOURCE_SQL: &'static str = "SELECT text FROM all_source WHERE owner = :1 AND name = :2 AND type IN ('PROCEDURE', 'FUNCTION') ORDER BY line";

/// The index columns of a table (binds: owner, table).
pub const INDEXES_SQL: &'static str = "SELECT i.index_name, i.uniqueness, ic.column_name, ic.column_position, CASE WHEN pc.constraint_name IS NOT NULL THEN 1 ELSE 0 END FROM all_indexes i JOIN all_ind_columns ic ON ic.index_owner = i.owner AND ic.index_name = i.index_name LEFT JOIN all_constraints pc ON pc.owner = i.table_owner AND pc.table_name = i.table_name AND pc.constraint_type = 'P' AND pc.index_name = i.index_name WHERE i.table_owner = :1 AND i.table_name = :2 ORDER BY i.index_name, ic.column_position";

/// Primary-key columns as (table, column) rows of a schema (bind 1: owner),
/// narrowed to one table (bind 2) when asked.
pub open spec fn pk_columns_sql_spec(for_table: bool) -> Seq<char> {
    "SELECT k.table_name, cc.column_name FROM all_constraints k JOIN all_cons_columns cc ON cc.owner = k.owner AND cc.constraint_name = k.constraint_name WHERE k.owner = :1 AND k.constraint_type = 'P'"@
        + if for_table {
        " AND k.table_name = :2"@
    } else {
        seq![]
    }
}

/// The primary-key query, as `pk_columns_sql_spec` says.
pub fn pk_columns_sql(for_table: bool) -> (r: String)
    ensures
        r@ == pk_columns_sql_spec(for_table),
{
    let mut sql = string_of(
        "SELECT k.table_name, cc.column_name FROM all_constraints k JOIN all_cons_columns cc ON cc.owner = k.owner AND cc.constraint_name = k.constraint_name WHERE k.owner = :1 AND k.constraint_type = 'P'",
    );
    if for_table {
        push_str(&mut sql, " AND k.table_name = :2");
    }
    assert(sql@ =~= "SELECT k.table_name, cc.column_name FROM all_constraints k JOIN all_cons_columns cc ON cc.owner = k.owner AND cc.constraint_name = k.constraint_name WHERE k.owner = :1 AND k.constraint_type = 'P'"@
        + if for_table {
        " AND k.table_name = :2"@
    } else {
        seq![]
    });
    sql
}

/// The column rows of a schema (bind 1: owner), narrowed to one table
/// (bind 2) when asked. `identity_column` only exists on Oracle 12c+; the
/// query without it reports every column as non-identity.
pub open spec fn columns_sql_spec(with_identity: bool, for_table: bool) -> Seq<char> {
    "SELECT c.table_name, c.column_name, c.data_type, c.char_length, c.data_length, c.data_precision, c.data_scale, c.nullable, c.data_default, "@
        + (if with_identity {
        "c.identity_column"@
    } else {
        "'NO'"@
    }) + " FROM all_tab_columns c WHERE c.owner = :1"@ + (if for_table {
        " AND c.table_name = :2"@
    } else {
        seq![]
    }) + " ORDER BY c.table_name, c.column_id"@
}

/// The column query, as `columns_sql_spec` says.
pub fn columns_sql(with_identity: bool, for_table: bool) -> (r: String)
    ensures
        r@ == columns_sql_spec(with_identity, for_table),
{
    let mut sql = string_of(
        "SELECT c.table_name, c.column_name, c.data_type, c.char_length, c.data_length, c.data_precision, c.data_scale, c.nullable, c.data_default, ",
    );
    let ghost head = sql@;
    if with_identity {
        push_str(&mut sql, "c.identity_column");
    } else {
        push_str(&mut sql, "'NO'");
    }
    let ghost with_expr = sql@;
    push_str(&mut sql, " FROM all_tab_columns c WHERE c.owner = :1");
    let ghost with_owner = sql@;
    if for_table {
        push_str(&mut sql, " AND c.table_name = :2");
    }
    let ghost with_filter = sql@;
    push_str(&mut sql, " ORDER BY c.table_name, c.column_id");
    proof {
        let e: Seq<char> = if with_identity {
            "c.identity_column"@
        } else {
            "'NO'"@
        };
        let f: Seq<char> = if for_table {
            " AND c.table_name = :2"@
        } else {
            seq![]
        };
        assert(with_expr =~= head + e);
        assert(with_filter =~= with_owner + f);
        assert(sql@ =~= head + e + " FROM all_tab_columns c WHERE c.owner = :1"@ + f
            + " ORDER BY c.table_name, c.column_id"@);
    }
    sql
}

/// The foreign-key rows of a schema (bind 1: owner), narrowed to one table
/// (bind 2) when asked.
pub fn foreign_keys_sql(for_table: bool) -> (r: String)
    ensures
        r@ == "SELECT k.table_name, k.constraint_name, cc.column_name, rk.table_name, rcc.column_name, k.delete_rule FROM all_constraints k JOIN all_cons_columns cc ON cc.owner = k.owner AND cc.constraint_name = k.constraint_name JOIN all_constraints rk ON rk.owner = k.r_owner AND rk.constraint_name = k.r_constraint_name JOIN all_cons_columns rcc ON rcc.owner = rk.owner AND rcc.constraint_name = rk.constraint_name AND rcc.position = cc.position WHERE k.owner = :1 AND k.constraint_type = 'R'"@
            + if for_table {
            " AND k.table_name = :2 ORDER BY k.constraint_name, cc.position"@
        } else {
            " ORDER BY k.table_name, k.constraint_name, cc.position"@
        },
{
    let mut sql = string_of(
        "SELECT k.table_name, k.constraint_name, cc.column_name, rk.table_name, rcc.column_name, k.delete_rule FROM all_constraints k JOIN all_cons_columns cc ON cc.owner = k.owner AND cc.constraint_name = k.constraint_name JOIN all_constraints rk ON rk.owner = k.r_owner AND rk.constraint_name = k.r_constraint_name JOIN all_cons_columns rcc ON rcc.owner = rk.owner AND rcc.constraint_name = rk.constraint_name AND rcc.position = cc.position WHERE k.owner = :1 AND k.constraint_type = 'R'",
    );
    if for_table {
        push_str(&mut sql, " AND k.table_name = :2 ORDER BY k.constraint_name, cc.position");
    } else {
        push_str(&mut sql, " ORDER BY k.table_name, k.constraint_name, cc.position");
    }
    sql
}

/// The binds of a catalog query: the owner, then the table when there is one.
pub open spec fn owner_binds_spec(owner: Seq<char>, table: Option<Seq<char>>) -> Seq<Json> {
    match table {
        Some(t) => seq![Json::Str(owner), Json::Str(t)],
        None => seq![Json::Str(owner)],
    }
}

/// The binds of a catalog query, as `owner_binds_spec` says.
pub fn owner_binds(owner: &str, table: Option<&str>) -> (r: Vec<JsonValue>)
    ensures
        models(r@) == owner_binds_spec(owner@, opt_str_view(table)),
{
    let mut binds: Vec<JsonValue> = Vec::new();
    JsonValue::push_item(&mut binds, JsonValue::from_str(owner));
    match table {
        Some(t) => {
            JsonValue::push_item(&mut binds, JsonValue::from_str(t));
        },
        None => {},
    }
    assert(models(binds@) =~= match table {
        Some(t) => seq![Json::Str(owner@), Json::Str(t@)],
        None => seq![Json::Str(owner@)],
    });
    binds
}

// ---------------------------------------------------------------------------
// Data types
// ---------------------------------------------------------------------------

/// The character types, whose length is their `char_length`.
pub open spec fn is_char_type_spec(base: Seq<char>) -> bool {
    base == "VARCHAR2"@ || base == "NVARCHAR2"@ || base == "CHAR"@ || base == "NCHAR"@
}

pub fn is_char_type(base: &str) -> (r: bool)
    ensures
        r == is_char_type_spec(base@),
{
    str_eq(base, "VARCHAR2") || str_eq(base, "NVARCHAR2") || str_eq(base, "CHAR") || str_eq(
        base,
        "NCHAR",
    )
}

/// An Oracle data type with its length/precision, e.g. `VARCHAR2(255)`,
/// `NUMBER(10,2)`. Types like `DATE` or `TIMESTAMP(6)` come out of the
/// catalog already complete and pass through.
pub open spec fn format_data_type_spec(
    base: Seq<char>,
    char_length: i64,
    data_length: i64,
    precision: Json,
    scale: Json,
) -> Seq<char> {
    let p = int_of(precision);
    let s = int_of(scale);
    if base == "NUMBER"@ {
        match p {
            Some(p) => match s {
                Some(s) => if s != 0 {
                    "NUMBER("@ + dec_int(p as int) + ","@ + dec_int(s as int) + ")"@
                } else {
                    "NUMBER("@ + dec_int(p as int) + ")"@
                },
                None => "NUMBER("@ + dec_int(p as int) + ")"@,
            },
            None => "NUMBER"@,
        }
    } else if base == "FLOAT"@ {
        match p {
            Some(p) => "FLOAT("@ + dec_int(p as int) + ")"@,
            None => "FLOAT"@,
        }
    } else if is_char_type_spec(base) && char_length > 0 {
        base + "("@ + dec_int(char_length as int) + ")"@
    } else if base == "RAW"@ && data_length > 0 {
        "RAW("@ + dec_int(data_length as int) + ")"@
    } else {
        base
    }
}

fn int_value(v: &JsonValue) -> (r: Option<i64>)
    ensures
        r == int_of(v@),
{
    match v.as_i64() {
        Some(i) => Some(i),
        None => match v.as_str() {
            Some(s) => crate::text::parse_i64(s),
            None => None,
        },
    }
}

/// Render an Oracle data type with its length/precision.
pub fn format_data_type(
    base: &str,
    char_length: i64,
    data_length: i64,
    precision: &JsonValue,
    scale: &JsonValue,
) -> (r: String)
    ensures
        r@ == format_data_type_spec(base@, char_length, data_length, precision@, scale@),
{
    let p = int_value(precision);
    let s = int_value(scale);
    if str_eq(base, "NUMBER") {
        match p {
            Some(p) => {
                let mut t = string_of("NUMBER(");
                push_dec_i64(&mut t, p);
                match s {
                    Some(s) => {
                        if s != 0 {
                            push_str(&mut t, ",");
                            push_dec_i64(&mut t, s);
                        }
                    },
                    None => {},
                }
                push_str(&mut t, ")");
                t
            },
            None => string_of("NUMBER"),
        }
    } else if str_eq(base, "FLOAT") {
        match p {
            Some(p) => {
                let mut t = string_of("FLOAT(");
                push_dec_i64(&mut t, p);
                push_str(&mut t, ")");
                t
            },
            None => string_of("FLOAT"),
        }
    } else if is_char_type(base) && char_length > 0 {
        let mut t = string_of(base);
        push_str(&mut t, "(");
        push_dec_i64(&mut t, char_length);
        push_str(&mut t, ")");
        t
    } else if str_eq(base, "RAW") && data_length > 0 {
        let mut t = string_of("RAW(");
        push_dec_i64(&mut t, data_length);
        push_str(&mut t, ")");
        t
    } else {
        string_of(base)
    }
}

// ---------------------------------------------------------------------------
// Catalog rows
// ---------------------------------------------------------------------------

/// A string, or empty.
pub open spec fn str_or_empty(o: Option<Seq<char>>) -> Seq<char> {
    match o {
        Some(s) => s,
        None => seq![],
    }
}

fn string_or_empty(o: Option<String>) -> (r: String)
    ensures
        r@ == str_or_empty(opt_view(o)),
{
    match o {
        Some(s) => s,
        None => String::new(),
    }
}

/// The strings in cell `i` of the rows, skipping rows without one.
pub open spec fn column_strings(rows: Seq<Vec<JsonValue>>, i: int) -> Seq<Seq<char>>
    decreases rows.len(),
{
    if rows.len() == 0 {
        seq![]
    } else {
        let prev = column_strings(rows.drop_last(), i);
        match cell_str_spec(rows.last()@, i) {
            Some(s) => prev.push(s),
            None => prev,
        }
    }
}

/// The strings in cell `i` of a result's rows (table names, schema names,
/// source lines, ...).
pub fn strings_in_column(result: &QueryResult, i: usize) -> (r: Vec<String>)
    ensures
        views(r@) == column_strings(result.rows@, i as int),
{
    let ghost rows = result.rows@;
    let mut out: Vec<String> = Vec::new();
    let mut k: usize = 0;
    assert(rows.take(0) =~= Seq::<Vec<JsonValue>>::empty());
    assert(views(out@) =~= Seq::<Seq<char>>::empty());
    while k < result.rows.len()
        invariant
            k <= rows.len(),
            rows == result.rows@,
            views(out@) == column_strings(rows.take(k as int), i as int),
        decreases rows.len() - k,
    {
        assert(rows.take(k + 1).drop_last() =~= rows.take(k as int));
        assert(rows.take(k + 1).last() == rows[k as int]);
        match cell_str(result.rows[k].as_slice(), i) {
            Some(s) => {
                let ghost before = views(out@);
                out.push(s);
                assert(views(out@) =~= before.push(s@));
            },
            None => {},
        }
        k = k + 1;
    }
    assert(rows.take(rows.len() as int) =~= rows);
    out
}

/// The views of (table, column) pairs.
pub open spec fn pair_views(v: Seq<(String, String)>) -> Seq<(Seq<char>, Seq<char>)> {
    v.map_values(|p: (String, String)| (p.0@, p.1@))
}

/// The (table, column) pairs of primary-key rows that name both.
pub open spec fn key_columns(rows: Seq<Vec<JsonValue>>) -> Seq<(Seq<char>, Seq<char>)>
    decreases rows.len(),
{
    if rows.len() == 0 {
        seq![]
    } else {
        let prev = key_columns(rows.drop_last());
        match (cell_str_spec(rows.last()@, 0), cell_str_spec(rows.last()@, 1)) {
            (Some(t), Some(c)) => prev.push((t, c)),
            _ => prev,
        }
    }
}

/// Primary-key columns as (table, column) pairs.
pub fn primary_key_columns(result: &QueryResult) -> (r: Vec<(String, String)>)
    ensures
        pair_views(r@) == key_columns(result.rows@),
{
    let ghost rows = result.rows@;
    let mut out: Vec<(String, String)> = Vec::new();
    let mut k: usize = 0;
    assert(rows.take(0) =~= Seq::<Vec<JsonValue>>::empty());
    assert(pair_views(out@) =~= Seq::<(Seq<char>, Seq<char>)>::empty());
    while k < result.rows.len()
        invariant
            k <= rows.len(),
            rows == result.rows@,
            pair_views(out@) == key_columns(rows.take(k as int)),
        decreases rows.len() - k,
    {
        assert(rows.take(k + 1).drop_last() =~= rows.take(k as int));
        assert(rows.take(k + 1).last() == rows[k as int]);
        let t = cell_str(result.rows[k].as_slice(), 0);
        let c = cell_str(result.rows[k].as_slice(), 1);
        match t {
            Some(t) => match c {
                Some(c) => {
                    let ghost before = pair_views(out@);
                    let ghost pair = (t@, c@);
                    out.push((t, c));
                    assert(pair_views(out@) =~= before.push(pair));
                },
                None => {},
            },
            None => {},
        }
        k = k + 1;
    }
    assert(rows.take(rows.len() as int) =~= rows);
    out
}

/// Whether (table, column) is a primary-key column.
fn is_key_column(pks: &Vec<(String, String)>, table: &str, column: &str) -> (r: bool)
    ensures
        r == pair_views(pks@).contains((table@, column@)),
{
    let ghost pv = pair_views(pks@);
    let mut i: usize = 0;
    while i < pks.len()
        invariant
            i <= pks@.len(),
            pv == pair_views(pks@),
            pv.len() == pks@.len(),
            forall|j: int| 0 <= j < i ==> pv[j] != (table@, column@),
        decreases pks@.len() - i,
    {
        assert(pv[i as int] == (pks@[i as int].0@, pks@[i as int].1@));
        if str_eq(pks[i].0.as_str(), table) && str_eq(pks[i].1.as_str(), column) {
            assert(pv[i as int] == (table@, column@));
            return true;
        }
        i = i + 1;
    }
    false
}

/// A column row (table, name, type, char length, data length, precision,
/// scale, nullable, default, identity) as the host's `TableColumn`, with
/// the table it belongs to.
pub open spec fn column_entry_spec(row: Seq<JsonValue>, pks: Seq<(Seq<char>, Seq<char>)>) -> (
    Seq<char>,
    Json,
) {
    let table = str_or_empty(cell_str_spec(row, 0));
    let name = str_or_empty(cell_str_spec(row, 1));
    let base = str_or_empty(cell_str_spec(row, 2));
    let char_length = cell_i64_spec(row, 3);
    let data_type = format_data_type_spec(
        base,
        char_length,
        cell_i64_spec(row, 4),
        cell_spec(row, 5),
        cell_spec(row, 6),
    );
    let default_value = match cell_str_spec(row, 8) {
        Some(d) => if trim(d).len() > 0 {
            Json::Str(trim(d))
        } else {
            Json::Null
        },
        None => Json::Null,
    };
    let char_max = if is_char_type_spec(base) && char_length > 0 {
        Json::Int(char_length as int)
    } else {
        Json::Null
    };
    (
        table,
        Json::Object(
            seq![
                ("name"@, Json::Str(name)),
                ("data_type"@, Json::Str(data_type)),
                ("is_pk"@, Json::Bool(pks.contains((table, name)))),
                ("is_nullable"@, Json::Bool(cell_str_spec(row, 7) == Some("Y"@))),
                ("is_auto_increment"@, Json::Bool(cell_str_spec(row, 9) == Some("YES"@))),
                ("default_value"@, default_value),
                ("character_maximum_length"@, char_max),
            ],
        ),
    )
}

fn str_cell_is(row: &[JsonValue], i: usize, text: &str) -> (r: bool)
    ensures
        r == (cell_str_spec(row@, i as int) == Some(text@)),
{
    match cell_str(row, i) {
        Some(s) => str_eq(s.as_str(), text),
        None => false,
    }
}

/// One column row as the host's `TableColumn`, with its table.
pub fn column_entry(row: &Vec<JsonValue>, pks: &Vec<(String, String)>) -> (r: (String, JsonValue))
    ensures
        (r.0@, r.1@) == column_entry_spec(row@, pair_views(pks@)),
{
    let row = row.as_slice();
    let table = string_or_empty(cell_str(row, 0));
    let name = string_or_empty(cell_str(row, 1));
    let base = string_or_empty(cell_str(row, 2));
    let char_length = cell_i64(row, 3);
    let precision = cell(row, 5);
    let scale = cell(row, 6);
    let data_type = format_data_type(
        base.as_str(),
        char_length,
        cell_i64(row, 4),
        &precision,
        &scale,
    );
    let nullable = str_cell_is(row, 7, "Y");
    let default_value = match cell_str(row, 8) {
        Some(d) => {
            let t = trim_str(d.as_str());
            if t.unicode_len() > 0 {
                JsonValue::from_str(t)
            } else {
                JsonValue::Null
            }
        },
        None => JsonValue::Null,
    };
    let identity = str_cell_is(row, 9, "YES");
    let is_pk = is_key_column(pks, table.as_str(), name.as_str());
    let char_max = if is_char_type(base.as_str()) && char_length > 0 {
        JsonValue::from_i64(char_length)
    } else {
        JsonValue::Null
    };
    let mut e: Vec<(String, JsonValue)> = Vec::new();
    JsonValue::push_entry(&mut e, "name", JsonValue::String(name));
    JsonValue::push_entry(&mut e, "data_type", JsonValue::String(data_type));
    JsonValue::push_entry(&mut e, "is_pk", JsonValue::from_bool(is_pk));
    JsonValue::push_entry(&mut e, "is_nullable", JsonValue::from_bool(nullable));
    JsonValue::push_entry(&mut e, "is_auto_increment", JsonValue::from_bool(identity));
    JsonValue::push_entry(&mut e, "default_value", default_value);
    JsonValue::push_entry(&mut e, "character_maximum_length", char_max);
    assert(entry_models(e@) =~= column_entry_spec(row@, pair_views(pks@)).1->Object_0);
    (table, JsonValue::Object(e))
}

/// Column rows as (table, entry) pairs, in catalog order.
pub fn column_groups(result: &QueryResult, pks: &Vec<(String, String)>) -> (r: Vec<(String, JsonValue)>)
    ensures
        entry_models(r@) == result.rows@.map_values(
            |row: Vec<JsonValue>| column_entry_spec(row@, pair_views(pks@)),
        ),
{
    let ghost rows = result.rows@;
    let mut out: Vec<(String, JsonValue)> = Vec::new();
    let mut k: usize = 0;
    assert(entry_models(out@) =~= rows.take(0).map_values(
        |row: Vec<JsonValue>| column_entry_spec(row@, pair_views(pks@)),
    ));
    while k < result.rows.len()
        invariant
            k <= rows.len(),
            rows == result.rows@,
            entry_models(out@) == rows.take(k as int).map_values(
                |row: Vec<JsonValue>| column_entry_spec(row@, pair_views(pks@)),
            ),
        decreases rows.len() - k,
    {
        let (table, entry) = column_entry(&result.rows[k], pks);
        JsonValue::push_entry(&mut out, table.as_str(), entry);
        assert(rows.take(k + 1) =~= rows.take(k as int).push(rows[k as int]));
        assert(entry_models(out@) =~= rows.take(k + 1).map_values(
            |row: Vec<JsonValue>| column_entry_spec(row@, pair_views(pks@)),
        ));
        k = k + 1;
    }
    assert(rows.take(rows.len() as int) =~= rows);
    out
}

// ---------------------------------------------------------------------------
// Reading the columns, step by step
// ---------------------------------------------------------------------------

/// Where a columns read stands.
pub enum ColumnsState {
    /// The column query with `identity_column` was issued.
    WithIdentity,
    /// The column query without `identity_column` was issued, the first
    /// having failed (a server before 12c).
    WithoutIdentity,
    /// The primary-key columns are being read, after these column rows.
    ReadingKeys(QueryResult),
    /// The read finished.
    Done,
}

/// The next thing a columns read asks the program to do.
pub enum ColumnsAction {
    /// Run a catalog query with these binds and report its rows.
    Query(String, Vec<JsonValue>),
    /// The read is over: the (table, column entry) pairs in catalog order,
    /// or the error.
    Finish(Result<Vec<(String, JsonValue)>, PluginError>),
}

/// A step of a columns read by its values.
pub enum ColumnsStep {
    Query(Seq<char>, Seq<Json>),
    Finish(Result<Seq<(Seq<char>, Json)>, (i64, Seq<char>)>),
}

impl View for ColumnsAction {
    type V = ColumnsStep;

    open spec fn view(&self) -> ColumnsStep {
        match self {
            ColumnsAction::Query(sql, args) => ColumnsStep::Query(sql@, models(args@)),
            ColumnsAction::Finish(r) => ColumnsStep::Finish(
                match r {
                    Ok(pairs) => Ok(entry_models(pairs@)),
                    Err(e) => Err(e@),
                },
            ),
        }
    }
}

/// The column rows as (table, entry) pairs, each column marked by the
/// primary-key rows.
pub open spec fn grouped_columns(columns: QueryResult, keys: QueryResult) -> Seq<(Seq<char>, Json)> {
    columns.rows@.map_values(
        |row: Vec<JsonValue>| column_entry_spec(row@, key_columns(keys.rows@)),
    )
}

/// The first step of a columns read: the column query with
/// `identity_column`.
pub open spec fn columns_start_spec(owner: Seq<char>, table: Option<Seq<char>>) -> (
    ColumnsState,
    ColumnsStep,
) {
    (
        ColumnsState::WithIdentity,
        ColumnsStep::Query(columns_sql_spec(true, table is Some), owner_binds_spec(owner, table)),
    )
}

/// The step after each reported outcome: a failed query with
/// `identity_column` is retried once without it, with the same binds; the
/// primary-key columns are read after the column rows; the first error of
/// the retry or the key read is the one finished with.
pub open spec fn columns_next_spec(
    owner: Seq<char>,
    table: Option<Seq<char>>,
    state: ColumnsState,
    event: Result<QueryResult, (i64, Seq<char>)>,
) -> (ColumnsState, ColumnsStep) {
    let binds = owner_binds_spec(owner, table);
    let read_keys = ColumnsStep::Query(pk_columns_sql_spec(table is Some), binds);
    match state {
        ColumnsState::WithIdentity => match event {
            Err(_) => (
                ColumnsState::WithoutIdentity,
                ColumnsStep::Query(columns_sql_spec(false, table is Some), binds),
            ),
            Ok(columns) => (ColumnsState::ReadingKeys(columns), read_keys),
        },
        ColumnsState::WithoutIdentity => match event {
            Err(e) => (ColumnsState::Done, ColumnsStep::Finish(Err(e))),
            Ok(columns) => (ColumnsState::ReadingKeys(columns), read_keys),
        },
        ColumnsState::ReadingKeys(columns) => match event {
            Err(e) => (ColumnsState::Done, ColumnsStep::Finish(Err(e))),
            Ok(keys) => (ColumnsState::Done, ColumnsStep::Finish(Ok(grouped_columns(columns, keys)))),
        },
        ColumnsState::Done => (ColumnsState::Done, ColumnsStep::Finish(Err((INTERNAL_ERROR, seq![])))),
    }
}

/// The first step of reading the columns of `owner`'s schema, or of one
/// of its tables.
pub fn columns_start(owner: &str, table: Option<&str>) -> (r: (ColumnsState, ColumnsAction))
    ensures
        (r.0, r.1@) == columns_start_spec(owner@, opt_str_view(table)),
{
    (
        ColumnsState::WithIdentity,
        ColumnsAction::Query(columns_sql(true, table.is_some()), owner_binds(owner, table)),
    )
}

/// The step of a columns read after the program reports the outcome of
/// the last one. A finished read has no further step: asked again, it
/// finishes with an internal error.
pub fn columns_next(
    owner: &str,
    table: Option<&str>,
    state: ColumnsState,
    event: Result<QueryResult, PluginError>,
) -> (r: (ColumnsState, ColumnsAction))
    ensures
        (r.0, r.1@) == columns_next_spec(owner@, opt_str_view(table), state, event_view(event)),
{
    match state {
        ColumnsState::WithIdentity => match event {
            Err(_) => (
                ColumnsState::WithoutIdentity,
                ColumnsAction::Query(columns_sql(false, table.is_some()), owner_binds(owner, table)),
            ),
            Ok(columns) => (
                ColumnsState::ReadingKeys(columns),
                ColumnsAction::Query(pk_columns_sql(table.is_some()), owner_binds(owner, table)),
            ),
        },
        ColumnsState::WithoutIdentity => match event {
            Err(e) => (ColumnsState::Done, ColumnsAction::Finish(Err(e))),
            Ok(columns) => (
                ColumnsState::ReadingKeys(columns),
                ColumnsAction::Query(pk_columns_sql(table.is_some()), owner_binds(owner, table)),
            ),
        },
        ColumnsState::ReadingKeys(columns) => match event {
            Err(e) => (ColumnsState::Done, ColumnsAction::Finish(Err(e))),
            Ok(keys) => {
                let pks = primary_key_columns(&keys);
                let grouped = column_groups(&columns, &pks);
                (ColumnsState::Done, ColumnsAction::Finish(Ok(grouped)))
            },
        },
        ColumnsState::Done => (
            ColumnsState::Done,
            ColumnsAction::Finish(Err(PluginError::internal(String::new()))),
        ),
    }
}

/// The steps of a columns read from `state` on, up to the finish.
pub open spec fn columns_steps(
    owner: Seq<char>,
    table: Option<Seq<char>>,
    state: ColumnsState,
    events: Seq<Result<QueryResult, (i64, Seq<char>)>>,
) -> Seq<ColumnsStep>
    decreases events.len(),
{
    if events.len() == 0 || state is Done {
        seq![]
    } else {
        let next = columns_next_spec(owner, table, state, events[0]);
        seq![next.1] + columns_steps(owner, table, next.0, events.drop_first())
    }
}

/// The steps of a whole columns read.
pub open spec fn columns_run(
    owner: Seq<char>,
    table: Option<Seq<char>>,
    events: Seq<Result<QueryResult, (i64, Seq<char>)>>,
) -> Seq<ColumnsStep> {
    let first = columns_start_spec(owner, table);
    seq![first.1] + columns_steps(owner, table, first.0, events)
}

/// A foreign-key row (table, constraint, column, referenced table,
/// referenced column, delete rule) as the host's `ForeignKey`, with its
/// table. Oracle has no ON UPDATE action, so `on_update` is always null.
pub open spec fn foreign_key_entry_spec(row: Seq<JsonValue>) -> (Seq<char>, Json) {
    (
        str_or_empty(cell_str_spec(row, 0)),
        Json::Object(
            seq![
                ("name"@, Json::Str(str_or_empty(cell_str_spec(row, 1)))),
                ("column_name"@, Json::Str(str_or_empty(cell_str_spec(row, 2)))),
                ("ref_table"@, Json::Str(str_or_empty(cell_str_spec(row, 3)))),
                ("ref_column"@, Json::Str(str_or_empty(cell_str_spec(row, 4)))),
                ("on_delete"@, cell_spec(row, 5)),
                ("on_update"@, Json::Null),
            ],
        ),
    )
}

/// One foreign-key row as the host's `ForeignKey`, with its table.
pub fn foreign_key_entry(row: &Vec<JsonValue>) -> (r: (String, JsonValue))
    ensures
        (r.0@, r.1@) == foreign_key_entry_spec(row@),
{
    let row = row.as_slice();
    let table = string_or_empty(cell_str(row, 0));
    let mut e: Vec<(String, JsonValue)> = Vec::new();
    JsonValue::push_entry(&mut e, "name", JsonValue::String(string_or_empty(cell_str(row, 1))));
    JsonValue::push_entry(
        &mut e,
        "column_name",
        JsonValue::String(string_or_empty(cell_str(row, 2))),
    );
    JsonValue::push_entry(
        &mut e,
        "ref_table",
        JsonValue::String(string_or_empty(cell_str(row, 3))),
    );
    JsonValue::push_entry(
        &mut e,
        "ref_column",
        JsonValue::String(string_or_empty(cell_str(row, 4))),
    );
    JsonValue::push_entry(&mut e, "on_delete", cell(row, 5));
    JsonValue::push_entry(&mut e, "on_update", JsonValue::Null);
    assert(entry_models(e@) =~= foreign_key_entry_spec(row@).1->Object_0);
    (table, JsonValue::Object(e))
}

/// Foreign-key rows as (table, entry) pairs, in catalog order.
pub fn foreign_key_groups(result: &QueryResult) -> (r: Vec<(String, JsonValue)>)
    ensures
        entry_models(r@) == result.rows@.map_values(
            |row: Vec<JsonValue>| foreign_key_entry_spec(row@),
        ),
{
    let ghost rows = result.rows@;
    let mut out: Vec<(String, JsonValue)> = Vec::new();
    let mut k: usize = 0;
    assert(entry_models(out@) =~= rows.take(0).map_values(
        |row: Vec<JsonValue>| foreign_key_entry_spec(row@),
    ));
    while k < result.rows.len()
        invariant
            k <= rows.len(),
            rows == result.rows@,
            entry_models(out@) == rows.take(k as int).map_values(
                |row: Vec<JsonValue>| foreign_key_entry_spec(row@),
            ),
        decreases rows.len() - k,
    {
        let (table, entry) = foreign_key_entry(&result.rows[k]);
        JsonValue::push_entry(&mut out, table.as_str(), entry);
        assert(rows.take(k + 1) =~= rows.take(k as int).push(rows[k as int]));
        assert(entry_models(out@) =~= rows.take(k + 1).map_values(
            |row: Vec<JsonValue>| foreign_key_entry_spec(row@),
        ));
        k = k + 1;
    }
    assert(rows.take(rows.len() as int) =~= rows);
    out
}

// ---------------------------------------------------------------------------
// Grouping by table
// ---------------------------------------------------------------------------

/// The entries of `table`, in catalog order.
pub open spec fn group_of(pairs: Seq<(Seq<char>, Json)>, table: Seq<char>) -> Seq<Json>
    decreases pairs.len(),
{
    if pairs.len() == 0 {
        seq![]
    } else {
        let prev = group_of(pairs.drop_last(), table);
        if pairs.last().0 == table {
            prev.push(pairs.last().1)
        } else {
            prev
        }
    }
}

/// The pairs of every other table.
pub open spec fn without_group(pairs: Seq<(Seq<char>, Json)>, table: Seq<char>) -> Seq<
    (Seq<char>, Json),
>
    decreases pairs.len(),
{
    if pairs.len() == 0 {
        seq![]
    } else {
        let prev = without_group(pairs.drop_last(), table);
        if pairs.last().0 == table {
            prev
        } else {
            prev.push(pairs.last())
        }
    }
}

/// Takes the entries of `table` out of the grouped pairs.
pub fn take_group(grouped: &mut Vec<(String, JsonValue)>, table: &str) -> (r: Vec<JsonValue>)
    ensures
        models(r@) == group_of(entry_models(old(grouped)@), table@),
        entry_models(final(grouped)@) == without_group(entry_models(old(grouped)@), table@),
{
    let ghost orig = entry_models(grouped@);
    proof {
        lemma_entry_models(grouped@);
    }
    let mut all: Vec<(String, JsonValue)> = Vec::new();
    std::mem::swap(&mut all, grouped);
    let ghost n = all@.len();
    let ghost src = all@;
    let mut rev = reversed(all);
    let mut taken: Vec<JsonValue> = Vec::new();
    assert(orig.take(0) =~= Seq::<(Seq<char>, Json)>::empty());
    assert(models(taken@) =~= Seq::<Json>::empty());
    assert(entry_models(grouped@) =~= Seq::<(Seq<char>, Json)>::empty());
    while rev.len() > 0
        invariant
            n == src.len(),
            orig.len() == n,
            forall|j: int| 0 <= j < n ==> #[trigger] orig[j] == (src[j].0@, src[j].1@),
            rev@.len() <= n,
            forall|i: int| 0 <= i < rev@.len() ==> #[trigger] rev@[i] == src[n - 1 - i],
            models(taken@) == group_of(orig.take(n - rev@.len()), table@),
            entry_models(grouped@) == without_group(orig.take(n - rev@.len()), table@),
        decreases rev@.len(),
    {
        let ghost k = n - rev@.len();
        match rev.pop() {
            Some(entry) => {
                assert(entry == src[k]);
                assert(orig.take(k + 1).drop_last() =~= orig.take(k));
                assert(orig.take(k + 1).last() == orig[k]);
                let (key, value) = entry;
                if str_eq(key.as_str(), table) {
                    JsonValue::push_item(&mut taken, value);
                } else {
                    JsonValue::push_entry(grouped, key.as_str(), value);
                }
            },
            None => {},
        }
    }
    assert(orig.take(n as int) =~= orig);
    taken
}

/// The host's `TableSchema`.
pub open spec fn table_schema_spec(name: Seq<char>, columns: Seq<Json>, foreign_keys: Seq<Json>) -> Json {
    Json::Object(
        seq![
            ("name"@, Json::Str(name)),
            ("columns"@, Json::Array(columns)),
            ("foreign_keys"@, Json::Array(foreign_keys)),
        ],
    )
}

/// The schema snapshot: each table with its columns and foreign keys; a
/// table listed twice gets its entries the first time.
pub open spec fn snapshot_spec(
    names: Seq<Seq<char>>,
    columns: Seq<(Seq<char>, Json)>,
    foreign_keys: Seq<(Seq<char>, Json)>,
) -> Seq<Json>
    decreases names.len(),
{
    if names.len() == 0 {
        seq![]
    } else {
        let n = names[0];
        seq![table_schema_spec(n, group_of(columns, n), group_of(foreign_keys, n))]
            + snapshot_spec(
            names.drop_first(),
            without_group(columns, n),
            without_group(foreign_keys, n),
        )
    }
}

/// The host's `Vec<TableSchema>` for a schema snapshot.
pub fn snapshot(
    names: &Vec<String>,
    columns: Vec<(String, JsonValue)>,
    foreign_keys: Vec<(String, JsonValue)>,
) -> (r: JsonValue)
    ensures
        r@ == Json::Array(snapshot_spec(views(names@), entry_models(columns@), entry_models(foreign_keys@))),
{
    let ghost nm = views(names@);
    let ghost whole = snapshot_spec(nm, entry_models(columns@), entry_models(foreign_keys@));
    let mut columns = columns;
    let mut foreign_keys = foreign_keys;
    let mut tables: Vec<JsonValue> = Vec::new();
    let mut i: usize = 0;
    assert(nm.skip(0) =~= nm);
    assert(models(tables@) + whole =~= whole);
    while i < names.len()
        invariant
            i <= names@.len(),
            nm == views(names@),
            models(tables@) + snapshot_spec(
                nm.skip(i as int),
                entry_models(columns@),
                entry_models(foreign_keys@),
            ) == whole,
        decreases names@.len() - i,
    {
        let ghost rest = nm.skip(i as int);
        assert(rest[0] == names@[i as int]@);
        assert(rest.drop_first() =~= nm.skip(i + 1));
        let ghost cs = entry_models(columns@);
        let ghost fs = entry_models(foreign_keys@);
        let name = names[i].as_str();
        let cols = take_group(&mut columns, name);
        let fks = take_group(&mut foreign_keys, name);
        let mut e: Vec<(String, JsonValue)> = Vec::new();
        JsonValue::push_entry(&mut e, "name", JsonValue::from_str(name));
        JsonValue::push_entry(&mut e, "columns", JsonValue::Array(cols));
        JsonValue::push_entry(&mut e, "foreign_keys", JsonValue::Array(fks));
        let ghost obj = table_schema_spec(name@, group_of(cs, name@), group_of(fs, name@));
        assert(entry_models(e@) =~= obj->Object_0);
        let ghost before = models(tables@);
        JsonValue::push_item(&mut tables, JsonValue::Object(e));
        assert(before + snapshot_spec(rest, cs, fs) == whole);
        assert(snapshot_spec(rest, cs, fs) == seq![obj] + snapshot_spec(
            nm.skip(i + 1),
            entry_models(columns@),
            entry_models(foreign_keys@),
        ));
        assert(models(tables@) + snapshot_spec(
            nm.skip(i + 1),
            entry_models(columns@),
            entry_models(foreign_keys@),
        ) =~= whole);
        i = i + 1;
    }
    assert(nm.skip(names@.len() as int) =~= Seq::<Seq<char>>::empty());
    assert(models(tables@) =~= whole);
    JsonValue::Array(tables)
}

/// The batch object: each requested table with its entries; a table
/// requested twice gets its entries the first time.
pub open spec fn batch_spec(tables: Seq<Seq<char>>, grouped: Seq<(Seq<char>, Json)>) -> Seq<
    (Seq<char>, Json),
>
    decreases tables.len(),
{
    if tables.len() == 0 {
        seq![]
    } else {
        let t = tables[0];
        seq![(t, Json::Array(group_of(grouped, t)))] + batch_spec(
            tables.drop_first(),
            without_group(grouped, t),
        )
    }
}

/// The object of a batch request: table name -> entries.
pub fn batch(tables: &Vec<String>, grouped: Vec<(String, JsonValue)>) -> (r: JsonValue)
    ensures
        r@ == Json::Object(batch_spec(views(tables@), entry_models(grouped@))),
{
    let ghost tv = views(tables@);
    let ghost whole = batch_spec(tv, entry_models(grouped@));
    let mut grouped = grouped;
    let mut out: Vec<(String, JsonValue)> = Vec::new();
    let mut i: usize = 0;
    assert(tv.skip(0) =~= tv);
    assert(entry_models(out@) + whole =~= whole);
    while i < tables.len()
        invariant
            i <= tables@.len(),
            tv == views(tables@),
            entry_models(out@) + batch_spec(tv.skip(i as int), entry_models(grouped@)) == whole,
        decreases tables@.len() - i,
    {
        let ghost rest = tv.skip(i as int);
        assert(rest[0] == tables@[i as int]@);
        assert(rest.drop_first() =~= tv.skip(i + 1));
        let ghost gs = entry_models(grouped@);
        let table = tables[i].as_str();
        let entries = take_group(&mut grouped, table);
        let ghost before = entry_models(out@);
        JsonValue::push_entry(&mut out, table, JsonValue::Array(entries));
        assert(before + batch_spec(rest, gs) == whole);
        assert(entry_models(out@) + batch_spec(tv.skip(i + 1), entry_models(grouped@)) =~= whole);
        i = i + 1;
    }
    assert(tv.skip(tables@.len() as int) =~= Seq::<Seq<char>>::empty());
    assert(entry_models(out@) =~= whole);
    JsonValue::Object(out)
}

/// The string items of an array.
pub open spec fn array_strings(items: Seq<Json>) -> Seq<Seq<char>>
    decreases items.len(),
{
    if items.len() == 0 {
        seq![]
    } else {
        let prev = array_strings(items.drop_last());
        match items.last().as_str() {
            Some(s) => prev.push(s),
            None => prev,
        }
    }
}

/// The tables a batch request names (`tables`, strings only).
pub open spec fn requested_tables_spec(params: Json) -> Seq<Seq<char>> {
    match params.get("tables"@) {
        Some(v) => match v.as_array() {
            Some(items) => array_strings(items),
            None => seq![],
        },
        None => seq![],
    }
}

/// The tables a batch request names; when it names none, the batch covers
/// every table of the schema.
pub fn requested_tables(params: &JsonValue) -> (r: Vec<String>)
    ensures
        views(r@) == requested_tables_spec(params@),
{
    let mut out: Vec<String> = Vec::new();
    match params.get("tables") {
        Some(v) => match v.as_array() {
            Some(items) => {
                let ghost m = models(items@);
                proof {
                    lemma_models(items@);
                }
                let mut i: usize = 0;
                assert(views(out@) =~= array_strings(m.take(0)));
                while i < items.len()
                    invariant
                        i <= items@.len(),
                        m == models(items@),
                        m.len() == items@.len(),
                        forall|j: int| 0 <= j < items@.len() ==> #[trigger] m[j] == items@[j]@,
                        views(out@) == array_strings(m.take(i as int)),
                    decreases items@.len() - i,
                {
                    assert(m.take(i + 1).drop_last() =~= m.take(i as int));
                    assert(m.take(i + 1).last() == items@[i as int]@);
                    match items[i].as_str() {
                        Some(s) => {
                            let ghost before = views(out@);
                            out.push(string_of(s));
                            assert(views(out@) =~= before.push(s@));
                        },
                        None => {},
                    }
                    i = i + 1;
                }
                assert(m.take(items@.len() as int) =~= m);
            },
            None => {},
        },
        None => {},
    }
    proof {
        if requested_tables_spec(params@) == Seq::<Seq<char>>::empty() {
            assert(views(out@) =~= Seq::<Seq<char>>::empty());
        }
    }
    out
}

// ---------------------------------------------------------------------------
// Result shapes
// ---------------------------------------------------------------------------

/// Index rows (index, uniqueness, column, position, is-primary) as the
/// host's `Index`: one flat entry per (index, column), skipping rows
/// without an index name.
pub open spec fn index_entries_spec(rows: Seq<Vec<JsonValue>>) -> Seq<Json>
    decreases rows.len(),
{
    if rows.len() == 0 {
        seq![]
    } else {
        let prev = index_entries_spec(rows.drop_last());
        let row = rows.last()@;
        match cell_str_spec(row, 0) {
            Some(name) => prev.push(
                Json::Object(
                    seq![
                        ("name"@, Json::Str(name)),
                        ("column_name"@, Json::Str(str_or_empty(cell_str_spec(row, 2)))),
                        ("is_unique"@, Json::Bool(cell_str_spec(row, 1) == Some("UNIQUE"@))),
                        ("is_primary"@, Json::Bool(cell_i64_spec(row, 4) == 1)),
                        ("seq_in_index"@, Json::Int(cell_i64_spec(row, 3) as int)),
                    ],
                ),
            ),
            None => prev,
        }
    }
}

/// Indexes as the host expects them.
pub fn index_entries(result: &QueryResult) -> (r: JsonValue)
    ensures
        r@ == Json::Array(index_entries_spec(result.rows@)),
{
    let ghost rows = result.rows@;
    let mut out: Vec<JsonValue> = Vec::new();
    let mut k: usize = 0;
    assert(rows.take(0) =~= Seq::<Vec<JsonValue>>::empty());
    assert(models(out@) =~= Seq::<Json>::empty());
    while k < result.rows.len()
        invariant
            k <= rows.len(),
            rows == result.rows@,
            models(out@) == index_entries_spec(rows.take(k as int)),
        decreases rows.len() - k,
    {
        assert(rows.take(k + 1).drop_last() =~= rows.take(k as int));
        assert(rows.take(k + 1).last() == rows[k as int]);
        let row = result.rows[k].as_slice();
        match cell_str(row, 0) {
            Some(name) => {
                let mut e: Vec<(String, JsonValue)> = Vec::new();
                JsonValue::push_entry(&mut e, "name", JsonValue::String(name));
                JsonValue::push_entry(
                    &mut e,
                    "column_name",
                    JsonValue::String(string_or_empty(cell_str(row, 2))),
                );
                JsonValue::push_entry(&mut e, "is_unique", JsonValue::from_bool(str_cell_is(row, 1, "UNIQUE")));
                JsonValue::push_entry(&mut e, "is_primary", JsonValue::from_bool(cell_i64(row, 4) == 1));
                JsonValue::push_entry(&mut e, "seq_in_index", JsonValue::from_i64(cell_i64(row, 3)));
                assert(entry_models(e@) =~= index_entries_spec(rows.take(k + 1)).last()->Object_0);
                JsonValue::push_item(&mut out, JsonValue::Object(e));
            },
            None => {},
        }
        k = k + 1;
    }
    assert(rows.take(rows.len() as int) =~= rows);
    JsonValue::Array(out)
}

/// Each name as `{ name }` plus the given extra entries.
pub open spec fn named_objects(names: Seq<Seq<char>>, with_definition: bool) -> Seq<Json> {
    names.map_values(
        |n: Seq<char>|
            if with_definition {
                Json::Object(seq![("name"@, Json::Str(n)), ("definition"@, Json::Null)])
            } else {
                Json::Object(seq![("name"@, Json::Str(n))])
            },
    )
}

/// Names as objects: `{ name }`, or `{ name, definition: null }` for views.
pub fn named_entries(names: &Vec<String>, with_definition: bool) -> (r: JsonValue)
    ensures
        r@ == Json::Array(named_objects(views(names@), with_definition)),
{
    let ghost all = named_objects(views(names@), with_definition);
    let mut out: Vec<JsonValue> = Vec::new();
    let mut i: usize = 0;
    assert(models(out@) =~= all.take(0));
    while i < names.len()
        invariant
            i <= names@.len(),
            all == named_objects(views(names@), with_definition),
            models(out@) == all.take(i as int),
        decreases names@.len() - i,
    {
        let mut e: Vec<(String, JsonValue)> = Vec::new();
        JsonValue::push_entry(&mut e, "name", JsonValue::String(names[i].clone()));
        if with_definition {
            JsonValue::push_entry(&mut e, "definition", JsonValue::Null);
        }
        assert(entry_models(e@) =~= all[i as int]->Object_0);
        JsonValue::push_item(&mut out, JsonValue::Object(e));
        assert(models(out@) =~= all.take(i + 1));
        i = i + 1;
    }
    assert(all.take(names@.len() as int) =~= all);
    JsonValue::Array(out)
}

/// Routine rows (name, kind) with both cells as the host's routine model.
pub open spec fn routine_entries_spec(rows: Seq<Vec<JsonValue>>) -> Seq<Json>
    decreases rows.len(),
{
    if rows.len() == 0 {
        seq![]
    } else {
        let prev = routine_entries_spec(rows.drop_last());
        let row = rows.last()@;
        match (cell_str_spec(row, 0), cell_str_spec(row, 1)) {
            (Some(name), Some(kind)) => prev.push(
                Json::Object(
                    seq![
                        ("name"@, Json::Str(name)),
                        ("routine_type"@, Json::Str(kind)),
                        ("definition"@, Json::Null),
                    ],
                ),
            ),
            _ => prev,
        }
    }
}

/// Stored procedures and functions.
pub fn routine_entries(result: &QueryResult) -> (r: JsonValue)
    ensures
        r@ == Json::Array(routine_entries_spec(result.rows@)),
{
    let ghost rows = result.rows@;
    let mut out: Vec<JsonValue> = Vec::new();
    let mut k: usize = 0;
    assert(rows.take(0) =~= Seq::<Vec<JsonValue>>::empty());
    assert(models(out@) =~= Seq::<Json>::empty());
    while k < result.rows.len()
        invariant
            k <= rows.len(),
            rows == result.rows@,
            models(out@) == routine_entries_spec(rows.take(k as int)),
        decreases rows.len() - k,
    {
        assert(rows.take(k + 1).drop_last() =~= rows.take(k as int));
        assert(rows.take(k + 1).last() == rows[k as int]);
        let row = result.rows[k].as_slice();
        let name = cell_str(row, 0);
        let kind = cell_str(row, 1);
        match name {
            Some(name) => match kind {
                Some(kind) => {
                    let mut e: Vec<(String, JsonValue)> = Vec::new();
                    JsonValue::push_entry(&mut e, "name", JsonValue::String(name));
                    JsonValue::push_entry(&mut e, "routine_type", JsonValue::String(kind));
                    JsonValue::push_entry(&mut e, "definition", JsonValue::Null);
                    assert(entry_models(e@) =~= routine_entries_spec(rows.take(k + 1)).last()->Object_0);
                    JsonValue::push_item(&mut out, JsonValue::Object(e));
                },
                None => {},
            },
            None => {},
        }
        k = k + 1;
    }
    assert(rows.take(rows.len() as int) =~= rows);
    JsonValue::Array(out)
}

/// Oracle reports IN / OUT / IN/OUT; the host expects INOUT for the last.
pub open spec fn parameter_mode(mode: Seq<char>) -> Seq<char> {
    if mode == "IN/OUT"@ {
        "INOUT"@
    } else {
        mode
    }
}

/// A routine parameter row (name, type, direction, position) as the
/// host's parameter model.
pub open spec fn parameter_entry_spec(row: Seq<JsonValue>) -> Json {
    Json::Object(
        seq![
            ("name"@, Json::Str(str_or_empty(cell_str_spec(row, 0)))),
            ("data_type"@, Json::Str(str_or_empty(cell_str_spec(row, 1)))),
            ("mode"@, Json::Str(parameter_mode(str_or_empty(cell_str_spec(row, 2))))),
            ("ordinal_position"@, Json::Int(cell_i64_spec(row, 3) as int)),
        ],
    )
}

/// The parameters of a routine.
pub fn parameter_entries(result: &QueryResult) -> (r: JsonValue)
    ensures
        r@ == Json::Array(result.rows@.map_values(|row: Vec<JsonValue>| parameter_entry_spec(row@))),
{
    let ghost rows = result.rows@;
    let ghost all = rows.map_values(|row: Vec<JsonValue>| parameter_entry_spec(row@));
    let mut out: Vec<JsonValue> = Vec::new();
    let mut k: usize = 0;
    assert(models(out@) =~= all.take(0));
    while k < result.rows.len()
        invariant
            k <= rows.len(),
            rows == result.rows@,
            all == rows.map_values(|row: Vec<JsonValue>| parameter_entry_spec(row@)),
            models(out@) == all.take(k as int),
        decreases rows.len() - k,
    {
        let row = result.rows[k].as_slice();
        let raw_mode = string_or_empty(cell_str(row, 2));
        let mode = if str_eq(raw_mode.as_str(), "IN/OUT") {
            string_of("INOUT")
        } else {
            raw_mode
        };
        let mut e: Vec<(String, JsonValue)> = Vec::new();
        JsonValue::push_entry(&mut e, "name", JsonValue::String(string_or_empty(cell_str(row, 0))));
        JsonValue::push_entry(
            &mut e,
            "data_type",
            JsonValue::String(string_or_empty(cell_str(row, 1))),
        );
        JsonValue::push_entry(&mut e, "mode", JsonValue::String(mode));
        JsonValue::push_entry(&mut e, "ordinal_position", JsonValue::from_i64(cell_i64(row, 3)));
        assert(entry_models(e@) =~= all[k as int]->Object_0);
        JsonValue::push_item(&mut out, JsonValue::Object(e));
        assert(models(out@) =~= all.take(k + 1));
        k = k + 1;
    }
    assert(all.take(rows.len() as int) =~= all);
    JsonValue::Array(out)
}

/// A routine's source: its lines concatenated.
pub fn routine_definition(result: &QueryResult) -> (r: JsonValue)
    ensures
        r@ == Json::Str(join(column_strings(result.rows@, 0), seq![])),
{
    let lines = strings_in_column(result, 0);
    let text = join_strings(&lines, "");
    proof {
        reveal_strlit("");
        assert(""@ =~= Seq::<char>::empty());
    }
    JsonValue::String(text)
}

/// A view's definition: the catalog text, trimmed (empty when missing).
pub fn view_definition(text: Option<String>) -> (r: JsonValue)
    ensures
        r@ == Json::Str(trim(str_or_empty(opt_view(text)))),
{
    let t = string_or_empty(text);
    JsonValue::from_str(trim_str(t.as_str()))
}

/// The databases of a connection: the one it is connected to, `ORACLE`
/// when the server does not name it.
pub fn database_names(name: Option<String>) -> (r: JsonValue)
    ensures
        r@ == str_array(
            seq![
                match opt_view(name) {
                    Some(n) => n,
                    None => "ORACLE"@,
                },
            ],
        ),
{
    let n = match name {
        Some(n) => n,
        None => string_of("ORACLE"),
    };
    let v = vec![n];
    assert(views(v@) =~= seq![v@[0]@]);
    JsonValue::string_array(&v)
}

/// `CREATE VIEW` in the owner's schema (`view_name` or `name`, and
/// `definition`).
pub open spec fn create_view_spec(owner: Seq<char>, params: Json, replace: bool) -> Result<
    Seq<char>,
    (i64, Seq<char>),
> {
    match req_str_any_spec(params, seq!["view_name", "name"]) {
        Err(e) => Err(e),
        Ok(name) => match req_str_spec(params, "definition"@) {
            Err(e) => Err(e),
            Ok(definition) => Ok(
                (if replace {
                    "CREATE OR REPLACE VIEW "@
                } else {
                    "CREATE VIEW "@
                }) + qualify_spec(Some(owner), name) + " AS "@ + definition,
            ),
        },
    }
}

fn view_sql(owner: &str, params: &JsonValue, replace: bool) -> (r: Result<String, PluginError>)
    ensures
        res_view(r) == create_view_spec(owner@, params@, replace),
{
    let keys: [&str; 2] = ["view_name", "name"];
    let name = match req_str_any(params, &keys) {
        Ok(n) => n,
        Err(e) => return Err(e),
    };
    let definition = match req_str(params, "definition") {
        Ok(d) => d,
        Err(e) => return Err(e),
    };
    let mut sql = if replace {
        string_of("CREATE OR REPLACE VIEW ")
    } else {
        string_of("CREATE VIEW ")
    };
    let q = qualify(Some(owner), name.as_str());
    push_str(&mut sql, q.as_str());
    push_str(&mut sql, " AS ");
    push_str(&mut sql, definition.as_str());
    Ok(sql)
}

/// The statement of `create_view`.
pub fn create_view_sql(owner: &str, params: &JsonValue) -> (r: Result<String, PluginError>)
    ensures
        res_view(r) == create_view_spec(owner@, params@, false),
{
    view_sql(owner, params, false)
}

/// The statement of `alter_view`.
pub fn alter_view_sql(owner: &str, params: &JsonValue) -> (r: Result<String, PluginError>)
    ensures
        res_view(r) == create_view_spec(owner@, params@, true),
{
    view_sql(owner, params, true)
}

/// The statement of `drop_view`.
pub fn drop_view_sql(owner: &str, params: &JsonValue) -> (r: Result<String, PluginError>)
    ensures
        res_view(r) == match req_str_any_spec(params@, seq!["view_name", "name"]) {
            Err(e) => Err(e),
            Ok(name) => Ok("DROP VIEW "@ + qualify_spec(Some(owner@), name)),
        },
{
    let keys: [&str; 2] = ["view_name", "name"];
    let name = match req_str_any(params, &keys) {
        Ok(n) => n,
        Err(e) => return Err(e),
    };
    let mut sql = string_of("DROP VIEW ");
    let q = qualify(Some(owner), name.as_str());
    push_str(&mut sql, q.as_str());
    Ok(sql)
}

/// Taking another table's entries leaves a table's entries as they were.
proof fn lemma_group_of_without(pairs: Seq<(Seq<char>, Json)>, taken: Seq<char>, table: Seq<char>)
    requires
        taken != table,
    ensures
        group_of(without_group(pairs, taken), table) == group_of(pairs, table),
    decreases pairs.len(),
{
    if pairs.len() > 0 {
        lemma_group_of_without(pairs.drop_last(), taken, table);
        let w = without_group(pairs.drop_last(), taken);
        if pairs.last().0 != taken {
            assert(without_group(pairs, taken).drop_last() =~= w);
        }
    }
}

/// A snapshot lists every requested table, in order.
proof fn lemma_snapshot_len(
    names: Seq<Seq<char>>,
    columns: Seq<(Seq<char>, Json)>,
    foreign_keys: Seq<(Seq<char>, Json)>,
)
    ensures
        snapshot_spec(names, columns, foreign_keys).len() == names.len(),
    decreases names.len(),
{
    if names.len() > 0 {
        lemma_snapshot_len(
            names.drop_first(),
            without_group(columns, names[0]),
            without_group(foreign_keys, names[0]),
        );
    }
}

/// When no table is listed twice, the snapshot gives every table exactly
/// the columns and foreign keys the catalog returned for it.
pub proof fn lemma_snapshot_tables(
    names: Seq<Seq<char>>,
    columns: Seq<(Seq<char>, Json)>,
    foreign_keys: Seq<(Seq<char>, Json)>,
    i: int,
)
    requires
        0 <= i < names.len(),
        forall|a: int, b: int| 0 <= a < b < names.len() ==> names[a] != names[b],
    ensures
        snapshot_spec(names, columns, foreign_keys).len() == names.len(),
        snapshot_spec(names, columns, foreign_keys)[i] == table_schema_spec(
            names[i],
            group_of(columns, names[i]),
            group_of(foreign_keys, names[i]),
        ),
    decreases names.len(),
{
    lemma_snapshot_len(names, columns, foreign_keys);
    let n = names[0];
    let rest = names.drop_first();
    let cs = without_group(columns, n);
    let fs = without_group(foreign_keys, n);
    lemma_snapshot_len(rest, cs, fs);
    if i > 0 {
        assert forall|a: int, b: int| 0 <= a < b < rest.len() implies rest[a] != rest[b] by {
            assert(rest[a] == names[a + 1] && rest[b] == names[b + 1]);
        }
        lemma_snapshot_tables(rest, cs, fs, i - 1);
        assert(names[i] != n);
        lemma_group_of_without(columns, n, names[i]);
        lemma_group_of_without(foreign_keys, n, names[i]);
        assert(snapshot_spec(names, columns, foreign_keys)[i] == snapshot_spec(rest, cs, fs)[i
            - 1]);
    }
}

/// A batch answers every requested table, in order.
proof fn lemma_batch_len(tables: Seq<Seq<char>>, grouped: Seq<(Seq<char>, Json)>)
    ensures
        batch_spec(tables, grouped).len() == tables.len(),
    decreases tables.len(),
{
    if tables.len() > 0 {
        lemma_batch_len(tables.drop_first(), without_group(grouped, tables[0]));
    }
}

/// When no table is requested twice, a batch answers every table with
/// exactly the entries the catalog returned for it.
pub proof fn lemma_batch_tables(tables: Seq<Seq<char>>, grouped: Seq<(Seq<char>, Json)>, i: int)
    requires
        0 <= i < tables.len(),
        forall|a: int, b: int| 0 <= a < b < tables.len() ==> tables[a] != tables[b],
    ensures
        batch_spec(tables, grouped).len() == tables.len(),
        batch_spec(tables, grouped)[i] == (tables[i], Json::Array(group_of(grouped, tables[i]))),
    decreases tables.len(),
{
    lemma_batch_len(tables, grouped);
    let t = tables[0];
    let rest = tables.drop_first();
    let gs = without_group(grouped, t);
    lemma_batch_len(rest, gs);
    if i > 0 {
        assert forall|a: int, b: int| 0 <= a < b < rest.len() implies rest[a] != rest[b] by {
            assert(rest[a] == tables[a + 1] && rest[b] == tables[b + 1]);
        }
        lemma_batch_tables(rest, gs, i - 1);
        assert(tables[i] != t);
        lemma_group_of_without(grouped, t, tables[i]);
        assert(batch_spec(tables, grouped)[i] == batch_spec(rest, gs)[i - 1]);
    }
}

/// The column rows of one table, in catalog order.
pub open spec fn rows_of_table(rows: Seq<Vec<JsonValue>>, table: Seq<char>) -> Seq<Vec<JsonValue>>
    decreases rows.len(),
{
    if rows.len() == 0 {
        seq![]
    } else {
        let prev = rows_of_table(rows.drop_last(), table);
        if str_or_empty(cell_str_spec(rows.last()@, 0)) == table {
            prev.push(rows.last())
        } else {
            prev
        }
    }
}

/// The columns of a table are one `TableColumn` per catalog row of that
/// table, in catalog order: taking a table's group from the column pairs
/// gives each of its rows shaped by `column_entry_spec` (name, data type,
/// primary-key membership, nullability, identity, default, character
/// length).
pub proof fn lemma_columns_of_table(
    rows: Seq<Vec<JsonValue>>,
    pks: Seq<(Seq<char>, Seq<char>)>,
    table: Seq<char>,
)
    ensures
        group_of(rows.map_values(|row: Vec<JsonValue>| column_entry_spec(row@, pks)), table)
            == rows_of_table(rows, table).map_values(
            |row: Vec<JsonValue>| column_entry_spec(row@, pks).1,
        ),
    decreases rows.len(),
{
    if rows.len() > 0 {
        let init = rows.drop_last();
        lemma_columns_of_table(init, pks, table);
        assert(rows.map_values(|row: Vec<JsonValue>| column_entry_spec(row@, pks)).drop_last()
            =~= init.map_values(|row: Vec<JsonValue>| column_entry_spec(row@, pks)));
        let prev = rows_of_table(init, table);
        if str_or_empty(cell_str_spec(rows.last()@, 0)) == table {
            assert(rows_of_table(rows, table).map_values(
                |row: Vec<JsonValue>| column_entry_spec(row@, pks).1,
            ) =~= prev.map_values(|row: Vec<JsonValue>| column_entry_spec(row@, pks).1).push(
                column_entry_spec(rows.last()@, pks).1,
            ));
        }
    } else {
        assert(rows_of_table(rows, table).map_values(
            |row: Vec<JsonValue>| column_entry_spec(row@, pks).1,
        ) =~= Seq::<Json>::empty());
    }
}

/// Reading the columns of `owner`'s schema (of one `table` when given),
/// over the outcomes the program reports:
/// - the query with `identity_column` runs first; the query without it
///   runs when, and only when, the first fails, with the same binds, and
///   the first failure is not reported;
/// - the primary-key query follows the column rows that were read;
/// - the error of the retry or of the key read is the one finished with;
/// - on success each table's group is one entry per catalog row of that
///   table, in catalog order, shaped by `column_entry_spec` with the key
///   rows read.
pub proof fn lemma_columns_run(
    owner: Seq<char>,
    table: Option<Seq<char>>,
    first: Result<QueryResult, (i64, Seq<char>)>,
    second: Result<QueryResult, (i64, Seq<char>)>,
    third: Result<QueryResult, (i64, Seq<char>)>,
)
    ensures
        ({
            let run = columns_run(owner, table, seq![first, second, third]);
            let binds = owner_binds_spec(owner, table);
            let with_identity = ColumnsStep::Query(columns_sql_spec(true, table is Some), binds);
            let without_identity = ColumnsStep::Query(columns_sql_spec(false, table is Some), binds);
            let read_keys = ColumnsStep::Query(pk_columns_sql_spec(table is Some), binds);
            &&& first is Ok && second is Err ==> run == seq![
                with_identity,
                read_keys,
                ColumnsStep::Finish(Err(second->Err_0)),
            ]
            &&& first is Ok && second is Ok ==> run == seq![
                with_identity,
                read_keys,
                ColumnsStep::Finish(Ok(grouped_columns(first->Ok_0, second->Ok_0))),
            ]
            &&& first is Err && second is Err ==> run == seq![
                with_identity,
                without_identity,
                ColumnsStep::Finish(Err(second->Err_0)),
            ]
            &&& first is Err && second is Ok && third is Err ==> run == seq![
                with_identity,
                without_identity,
                read_keys,
                ColumnsStep::Finish(Err(third->Err_0)),
            ]
            &&& first is Err && second is Ok && third is Ok ==> run == seq![
                with_identity,
                without_identity,
                read_keys,
                ColumnsStep::Finish(Ok(grouped_columns(second->Ok_0, third->Ok_0))),
            ]
            &&& run.last() is Finish
        }),
        forall|columns: QueryResult, keys: QueryResult, t: Seq<char>|
            #[trigger] group_of(grouped_columns(columns, keys), t) == rows_of_table(
                columns.rows@,
                t,
            ).map_values(
                |row: Vec<JsonValue>| column_entry_spec(row@, key_columns(keys.rows@)).1,
            ),
{
    reveal_with_fuel(columns_steps, 4);
    let events = seq![first, second, third];
    assert(events.drop_first() =~= seq![second, third]);
    assert(events.drop_first().drop_first() =~= seq![third]);
    assert forall|columns: QueryResult, keys: QueryResult, t: Seq<char>|
        #[trigger] group_of(grouped_columns(columns, keys), t) == rows_of_table(
            columns.rows@,
            t,
        ).map_values(
            |row: Vec<JsonValue>| column_entry_spec(row@, key_columns(keys.rows@)).1,
        ) by {
        lemma_columns_of_table(columns.rows@, key_columns(keys.rows@), t);
    }
}

/// A character column (base type VARCHAR2, NVARCHAR2, CHAR or NCHAR) with
/// a positive `char_length` n reports its data type as the base followed by
/// `(n)` and its `character_maximum_length` as n; every other column
/// reports a null `character_maximum_length`.
pub proof fn lemma_char_columns(row: Seq<JsonValue>, pks: Seq<(Seq<char>, Seq<char>)>)
    ensures
        ({
            let base = str_or_empty(cell_str_spec(row, 2));
            let n = cell_i64_spec(row, 3);
            let entry = column_entry_spec(row, pks).1;
            let is_char = base == "VARCHAR2"@ || base == "NVARCHAR2"@ || base == "CHAR"@ || base
                == "NCHAR"@;
            &&& entry is Object
            &&& entry->Object_0.len() == 7
            &&& is_char && n > 0 ==> entry->Object_0[1] == (
                "data_type"@,
                Json::Str(base + "("@ + dec_int(n as int) + ")"@),
            ) && entry->Object_0[6] == ("character_maximum_length"@, Json::Int(n as int))
            &&& !(is_char && n > 0) ==> entry->Object_0[6] == (
                "character_maximum_length"@,
                Json::Null,
            )
        }),
{
    lemma_type_names_distinct();
}

/// How a catalog type is rendered: NUMBER as `NUMBER(p)`, or `NUMBER(p,s)`
/// for a non-zero scale, and bare without a precision; FLOAT as `FLOAT(p)`,
/// bare without one; a character type with a positive `char_length` n as
/// the base followed by `(n)`; RAW with a positive `data_length` n as
/// `RAW(n)`; every other type, and a character or RAW type without a
/// positive length, as the catalog names it.
pub proof fn lemma_format_data_type(
    base: Seq<char>,
    char_length: i64,
    data_length: i64,
    precision: Json,
    scale: Json,
)
    ensures
        ({
            let r = format_data_type_spec(base, char_length, data_length, precision, scale);
            let p = int_of(precision);
            let s = int_of(scale);
            let is_char = base == "VARCHAR2"@ || base == "NVARCHAR2"@ || base == "CHAR"@ || base
                == "NCHAR"@;
            &&& base == "NUMBER"@ && p is None ==> r == "NUMBER"@
            &&& base == "NUMBER"@ && p is Some && (s is None || s == Some(0i64)) ==> r == "NUMBER("@
                + dec_int(p->0 as int) + ")"@
            &&& base == "NUMBER"@ && p is Some && s is Some && s->0 != 0 ==> r == "NUMBER("@ + dec_int(
                p->0 as int,
            ) + ","@ + dec_int(s->0 as int) + ")"@
            &&& base == "FLOAT"@ && p is None ==> r == "FLOAT"@
            &&& base == "FLOAT"@ && p is Some ==> r == "FLOAT("@ + dec_int(p->0 as int) + ")"@
            &&& is_char && char_length > 0 ==> r == base + "("@ + dec_int(char_length as int) + ")"@
            &&& base == "RAW"@ && data_length > 0 ==> r == "RAW("@ + dec_int(data_length as int) + ")"@
            &&& base != "NUMBER"@ && base != "FLOAT"@ && !(is_char && char_length > 0) && !(base
                == "RAW"@ && data_length > 0) ==> r == base
        }),
{
    lemma_type_names_distinct();
}

proof fn lemma_type_names_distinct()
    ensures
        "NUMBER"@ != "FLOAT"@,
        "NUMBER"@ != "RAW"@,
        "FLOAT"@ != "RAW"@,
        "VARCHAR2"@ != "NUMBER"@ && "VARCHAR2"@ != "FLOAT"@ && "VARCHAR2"@ != "RAW"@,
        "NVARCHAR2"@ != "NUMBER"@ && "NVARCHAR2"@ != "FLOAT"@ && "NVARCHAR2"@ != "RAW"@,
        "CHAR"@ != "NUMBER"@ && "CHAR"@ != "FLOAT"@ && "CHAR"@ != "RAW"@,
        "NCHAR"@ != "NUMBER"@ && "NCHAR"@ != "FLOAT"@ && "NCHAR"@ != "RAW"@,
{
    reveal_strlit("VARCHAR2");
    reveal_strlit("NVARCHAR2");
    reveal_strlit("CHAR");
    reveal_strlit("NCHAR");
    reveal_strlit("NUMBER");
    reveal_strlit("FLOAT");
    reveal_strlit("RAW");
    assert("NUMBER"@[0] != "FLOAT"@[0]);
    assert("NUMBER"@[0] != "RAW"@[0]);
    assert("FLOAT"@[0] != "RAW"@[0]);
    assert("VARCHAR2"@[0] != "NUMBER"@[0] && "VARCHAR2"@[0] != "FLOAT"@[0] && "VARCHAR2"@[0] != "RAW"@[0]);
    assert("NVARCHAR2"@[1] != "NUMBER"@[1] && "NVARCHAR2"@[0] != "FLOAT"@[0] && "NVARCHAR2"@[0] != "RAW"@[0]);
    assert("CHAR"@[0] != "NUMBER"@[0] && "CHAR"@[0] != "FLOAT"@[0] && "CHAR"@[0] != "RAW"@[0]);
    assert("NCHAR"@[1] != "NUMBER"@[1] && "NCHAR"@[0] != "FLOAT"@[0] && "NCHAR"@[0] != "RAW"@[0]);
}

/// Each named index row gives one index entry, in catalog order: its
/// name, column, uniqueness (the catalog says UNIQUE), primary-key flag
/// (the key flag is 1) and position. When every row is named, the entries
/// are exactly the rows'.
pub proof fn lemma_index_entries(rows: Seq<Vec<JsonValue>>)
    ensures
        index_entries_spec(rows).len() <= rows.len(),
        (forall|k: int| 0 <= k < rows.len() ==> (#[trigger] cell_str_spec(rows[k]@, 0)) is Some)
            ==> {
            &&& index_entries_spec(rows).len() == rows.len()
            &&& forall|i: int|
                0 <= i < rows.len() ==> #[trigger] index_entries_spec(rows)[i] == Json::Object(
                    seq![
                        ("name"@, Json::Str(cell_str_spec(rows[i]@, 0)->0)),
                        ("column_name"@, Json::Str(str_or_empty(cell_str_spec(rows[i]@, 2)))),
                        ("is_unique"@, Json::Bool(cell_str_spec(rows[i]@, 1) == Some("UNIQUE"@))),
                        ("is_primary"@, Json::Bool(cell_i64_spec(rows[i]@, 4) == 1)),
                        ("seq_in_index"@, Json::Int(cell_i64_spec(rows[i]@, 3) as int)),
                    ],
                )
        },
    decreases rows.len(),
{
    if rows.len() > 0 {
        let init = rows.drop_last();
        lemma_index_entries(init);
        if forall|k: int| 0 <= k < rows.len() ==> (#[trigger] cell_str_spec(rows[k]@, 0)) is Some {
            assert forall|k: int| 0 <= k < init.len() implies (#[trigger] cell_str_spec(init[k]@, 0)) is Some by {
                assert(init[k] == rows[k]);
                assert(cell_str_spec(rows[k]@, 0) is Some);
            }
            assert(cell_str_spec(rows[rows.len() - 1]@, 0) is Some);
            assert forall|i: int| 0 <= i < rows.len() implies #[trigger] index_entries_spec(rows)[i] == Json::Object(
                seq![
                    ("name"@, Json::Str(cell_str_spec(rows[i]@, 0)->0)),
                    ("column_name"@, Json::Str(str_or_empty(cell_str_spec(rows[i]@, 2)))),
                    ("is_unique"@, Json::Bool(cell_str_spec(rows[i]@, 1) == Some("UNIQUE"@))),
                    ("is_primary"@, Json::Bool(cell_i64_spec(rows[i]@, 4) == 1)),
                    ("seq_in_index"@, Json::Int(cell_i64_spec(rows[i]@, 3) as int)),
                ],
            ) by {
                if i < rows.len() - 1 {
                    assert(init[i] == rows[i]);
                    assert(index_entries_spec(init)[i] == index_entries_spec(rows)[i]);
                }
            }
        }
    }
}

/// Each routine row with a name and a kind gives one routine entry, in
/// catalog order, with no definition; when every row has both, the
/// entries are exactly the rows'.
pub proof fn lemma_routine_entries(rows: Seq<Vec<JsonValue>>)
    ensures
        routine_entries_spec(rows).len() <= rows.len(),
        (forall|k: int|
            0 <= k < rows.len() ==> (#[trigger] cell_str_spec(rows[k]@, 0)) is Some && cell_str_spec(
                rows[k]@,
                1,
            ) is Some) ==> {
            &&& routine_entries_spec(rows).len() == rows.len()
            &&& forall|i: int|
                0 <= i < rows.len() ==> #[trigger] routine_entries_spec(rows)[i] == Json::Object(
                    seq![
                        ("name"@, Json::Str(cell_str_spec(rows[i]@, 0)->0)),
                        ("routine_type"@, Json::Str(cell_str_spec(rows[i]@, 1)->0)),
                        ("definition"@, Json::Null),
                    ],
                )
        },
    decreases rows.len(),
{
    if rows.len() > 0 {
        let init = rows.drop_last();
        lemma_routine_entries(init);
        if forall|k: int|
            0 <= k < rows.len() ==> (#[trigger] cell_str_spec(rows[k]@, 0)) is Some && cell_str_spec(
                rows[k]@,
                1,
            ) is Some {
            assert forall|k: int| 0 <= k < init.len() implies (#[trigger] cell_str_spec(init[k]@, 0)) is Some
                && cell_str_spec(init[k]@, 1) is Some by {
                assert(init[k] == rows[k]);
                assert(cell_str_spec(rows[k]@, 0) is Some);
            }
            assert(cell_str_spec(rows[rows.len() - 1]@, 0) is Some);
            assert forall|i: int| 0 <= i < rows.len() implies #[trigger] routine_entries_spec(rows)[i] == Json::Object(
                seq![
                    ("name"@, Json::Str(cell_str_spec(rows[i]@, 0)->0)),
                    ("routine_type"@, Json::Str(cell_str_spec(rows[i]@, 1)->0)),
                    ("definition"@, Json::Null),
                ],
            ) by {
                if i < rows.len() - 1 {
                    assert(init[i] == rows[i]);
                    assert(routine_entries_spec(init)[i] == routine_entries_spec(rows)[i]);
                }
            }
        }
    }
}

/// A routine parameter reports Oracle's IN/OUT direction as INOUT and
/// every other direction as the catalog names it, with its name, type and
/// position.
pub proof fn lemma_parameter_entry(row: Seq<JsonValue>)
    ensures
        parameter_entry_spec(row) == Json::Object(
            seq![
                ("name"@, Json::Str(str_or_empty(cell_str_spec(row, 0)))),
                ("data_type"@, Json::Str(str_or_empty(cell_str_spec(row, 1)))),
                (
                    "mode"@,
                    Json::Str(
                        if cell_str_spec(row, 2) == Some("IN/OUT"@) {
                            "INOUT"@
                        } else {
                            str_or_empty(cell_str_spec(row, 2))
                        },
                    ),
                ),
                ("ordinal_position"@, Json::Int(cell_i64_spec(row, 3) as int)),
            ],
        ),
{
    reveal_strlit("IN/OUT");
    let mode = str_or_empty(cell_str_spec(row, 2));
    if cell_str_spec(row, 2) is None {
        assert(mode.len() == 0);
        assert(mode != "IN/OUT"@);
    }
    assert(parameter_mode(mode) == if cell_str_spec(row, 2) == Some("IN/OUT"@) {
        "INOUT"@
    } else {
        mode
    });
}

/// A foreign-key row reports its constraint, column, referenced table and
/// column, the catalog's delete rule, and a null update rule (Oracle has
/// no ON UPDATE action).
pub proof fn lemma_foreign_key_entry(row: Seq<JsonValue>)
    ensures
        foreign_key_entry_spec(row).0 == str_or_empty(cell_str_spec(row, 0)),
        foreign_key_entry_spec(row).1 == Json::Object(
            seq![
                ("name"@, Json::Str(str_or_empty(cell_str_spec(row, 1)))),
                ("column_name"@, Json::Str(str_or_empty(cell_str_spec(row, 2)))),
                ("ref_table"@, Json::Str(str_or_empty(cell_str_spec(row, 3)))),
                ("ref_column"@, Json::Str(str_or_empty(cell_str_spec(row, 4)))),
                ("on_delete"@, cell_spec(row, 5)),
                ("on_update"@, Json::Null),
            ],
        ),
{
}

/// `create_view` issues `CREATE VIEW` and `alter_view` issues
/// `CREATE OR REPLACE VIEW`, each of the view qualified by the schema,
/// then ` AS ` and the definition; `drop_view` issues `DROP VIEW` of the
/// same qualified name.
pub proof fn lemma_view_statements(owner: Seq<char>, params: Json, replace: bool)
    ensures
        create_view_spec(owner, params, replace) is Ok <==> (req_str_any_spec(
            params,
            seq!["view_name", "name"],
        ) is Ok && req_str_spec(params, "definition"@) is Ok),
        create_view_spec(owner, params, replace) is Ok ==> create_view_spec(owner, params, replace)->Ok_0
            == (if replace {
            "CREATE OR REPLACE VIEW "@
        } else {
            "CREATE VIEW "@
        }) + qualify_spec(Some(owner), req_str_any_spec(params, seq!["view_name", "name"])->Ok_0)
            + " AS "@ + req_str_spec(params, "definition"@)->Ok_0,
{
}

/// A batch asks for the string items of its `tables` array, in order:
/// every requested table is such an item, and when every item is a
/// string, all of them are requested.
pub proof fn lemma_requested_tables(params: Json, items: Seq<Json>)
    ensures
        params.get("tables"@) == Some(Json::Array(items)) ==> {
            &&& requested_tables_spec(params).len() <= items.len()
            &&& (forall|i: int| 0 <= i < items.len() ==> (#[trigger] items[i]) is Str)
                ==> requested_tables_spec(params) == items.map_values(|j: Json| j->Str_0)
        },
        !(params.get("tables"@) matches Some(Json::Array(_))) ==> requested_tables_spec(params).len()
            == 0,
{
    lemma_array_strings(items);
}

proof fn lemma_array_strings(items: Seq<Json>)
    ensures
        array_strings(items).len() <= items.len(),
        (forall|i: int| 0 <= i < items.len() ==> (#[trigger] items[i]) is Str) ==> array_strings(items)
            == items.map_values(|j: Json| j->Str_0),
    decreases items.len(),
{
    if items.len() > 0 {
        let init = items.drop_last();
        lemma_array_strings(init);
        if forall|i: int| 0 <= i < items.len() ==> (#[trigger] items[i]) is Str {
            assert forall|i: int| 0 <= i < init.len() implies (#[trigger] init[i]) is Str by {
                assert(init[i] == items[i]);
            }
            assert(items[items.len() - 1] is Str);
            assert(items.map_values(|j: Json| j->Str_0) =~= init.map_values(|j: Json| j->Str_0).push(
                items.last()->Str_0,
            ));
        }
    }
}

/// The primary-key columns are the (table, column) pairs of the key rows
/// that name both, in order: when every row names both, all rows count.
pub proof fn lemma_key_columns(rows: Seq<Vec<JsonValue>>)
    ensures
        key_columns(rows).len() <= rows.len(),
        (forall|i: int|
            0 <= i < rows.len() ==> (#[trigger] cell_str_spec(rows[i]@, 0)) is Some && cell_str_spec(
                rows[i]@,
                1,
            ) is Some) ==> key_columns(rows) == rows.map_values(
            |r: Vec<JsonValue>| (cell_str_spec(r@, 0)->0, cell_str_spec(r@, 1)->0),
        ),
    decreases rows.len(),
{
    if rows.len() > 0 {
        let init = rows.drop_last();
        lemma_key_columns(init);
        if forall|i: int|
            0 <= i < rows.len() ==> (#[trigger] cell_str_spec(rows[i]@, 0)) is Some && cell_str_spec(
                rows[i]@,
                1,
            ) is Some {
            assert forall|i: int| 0 <= i < init.len() implies (#[trigger] cell_str_spec(init[i]@, 0)) is Some
                && cell_str_spec(init[i]@, 1) is Some by {
                assert(init[i] == rows[i]);
                assert(cell_str_spec(rows[i]@, 0) is Some);
            }
            assert(cell_str_spec(rows[rows.len() - 1]@, 0) is Some);
            assert(rows.map_values(
                |r: Vec<JsonValue>| (cell_str_spec(r@, 0)->0, cell_str_spec(r@, 1)->0),
            ) =~= init.map_values(
                |r: Vec<JsonValue>| (cell_str_spec(r@, 0)->0, cell_str_spec(r@, 1)->0),
            ).push((cell_str_spec(rows.last()@, 0)->0, cell_str_spec(rows.last()@, 1)->0)));
        }
    }
}

/// A column row reports its name, whether (table, name) is a primary-key
/// column, nullability (the catalog says Y), identity (the catalog says
/// YES), and its default trimmed, or null when blank or absent.
pub proof fn lemma_column_entry(row: Seq<JsonValue>, pks: Seq<(Seq<char>, Seq<char>)>)
    ensures
        ({
            let table = str_or_empty(cell_str_spec(row, 0));
            let name = str_or_empty(cell_str_spec(row, 1));
            let e = column_entry_spec(row, pks).1->Object_0;
            &&& column_entry_spec(row, pks).0 == table
            &&& e[0] == ("name"@, Json::Str(name))
            &&& e[2] == ("is_pk"@, Json::Bool(exists|k: int| 0 <= k < pks.len() && pks[k] == (table, name)))
            &&& e[3] == ("is_nullable"@, Json::Bool(cell_str_spec(row, 7) == Some("Y"@)))
            &&& e[4] == ("is_auto_increment"@, Json::Bool(cell_str_spec(row, 9) == Some("YES"@)))
            &&& e[5] == (
                "default_value"@,
                if cell_str_spec(row, 8) is Some && trim(cell_str_spec(row, 8)->0).len() > 0 {
                    Json::Str(trim(cell_str_spec(row, 8)->0))
                } else {
                    Json::Null
                },
            )
        }),
{
}

} // verus!
