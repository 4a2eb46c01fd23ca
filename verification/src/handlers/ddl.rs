//! DDL generation.
//!
//! The `get_*_sql` methods generate SQL from the definitions the host sends
//! (its `ColumnDefinition` model) and return a **list** of statements the host
//! may show before running them through `execute_query`. Oracle supports the
//! full set — MODIFY column, ADD CONSTRAINT ... FOREIGN KEY, DROP CONSTRAINT —
//! with one caveat: foreign keys have no ON UPDATE action.
//!
//! Column definitions follow the host's shape:
//! `{ name, data_type, is_nullable, is_pk, is_auto_increment, default_value }`.
use vstd::prelude::*;

use crate::error::{res_view, PluginError, INVALID_PARAMS};
use crate::handlers::{
    opt_str, req_str, req_str_any, req_str_any_spec, req_str_spec, respond, respond_spec,
};
use crate::json::{lemma_models, models, str_array, Json, JsonValue};
use crate::models::field_str;
use crate::text::{
    as_opt_str, ends_with, is_numeric_literal, numeric_literal, join, join_strings, opt_str_view,
    opt_view, push_str, seq_ends_with, str_eq, string_of, to_ascii_uppercase, trim, trim_str,
    upper, views,
};
use crate::utils::identifiers::{qualify, qualify_spec, quote, quote_literal, quote_literal_spec, quote_spec};

verus! {

// ---------------------------------------------------------------------------
// The meaning of a column definition
// ---------------------------------------------------------------------------

/// A boolean flag of a definition, false when absent or not a boolean.
pub open spec fn def_bool_spec(def: Json, key: Seq<char>) -> bool {
    match def.get(key) {
        Some(v) => v.as_bool() == Some(true),
        None => false,
    }
}

/// Whether a definition allows NULL (it does unless it says otherwise).
pub open spec fn nullable_spec(def: Json) -> bool {
    match def.get("is_nullable"@) {
        Some(v) => match v.as_bool() {
            Some(b) => b,
            None => true,
        },
        None => true,
    }
}

/// The data type of a definition, `VARCHAR2(255)` when it names none.
pub open spec fn data_type_spec(def: Json) -> Seq<char> {
    match field_str(def, "data_type"@) {
        Some(t) => t,
        None => "VARCHAR2(255)"@,
    }
}

/// The message for a definition without a name.
pub open spec fn no_name_msg() -> Seq<char> {
    "column definition needs a 'name'"@
}

/// Default values that are SQL expressions rather than text (compared in
/// upper case).
pub open spec fn is_default_expression(upper_value: Seq<char>) -> bool {
    ||| upper_value == "NULL"@
    ||| upper_value == "SYSDATE"@
    ||| upper_value == "SYSTIMESTAMP"@
    ||| upper_value == "CURRENT_DATE"@
    ||| upper_value == "CURRENT_TIMESTAMP"@
    ||| upper_value == "LOCALTIMESTAMP"@
    ||| seq_ends_with(upper_value, ".NEXTVAL"@)
    ||| upper_value == "SYS_GUID()"@
}

/// A default value as DDL text: numeric literals and SQL expressions pass
/// through trimmed, everything else becomes a quoted literal.
pub open spec fn render_default_spec(value: Seq<char>) -> Seq<char> {
    if is_default_expression(upper(trim(value))) || numeric_literal(trim(value)) {
        trim(value)
    } else {
        quote_literal_spec(value)
    }
}

/// The `"NAME" TYPE [GENERATED ...] [DEFAULT x] [NOT NULL]` fragment.
pub open spec fn column_spec_spec(def: Json) -> Result<Seq<char>, (i64, Seq<char>)> {
    match field_str(def, "name"@) {
        None => Err((INVALID_PARAMS, no_name_msg())),
        Some(name) => {
            let head = quote_spec(name) + " "@ + data_type_spec(def);
            let middle = if def_bool_spec(def, "is_auto_increment"@) {
                " GENERATED BY DEFAULT AS IDENTITY"@
            } else {
                match field_str(def, "default_value"@) {
                    Some(d) => " DEFAULT "@ + render_default_spec(d),
                    None => seq![],
                }
            };
            let tail = if nullable_spec(def) {
                seq![]
            } else {
                " NOT NULL"@
            };
            Ok(head + middle + tail)
        },
    }
}

/// The indented column lines of a table, or the first definition's error.
pub open spec fn column_lines(defs: Seq<Json>) -> Result<Seq<Seq<char>>, (i64, Seq<char>)>
    decreases defs.len(),
{
    if defs.len() == 0 {
        Ok(seq![])
    } else {
        match column_lines(defs.drop_last()) {
            Err(e) => Err(e),
            Ok(lines) => match column_spec_spec(defs.last()) {
                Err(e) => Err(e),
                Ok(spec) => Ok(lines.push("  "@ + spec)),
            },
        }
    }
}

/// The quoted names of the primary-key columns, in order.
pub open spec fn pk_names(defs: Seq<Json>) -> Seq<Seq<char>>
    decreases defs.len(),
{
    if defs.len() == 0 {
        seq![]
    } else {
        let prev = pk_names(defs.drop_last());
        if def_bool_spec(defs.last(), "is_pk"@) {
            match field_str(defs.last(), "name"@) {
                Some(n) => prev.push(quote_spec(n)),
                None => prev,
            }
        } else {
            prev
        }
    }
}

/// `CREATE TABLE` for a list of definitions.
pub open spec fn create_table_spec(
    schema: Option<Seq<char>>,
    table: Seq<char>,
    defs: Seq<Json>,
) -> Result<Seq<char>, (i64, Seq<char>)> {
    if defs.len() == 0 {
        Err((INVALID_PARAMS, "table definition needs at least one column"@))
    } else {
        match column_lines(defs) {
            Err(e) => Err(e),
            Ok(lines) => {
                let pks = pk_names(defs);
                let all = if pks.len() > 0 {
                    lines.push(
                        "  CONSTRAINT "@ + quote_spec("PK_"@ + table) + " PRIMARY KEY ("@ + join(
                            pks,
                            ", "@,
                        ) + ")"@,
                    )
                } else {
                    lines
                };
                Ok("CREATE TABLE "@ + qualify_spec(schema, table) + " (\n"@ + join(all, ",\n"@)
                    + "\n)"@)
            },
        }
    }
}

/// The `is_nullable` of the old definition, when it states one.
pub open spec fn old_nullable(old: Option<Json>) -> Option<bool> {
    match old {
        Some(o) => match o.get("is_nullable"@) {
            Some(v) => v.as_bool(),
            None => None,
        },
        None => None,
    }
}

/// The nullability clause of a MODIFY: present only when the old
/// definition states a nullability that differs from the new one.
pub open spec fn nullability_clause(old: Option<Json>, new: Json) -> Seq<char> {
    match old_nullable(old) {
        Some(o) => if o != nullable_spec(new) {
            if nullable_spec(new) {
                " NULL"@
            } else {
                " NOT NULL"@
            }
        } else {
            seq![]
        },
        None => seq![],
    }
}

/// The `"NAME" TYPE [DEFAULT x]` part of a MODIFY.
pub open spec fn modify_base(new_name: Seq<char>, new: Json) -> Seq<char> {
    quote_spec(new_name) + " "@ + data_type_spec(new) + match field_str(new, "default_value"@) {
        Some(d) => " DEFAULT "@ + render_default_spec(d),
        None => seq![],
    }
}

/// The RENAME statement when the column's name changes.
pub open spec fn rename_statements(
    qualified: Seq<char>,
    old: Option<Json>,
    new_name: Seq<char>,
) -> Seq<Seq<char>> {
    let old_name = match old {
        Some(o) => field_str(o, "name"@),
        None => None,
    };
    match old_name {
        Some(n) => if n != new_name {
            seq![
                "ALTER TABLE "@ + qualified + " RENAME COLUMN "@ + quote_spec(n) + " TO "@
                    + quote_spec(new_name),
            ]
        } else {
            seq![]
        },
        None => seq![],
    }
}

/// MODIFY (and RENAME if the name changed).
pub open spec fn alter_column_spec(
    schema: Option<Seq<char>>,
    table: Seq<char>,
    old: Option<Json>,
    new: Json,
) -> Result<Seq<Seq<char>>, (i64, Seq<char>)> {
    match field_str(new, "name"@) {
        None => Err((INVALID_PARAMS, no_name_msg())),
        Some(new_name) => {
            let qualified = qualify_spec(schema, table);
            Ok(
                rename_statements(qualified, old, new_name).push(
                    "ALTER TABLE "@ + qualified + " MODIFY ("@ + modify_base(new_name, new)
                        + nullability_clause(old, new) + ")"@,
                ),
            )
        },
    }
}

/// The array parameter `key`.
pub open spec fn array_param(params: Json, key: Seq<char>) -> Option<Seq<Json>> {
    match params.get(key) {
        Some(v) => v.as_array(),
        None => None,
    }
}

/// `get_create_table_sql`.
pub open spec fn create_table_request(params: Json) -> Result<Json, (i64, Seq<char>)> {
    match req_str_any_spec(params, seq!["table_name", "table"]) {
        Err(e) => Err(e),
        Ok(table) => match array_param(params, "columns"@) {
            None => Err((INVALID_PARAMS, "missing 'columns' array"@)),
            Some(defs) => match create_table_spec(field_str(params, "schema"@), table, defs) {
                Err(e) => Err(e),
                Ok(sql) => Ok(str_array(seq![sql])),
            },
        },
    }
}

/// `get_add_column_sql`.
pub open spec fn add_column_request(params: Json) -> Result<Json, (i64, Seq<char>)> {
    match req_str_spec(params, "table"@) {
        Err(e) => Err(e),
        Ok(table) => match params.get("column"@) {
            None => Err((INVALID_PARAMS, "missing 'column' definition"@)),
            Some(def) => match column_spec_spec(def) {
                Err(e) => Err(e),
                Ok(spec) => Ok(
                    str_array(
                        seq![
                            "ALTER TABLE "@ + qualify_spec(field_str(params, "schema"@), table)
                                + " ADD ("@ + spec + ")"@,
                        ],
                    ),
                ),
            },
        },
    }
}

/// The new definition of `get_alter_column_sql`: `new_column`, else `column`.
pub open spec fn new_column_param(params: Json) -> Option<Json> {
    match params.get("new_column"@) {
        Some(v) => Some(v),
        None => params.get("column"@),
    }
}

/// `get_alter_column_sql`.
pub open spec fn alter_column_request(params: Json) -> Result<Json, (i64, Seq<char>)> {
    match req_str_spec(params, "table"@) {
        Err(e) => Err(e),
        Ok(table) => match new_column_param(params) {
            None => Err((INVALID_PARAMS, "missing 'new_column' definition"@)),
            Some(new) => match alter_column_spec(
                field_str(params, "schema"@),
                table,
                params.get("old_column"@),
                new,
            ) {
                Err(e) => Err(e),
                Ok(statements) => Ok(str_array(statements)),
            },
        },
    }
}

/// The quoted non-empty string items of an index's column list.
pub open spec fn index_columns(items: Seq<Json>) -> Seq<Seq<char>>
    decreases items.len(),
{
    if items.len() == 0 {
        seq![]
    } else {
        let prev = index_columns(items.drop_last());
        match items.last().as_str() {
            Some(s) => if s.len() > 0 {
                prev.push(quote_spec(s))
            } else {
                prev
            },
            None => prev,
        }
    }
}

/// `get_create_index_sql`.
pub open spec fn create_index_request(params: Json) -> Result<Json, (i64, Seq<char>)> {
    let schema = field_str(params, "schema"@);
    match req_str_spec(params, "table"@) {
        Err(e) => Err(e),
        Ok(table) => match req_str_any_spec(params, seq!["index_name", "name"]) {
            Err(e) => Err(e),
            Ok(index_name) => {
                let cols = match array_param(params, "columns"@) {
                    Some(items) => index_columns(items),
                    None => seq![],
                };
                if cols.len() == 0 {
                    Err((INVALID_PARAMS, "index definition needs at least one column"@))
                } else {
                    let unique = if def_bool_spec(params, "is_unique"@) {
                        "UNIQUE "@
                    } else {
                        seq![]
                    };
                    Ok(
                        str_array(
                            seq![
                                "CREATE "@ + unique + "INDEX "@ + qualify_spec(schema, index_name)
                                    + " ON "@ + qualify_spec(schema, table) + " ("@ + join(
                                    cols,
                                    ", "@,
                                ) + ")"@,
                            ],
                        ),
                    )
                }
            },
        },
    }
}

/// The ON DELETE clause: Oracle supports CASCADE and SET NULL only.
pub open spec fn on_delete_clause(on_delete: Option<Seq<char>>) -> Seq<char> {
    match on_delete {
        Some(d) => if upper(d) == "CASCADE"@ {
            " ON DELETE CASCADE"@
        } else if upper(d) == "SET NULL"@ {
            " ON DELETE SET NULL"@
        } else {
            seq![]
        },
        None => seq![],
    }
}

/// The constraint name: `fk_name`, else `constraint_name`, else
/// `FK_<table>_<column>`.
pub open spec fn fk_name_spec(params: Json, table: Seq<char>, column: Seq<char>) -> Seq<char> {
    match field_str(params, "fk_name"@) {
        Some(n) => n,
        None => match field_str(params, "constraint_name"@) {
            Some(n) => n,
            None => "FK_"@ + table + "_"@ + column,
        },
    }
}

/// `get_create_foreign_key_sql`.
pub open spec fn create_foreign_key_request(params: Json) -> Result<Json, (i64, Seq<char>)> {
    let schema = field_str(params, "schema"@);
    match req_str_spec(params, "table"@) {
        Err(e) => Err(e),
        Ok(table) => match req_str_any_spec(params, seq!["column", "column_name"]) {
            Err(e) => Err(e),
            Ok(column) => match req_str_any_spec(params, seq!["ref_table", "referenced_table"]) {
                Err(e) => Err(e),
                Ok(ref_table) => match req_str_any_spec(
                    params,
                    seq!["ref_column", "referenced_column"],
                ) {
                    Err(e) => Err(e),
                    Ok(ref_column) => Ok(
                        str_array(
                            seq![
                                "ALTER TABLE "@ + qualify_spec(schema, table) + " ADD CONSTRAINT "@
                                    + quote_spec(fk_name_spec(params, table, column))
                                    + " FOREIGN KEY ("@ + quote_spec(column) + ") REFERENCES "@
                                    + qualify_spec(schema, ref_table) + " ("@ + quote_spec(
                                    ref_column,
                                ) + ")"@ + on_delete_clause(field_str(params, "on_delete"@)),
                            ],
                        ),
                    ),
                },
            },
        },
    }
}

/// The statement of `drop_index`.
pub open spec fn drop_index_spec(params: Json) -> Result<Seq<char>, (i64, Seq<char>)> {
    match req_str_spec(params, "index_name"@) {
        Err(e) => Err(e),
        Ok(index_name) => Ok(
            "DROP INDEX "@ + qualify_spec(field_str(params, "schema"@), index_name),
        ),
    }
}

/// The statement of `drop_foreign_key`.
pub open spec fn drop_foreign_key_spec(params: Json) -> Result<Seq<char>, (i64, Seq<char>)> {
    match req_str_spec(params, "table"@) {
        Err(e) => Err(e),
        Ok(table) => match req_str_any_spec(params, seq!["fk_name", "constraint_name"]) {
            Err(e) => Err(e),
            Ok(constraint) => Ok(
                "ALTER TABLE "@ + qualify_spec(field_str(params, "schema"@), table)
                    + " DROP CONSTRAINT "@ + quote_spec(constraint),
            ),
        },
    }
}

// ---------------------------------------------------------------------------
// Builders
// ---------------------------------------------------------------------------

fn def_str(def: &JsonValue, key: &str) -> (r: Option<String>)
    ensures
        opt_view(r) == field_str(def@, key@),
{
    opt_str(def, key)
}

fn def_bool(def: &JsonValue, key: &str) -> (r: bool)
    ensures
        r == def_bool_spec(def@, key@),
{
    match def.get(key) {
        Some(v) => match v.as_bool() {
            Some(b) => b,
            None => false,
        },
        None => false,
    }
}

fn is_nullable(def: &JsonValue) -> (r: bool)
    ensures
        r == nullable_spec(def@),
{
    match def.get("is_nullable") {
        Some(v) => match v.as_bool() {
            Some(b) => b,
            None => true,
        },
        None => true,
    }
}

fn data_type(def: &JsonValue) -> (r: String)
    ensures
        r@ == data_type_spec(def@),
{
    match def_str(def, "data_type") {
        Some(t) => t,
        None => string_of("VARCHAR2(255)"),
    }
}

/// Render a default value string for DDL: numbers and SQL expressions pass
/// through raw, everything else becomes a quoted literal.
pub fn render_default(value: &str) -> (r: String)
    ensures
        r@ == render_default_spec(value@),
{
    let trimmed = trim_str(value);
    let up = to_ascii_uppercase(trimmed);
    let u = up.as_str();
    let is_expression = str_eq(u, "NULL") || str_eq(u, "SYSDATE") || str_eq(u, "SYSTIMESTAMP")
        || str_eq(u, "CURRENT_DATE") || str_eq(u, "CURRENT_TIMESTAMP") || str_eq(
        u,
        "LOCALTIMESTAMP",
    ) || ends_with(u, ".NEXTVAL") || str_eq(u, "SYS_GUID()");
    if is_expression || is_numeric_literal(trimmed) {
        string_of(trimmed)
    } else {
        quote_literal(value)
    }
}

/// The `"NAME" TYPE [GENERATED ...] [DEFAULT x] [NOT NULL]` fragment shared by
/// CREATE TABLE, ADD and MODIFY. Oracle requires DEFAULT before NOT NULL, and
/// identity columns cannot also carry a DEFAULT.
pub fn column_spec(column: &JsonValue) -> (r: Result<String, PluginError>)
    ensures
        res_view(r) == column_spec_spec(column@),
{
    let name = match def_str(column, "name") {
        Some(n) => n,
        None => {
            return Err(PluginError::invalid_params(string_of("column definition needs a 'name'")));
        },
    };
    let dt = data_type(column);
    let mut spec = quote(name.as_str());
    push_str(&mut spec, " ");
    push_str(&mut spec, dt.as_str());
    let ghost head = spec@;
    let identity = def_bool(column, "is_auto_increment");
    if identity {
        push_str(&mut spec, " GENERATED BY DEFAULT AS IDENTITY");
    } else {
        match def_str(column, "default_value") {
            Some(d) => {
                push_str(&mut spec, " DEFAULT ");
                let rendered = render_default(d.as_str());
                push_str(&mut spec, rendered.as_str());
            },
            None => {},
        }
    }
    let ghost with_middle = spec@;
    if !is_nullable(column) {
        push_str(&mut spec, " NOT NULL");
    }
    proof {
        let middle = if def_bool_spec(column@, "is_auto_increment"@) {
            " GENERATED BY DEFAULT AS IDENTITY"@
        } else {
            match field_str(column@, "default_value"@) {
                Some(d) => " DEFAULT "@ + render_default_spec(d),
                None => seq![],
            }
        };
        assert(with_middle =~= head + middle);
        let tail: Seq<char> = if nullable_spec(column@) {
            seq![]
        } else {
            " NOT NULL"@
        };
        assert(spec@ =~= head + middle + tail);
    }
    Ok(spec)
}

/// Once a prefix of the definitions fails, the whole list fails the same way.
proof fn lemma_column_lines_err(defs: Seq<Json>, k: int)
    requires
        0 <= k <= defs.len(),
        column_lines(defs.take(k)) is Err,
    ensures
        column_lines(defs) == column_lines(defs.take(k)),
    decreases defs.len(),
{
    if defs.len() == k {
        assert(defs.take(k) =~= defs);
    } else {
        assert(defs.drop_last().take(k) =~= defs.take(k));
        lemma_column_lines_err(defs.drop_last(), k);
    }
}

pub fn build_create_table_sql(schema: Option<&str>, table: &str, columns: &[JsonValue]) -> (r:
    Result<String, PluginError>)
    ensures
        res_view(r) == create_table_spec(opt_str_view(schema), table@, models(columns@)),
{
    let ghost defs = models(columns@);
    proof {
        lemma_models(columns@);
    }
    if columns.len() == 0 {
        return Err(
            PluginError::invalid_params(string_of("table definition needs at least one column")),
        );
    }
    let mut parts: Vec<String> = Vec::new();
    let mut i: usize = 0;
    assert(defs.take(0) =~= Seq::<Json>::empty());
    assert(views(parts@) =~= Seq::<Seq<char>>::empty());
    while i < columns.len()
        invariant
            i <= columns@.len(),
            defs == models(columns@),
            defs.len() == columns@.len(),
            forall|j: int| 0 <= j < columns@.len() ==> #[trigger] defs[j] == columns@[j]@,
            column_lines(defs.take(i as int)) == Ok::<Seq<Seq<char>>, (i64, Seq<char>)>(
                views(parts@),
            ),
        decreases columns@.len() - i,
    {
        assert(defs.take(i + 1).drop_last() =~= defs.take(i as int));
        assert(defs.take(i + 1).last() == columns@[i as int]@);
        match column_spec(&columns[i]) {
            Ok(spec) => {
                let mut line = string_of("  ");
                push_str(&mut line, spec.as_str());
                parts.push(line);
                assert(views(parts@) =~= column_lines(defs.take(i as int))->Ok_0.push(
                    "  "@ + spec@,
                ));
            },
            Err(e) => {
                proof {
                    lemma_column_lines_err(defs, i + 1);
                }
                return Err(e);
            },
        }
        i = i + 1;
    }
    assert(defs.take(columns@.len() as int) =~= defs);
    let ghost lines = views(parts@);
    let mut pks: Vec<String> = Vec::new();
    let mut k: usize = 0;
    while k < columns.len()
        invariant
            k <= columns@.len(),
            defs == models(columns@),
            defs.len() == columns@.len(),
            forall|j: int| 0 <= j < columns@.len() ==> #[trigger] defs[j] == columns@[j]@,
            views(pks@) == pk_names(defs.take(k as int)),
        decreases columns@.len() - k,
    {
        assert(defs.take(k + 1).drop_last() =~= defs.take(k as int));
        assert(defs.take(k + 1).last() == columns@[k as int]@);
        if def_bool(&columns[k], "is_pk") {
            match def_str(&columns[k], "name") {
                Some(n) => {
                    pks.push(quote(n.as_str()));
                    assert(views(pks@) =~= pk_names(defs.take(k as int)).push(quote_spec(n@)));
                },
                None => {},
            }
        }
        k = k + 1;
    }
    if pks.len() > 0 {
        let mut c = string_of("  CONSTRAINT ");
        let mut pk_name = string_of("PK_");
        push_str(&mut pk_name, table);
        let quoted = quote(pk_name.as_str());
        push_str(&mut c, quoted.as_str());
        push_str(&mut c, " PRIMARY KEY (");
        let joined = join_strings(&pks, ", ");
        push_str(&mut c, joined.as_str());
        push_str(&mut c, ")");
        parts.push(c);
        assert(views(parts@) =~= lines.push(
            "  CONSTRAINT "@ + quote_spec("PK_"@ + table@) + " PRIMARY KEY ("@ + join(
                pk_names(defs),
                ", "@,
            ) + ")"@,
        ));
    }
    let mut sql = string_of("CREATE TABLE ");
    let q = qualify(schema, table);
    push_str(&mut sql, q.as_str());
    push_str(&mut sql, " (\n");
    let body = join_strings(&parts, ",\n");
    push_str(&mut sql, body.as_str());
    push_str(&mut sql, "\n)");
    Ok(sql)
}

pub fn build_alter_column_sql(
    schema: Option<&str>,
    table: &str,
    old_column: Option<&JsonValue>,
    new_column: &JsonValue,
) -> (r: Result<Vec<String>, PluginError>)
    ensures
        match r {
            Ok(v) => alter_column_spec(
                opt_str_view(schema),
                table@,
                match old_column {
                    Some(o) => Some(o@),
                    None => None,
                },
                new_column@,
            ) == Ok::<Seq<Seq<char>>, (i64, Seq<char>)>(views(v@)),
            Err(e) => alter_column_spec(
                opt_str_view(schema),
                table@,
                match old_column {
                    Some(o) => Some(o@),
                    None => None,
                },
                new_column@,
            ) == Err::<Seq<Seq<char>>, (i64, Seq<char>)>(e@),
        },
{
    let ghost old = match old_column {
        Some(o) => Some(o@),
        None => None,
    };
    let new_name = match def_str(new_column, "name") {
        Some(n) => n,
        None => {
            return Err(PluginError::invalid_params(string_of("column definition needs a 'name'")));
        },
    };
    let qualified_table = qualify(schema, table);
    let mut statements: Vec<String> = Vec::new();
    let old_name = match old_column {
        Some(c) => def_str(c, "name"),
        None => None,
    };
    match old_name {
        Some(n) => {
            if !str_eq(n.as_str(), new_name.as_str()) {
                let mut st = string_of("ALTER TABLE ");
                push_str(&mut st, qualified_table.as_str());
                push_str(&mut st, " RENAME COLUMN ");
                let qo = quote(n.as_str());
                push_str(&mut st, qo.as_str());
                push_str(&mut st, " TO ");
                let qn = quote(new_name.as_str());
                push_str(&mut st, qn.as_str());
                statements.push(st);
            }
        },
        None => {},
    }
    assert(views(statements@) =~= rename_statements(qualified_table@, old, new_name@));
    let dt = data_type(new_column);
    let mut spec = quote(new_name.as_str());
    push_str(&mut spec, " ");
    push_str(&mut spec, dt.as_str());
    match def_str(new_column, "default_value") {
        Some(d) => {
            push_str(&mut spec, " DEFAULT ");
            let rendered = render_default(d.as_str());
            push_str(&mut spec, rendered.as_str());
        },
        None => {},
    }
    assert(spec@ =~= modify_base(new_name@, new_column@));
    let ghost base = spec@;
    let new_nullable = is_nullable(new_column);
    let old_nullable: Option<bool> = match old_column {
        Some(c) => match c.get("is_nullable") {
            Some(v) => v.as_bool(),
            None => None,
        },
        None => None,
    };
    match old_nullable {
        Some(o) => {
            if o != new_nullable {
                if new_nullable {
                    push_str(&mut spec, " NULL");
                } else {
                    push_str(&mut spec, " NOT NULL");
                }
            }
        },
        None => {},
    }
    assert(spec@ =~= base + nullability_clause(old, new_column@));
    let mut st = string_of("ALTER TABLE ");
    push_str(&mut st, qualified_table.as_str());
    push_str(&mut st, " MODIFY (");
    push_str(&mut st, spec.as_str());
    push_str(&mut st, ")");
    assert(st@ =~= "ALTER TABLE "@ + qualified_table@ + " MODIFY ("@ + modify_base(
        new_name@,
        new_column@,
    ) + nullability_clause(old, new_column@) + ")"@);
    let ghost before = views(statements@);
    statements.push(st);
    assert(views(statements@) =~= before.push(st@));
    Ok(statements)
}

/// A one-statement list.
fn single_statement(sql: String) -> (r: JsonValue)
    ensures
        r@ == str_array(seq![sql@]),
{
    let v = vec![sql];
    assert(views(v@) =~= seq![v@[0]@]);
    JsonValue::string_array(&v)
}

fn create_table_result(params: &JsonValue) -> (r: Result<JsonValue, PluginError>)
    ensures
        res_view(r) == create_table_request(params@),
{
    let schema = opt_str(params, "schema");
    let keys: [&str; 2] = ["table_name", "table"];
    let table = match req_str_any(params, &keys) {
        Ok(t) => t,
        Err(e) => return Err(e),
    };
    let columns = match params.get("columns") {
        Some(v) => match v.as_array() {
            Some(items) => items,
            None => return Err(PluginError::invalid_params(string_of("missing 'columns' array"))),
        },
        None => return Err(PluginError::invalid_params(string_of("missing 'columns' array"))),
    };
    match build_create_table_sql(as_opt_str(&schema), table.as_str(), columns.as_slice()) {
        Ok(sql) => Ok(single_statement(sql)),
        Err(e) => Err(e),
    }
}

pub fn get_create_table_sql(id: JsonValue, params: &JsonValue) -> (r: JsonValue)
    ensures
        r@ == respond_spec(id@, create_table_request(params@)),
{
    respond(id, create_table_result(params))
}

fn add_column_result(params: &JsonValue) -> (r: Result<JsonValue, PluginError>)
    ensures
        res_view(r) == add_column_request(params@),
{
    let schema = opt_str(params, "schema");
    let table = match req_str(params, "table") {
        Ok(t) => t,
        Err(e) => return Err(e),
    };
    let column = match params.get("column") {
        Some(c) => c,
        None => return Err(
            PluginError::invalid_params(string_of("missing 'column' definition")),
        ),
    };
    let mut sql = string_of("ALTER TABLE ");
    let q = qualify(as_opt_str(&schema), table.as_str());
    push_str(&mut sql, q.as_str());
    push_str(&mut sql, " ADD (");
    match column_spec(column) {
        Ok(spec) => push_str(&mut sql, spec.as_str()),
        Err(e) => return Err(e),
    }
    push_str(&mut sql, ")");
    Ok(single_statement(sql))
}

pub fn get_add_column_sql(id: JsonValue, params: &JsonValue) -> (r: JsonValue)
    ensures
        r@ == respond_spec(id@, add_column_request(params@)),
{
    respond(id, add_column_result(params))
}

fn alter_column_result(params: &JsonValue) -> (r: Result<JsonValue, PluginError>)
    ensures
        res_view(r) == alter_column_request(params@),
{
    let schema = opt_str(params, "schema");
    let table = match req_str(params, "table") {
        Ok(t) => t,
        Err(e) => return Err(e),
    };
    let old_column = params.get("old_column");
    let new_column = match params.get("new_column") {
        Some(c) => c,
        None => match params.get("column") {
            Some(c) => c,
            None => return Err(
                PluginError::invalid_params(string_of("missing 'new_column' definition")),
            ),
        },
    };
    match build_alter_column_sql(as_opt_str(&schema), table.as_str(), old_column, new_column) {
        Ok(statements) => Ok(JsonValue::string_array(&statements)),
        Err(e) => Err(e),
    }
}

pub fn get_alter_column_sql(id: JsonValue, params: &JsonValue) -> (r: JsonValue)
    ensures
        r@ == respond_spec(id@, alter_column_request(params@)),
{
    respond(id, alter_column_result(params))
}

/// The quoted, non-empty names of an index's column list.
fn index_column_list(items: &Vec<JsonValue>) -> (r: Vec<String>)
    ensures
        views(r@) == index_columns(models(items@)),
{
    let ghost m = models(items@);
    proof {
        lemma_models(items@);
    }
    let mut out: Vec<String> = Vec::new();
    let mut i: usize = 0;
    assert(views(out@) =~= index_columns(m.take(0)));
    while i < items.len()
        invariant
            i <= items@.len(),
            m == models(items@),
            m.len() == items@.len(),
            forall|j: int| 0 <= j < items@.len() ==> #[trigger] m[j] == items@[j]@,
            views(out@) == index_columns(m.take(i as int)),
        decreases items@.len() - i,
    {
        assert(m.take(i + 1).drop_last() =~= m.take(i as int));
        assert(m.take(i + 1).last() == items@[i as int]@);
        match items[i].as_str() {
            Some(s) => {
                if s.unicode_len() > 0 {
                    out.push(quote(s));
                    assert(views(out@) =~= index_columns(m.take(i as int)).push(quote_spec(s@)));
                }
            },
            None => {},
        }
        i = i + 1;
    }
    assert(m.take(items@.len() as int) =~= m);
    out
}

fn create_index_result(params: &JsonValue) -> (r: Result<JsonValue, PluginError>)
    ensures
        res_view(r) == create_index_request(params@),
{
    let schema = opt_str(params, "schema");
    let table = match req_str(params, "table") {
        Ok(t) => t,
        Err(e) => return Err(e),
    };
    let keys: [&str; 2] = ["index_name", "name"];
    let index_name = match req_str_any(params, &keys) {
        Ok(n) => n,
        Err(e) => return Err(e),
    };
    let columns: Vec<String> = match params.get("columns") {
        Some(v) => match v.as_array() {
            Some(items) => index_column_list(items),
            None => Vec::new(),
        },
        None => Vec::new(),
    };
    if columns.len() == 0 {
        return Err(
            PluginError::invalid_params(string_of("index definition needs at least one column")),
        );
    }
    let unique = def_bool(params, "is_unique");
    let mut sql = string_of("CREATE ");
    if unique {
        push_str(&mut sql, "UNIQUE ");
    }
    push_str(&mut sql, "INDEX ");
    let qi = qualify(as_opt_str(&schema), index_name.as_str());
    push_str(&mut sql, qi.as_str());
    push_str(&mut sql, " ON ");
    let qt = qualify(as_opt_str(&schema), table.as_str());
    push_str(&mut sql, qt.as_str());
    push_str(&mut sql, " (");
    let joined = join_strings(&columns, ", ");
    push_str(&mut sql, joined.as_str());
    push_str(&mut sql, ")");
    Ok(single_statement(sql))
}

pub fn get_create_index_sql(id: JsonValue, params: &JsonValue) -> (r: JsonValue)
    ensures
        r@ == respond_spec(id@, create_index_request(params@)),
{
    respond(id, create_index_result(params))
}

fn create_foreign_key_result(params: &JsonValue) -> (r: Result<JsonValue, PluginError>)
    ensures
        res_view(r) == create_foreign_key_request(params@),
{
    let schema = opt_str(params, "schema");
    let table = match req_str(params, "table") {
        Ok(t) => t,
        Err(e) => return Err(e),
    };
    let column_keys: [&str; 2] = ["column", "column_name"];
    let column = match req_str_any(params, &column_keys) {
        Ok(c) => c,
        Err(e) => return Err(e),
    };
    let ref_table_keys: [&str; 2] = ["ref_table", "referenced_table"];
    let ref_table = match req_str_any(params, &ref_table_keys) {
        Ok(t) => t,
        Err(e) => return Err(e),
    };
    let ref_column_keys: [&str; 2] = ["ref_column", "referenced_column"];
    let ref_column = match req_str_any(params, &ref_column_keys) {
        Ok(c) => c,
        Err(e) => return Err(e),
    };
    let fk_name = match opt_str(params, "fk_name") {
        Some(n) => n,
        None => match opt_str(params, "constraint_name") {
            Some(n) => n,
            None => {
                let mut n = string_of("FK_");
                push_str(&mut n, table.as_str());
                push_str(&mut n, "_");
                push_str(&mut n, column.as_str());
                n
            },
        },
    };
    let mut sql = string_of("ALTER TABLE ");
    let qt = qualify(as_opt_str(&schema), table.as_str());
    push_str(&mut sql, qt.as_str());
    push_str(&mut sql, " ADD CONSTRAINT ");
    let qf = quote(fk_name.as_str());
    push_str(&mut sql, qf.as_str());
    push_str(&mut sql, " FOREIGN KEY (");
    let qc = quote(column.as_str());
    push_str(&mut sql, qc.as_str());
    push_str(&mut sql, ") REFERENCES ");
    let qr = qualify(as_opt_str(&schema), ref_table.as_str());
    push_str(&mut sql, qr.as_str());
    push_str(&mut sql, " (");
    let qrc = quote(ref_column.as_str());
    push_str(&mut sql, qrc.as_str());
    push_str(&mut sql, ")");
    let ghost base = sql@;
    // Oracle supports ON DELETE CASCADE / SET NULL only (no ON UPDATE;
    // NO ACTION / RESTRICT is the default and takes no clause).
    match opt_str(params, "on_delete") {
        Some(on_delete) => {
            let up = to_ascii_uppercase(on_delete.as_str());
            if str_eq(up.as_str(), "CASCADE") {
                push_str(&mut sql, " ON DELETE CASCADE");
            } else if str_eq(up.as_str(), "SET NULL") {
                push_str(&mut sql, " ON DELETE SET NULL");
            }
        },
        None => {},
    }
    assert(sql@ =~= base + on_delete_clause(field_str(params@, "on_delete"@)));
    Ok(single_statement(sql))
}

pub fn get_create_foreign_key_sql(id: JsonValue, params: &JsonValue) -> (r: JsonValue)
    ensures
        r@ == respond_spec(id@, create_foreign_key_request(params@)),
{
    respond(id, create_foreign_key_result(params))
}

/// The statement `drop_index` runs.
pub fn drop_index_sql(params: &JsonValue) -> (r: Result<String, PluginError>)
    ensures
        res_view(r) == drop_index_spec(params@),
{
    let schema = opt_str(params, "schema");
    let index_name = match req_str(params, "index_name") {
        Ok(n) => n,
        Err(e) => return Err(e),
    };
    let mut sql = string_of("DROP INDEX ");
    let q = qualify(as_opt_str(&schema), index_name.as_str());
    push_str(&mut sql, q.as_str());
    Ok(sql)
}

/// The statement `drop_foreign_key` runs.
pub fn drop_foreign_key_sql(params: &JsonValue) -> (r: Result<String, PluginError>)
    ensures
        res_view(r) == drop_foreign_key_spec(params@),
{
    let schema = opt_str(params, "schema");
    let table = match req_str(params, "table") {
        Ok(t) => t,
        Err(e) => return Err(e),
    };
    let keys: [&str; 2] = ["fk_name", "constraint_name"];
    let constraint = match req_str_any(params, &keys) {
        Ok(c) => c,
        Err(e) => return Err(e),
    };
    let mut sql = string_of("ALTER TABLE ");
    let q = qualify(as_opt_str(&schema), table.as_str());
    push_str(&mut sql, q.as_str());
    push_str(&mut sql, " DROP CONSTRAINT ");
    let qc = quote(constraint.as_str());
    push_str(&mut sql, qc.as_str());
    Ok(sql)
}

/// Nullability is re-declared only when it changes: the MODIFY statement
/// ends in ` NULL)` or ` NOT NULL)` exactly when the old definition states
/// a nullability that differs from the new one, since Oracle rejects
/// re-declaring the current one (ORA-01442/ORA-01451).
pub proof fn lemma_nullability_only_on_change(
    schema: Option<Seq<char>>,
    table: Seq<char>,
    old: Option<Json>,
    new: Json,
)
    requires
        field_str(new, "name"@) is Some,
    ensures
        ({
            let stmts = alter_column_spec(schema, table, old, new)->Ok_0;
            let base = "ALTER TABLE "@ + qualify_spec(schema, table) + " MODIFY ("@ + modify_base(
                field_str(new, "name"@)->0,
                new,
            );
            &&& alter_column_spec(schema, table, old, new) is Ok
            &&& old_nullable(old) == Some(!nullable_spec(new)) ==> stmts.last() == base + (if nullable_spec(new) {
                " NULL)"@
            } else {
                " NOT NULL)"@
            })
            &&& old_nullable(old) != Some(!nullable_spec(new)) ==> stmts.last() == base + ")"@
        }),
{
    let name = field_str(new, "name"@)->0;
    let base = "ALTER TABLE "@ + qualify_spec(schema, table) + " MODIFY ("@ + modify_base(
        name,
        new,
    );
    let stmts = alter_column_spec(schema, table, old, new)->Ok_0;
    assert(stmts.last() == base + nullability_clause(old, new) + ")"@);
    if old_nullable(old) == Some(!nullable_spec(new)) {
        if nullable_spec(new) {
            assert(base + " NULL"@ + ")"@ =~= base + " NULL)"@) by {
                reveal_strlit(" NULL");
                reveal_strlit(")");
                reveal_strlit(" NULL)");
            }
        } else {
            assert(base + " NOT NULL"@ + ")"@ =~= base + " NOT NULL)"@) by {
                reveal_strlit(" NOT NULL");
                reveal_strlit(")");
                reveal_strlit(" NOT NULL)");
            }
        }
    } else {
        assert(nullability_clause(old, new) == Seq::<char>::empty());
        assert(base + Seq::<char>::empty() + ")"@ =~= base + ")"@);
    }
}

/// A default value that names a SQL expression (its trimmed text, in
/// upper case, is NULL, SYSDATE, SYSTIMESTAMP, CURRENT_DATE,
/// CURRENT_TIMESTAMP, LOCALTIMESTAMP or SYS_GUID(), or ends in .NEXTVAL),
/// and a numeric literal, render as the trimmed text, unquoted; any other
/// default renders as a string literal.
pub proof fn lemma_render_default(value: Seq<char>)
    ensures
        ({
            let u = upper(trim(value));
            let unquoted = u == "NULL"@ || u == "SYSDATE"@ || u == "SYSTIMESTAMP"@ || u
                == "CURRENT_DATE"@ || u == "CURRENT_TIMESTAMP"@ || u == "LOCALTIMESTAMP"@ || u
                == "SYS_GUID()"@ || ".NEXTVAL"@.is_suffix_of(u) || numeric_literal(trim(value));
            &&& unquoted ==> render_default_spec(value) == trim(value)
            &&& !unquoted ==> render_default_spec(value) == quote_literal_spec(value)
        }),
{
}

/// The index statement of a successful `get_create_index_sql` is the one
/// item of the result; it starts with `CREATE UNIQUE INDEX ` exactly when
/// `is_unique` is the JSON boolean true, and with `CREATE INDEX ` otherwise.
pub proof fn lemma_create_index_unique(params: Json)
    ensures
        create_index_request(params) is Ok ==> {
            let out = create_index_request(params)->Ok_0;
            &&& out is Array
            &&& out->Array_0.len() == 1
            &&& out->Array_0[0] is Str
            &&& (params.get("is_unique"@) == Some(Json::Bool(true)))
                == "CREATE UNIQUE INDEX "@.is_prefix_of(out->Array_0[0]->Str_0)
            &&& params.get("is_unique"@) != Some(Json::Bool(true)) ==> "CREATE INDEX "@.is_prefix_of(
                out->Array_0[0]->Str_0,
            )
        },
{
    reveal_strlit("CREATE ");
    reveal_strlit("UNIQUE ");
    reveal_strlit("INDEX ");
    reveal_strlit("CREATE UNIQUE INDEX ");
    reveal_strlit("CREATE INDEX ");
    if create_index_request(params) is Ok {
        let out = create_index_request(params)->Ok_0;
        let sql = out->Array_0[0]->Str_0;
        let unique: Seq<char> = if def_bool_spec(params, "is_unique"@) {
            "UNIQUE "@
        } else {
            seq![]
        };
        let rest = sql.subrange(("CREATE "@ + unique + "INDEX "@).len() as int, sql.len() as int);
        assert(sql =~= "CREATE "@ + unique + "INDEX "@ + rest);
        if def_bool_spec(params, "is_unique"@) {
            assert(sql.subrange(0, 20) =~= "CREATE UNIQUE INDEX "@);
        } else {
            assert(sql.subrange(0, 13) =~= "CREATE INDEX "@);
            assert(sql[7] != "CREATE UNIQUE INDEX "@[7]);
        }
    }
}

/// The statement of a successful `get_create_foreign_key_sql` is the one
/// item of the result; it ends in ` ON DELETE CASCADE` when `on_delete`
/// upper-cases to CASCADE, in ` ON DELETE SET NULL` when it upper-cases to
/// SET NULL, and otherwise in the referenced column's closing `)`, with no
/// ON DELETE clause.
pub proof fn lemma_create_foreign_key_on_delete(params: Json)
    ensures
        create_foreign_key_request(params) is Ok ==> {
            let out = create_foreign_key_request(params)->Ok_0;
            let sql = out->Array_0[0]->Str_0;
            &&& out is Array
            &&& out->Array_0.len() == 1
            &&& out->Array_0[0] is Str
            &&& match field_str(params, "on_delete"@) {
                Some(d) => {
                    &&& upper(d) == "CASCADE"@ ==> " ON DELETE CASCADE"@.is_suffix_of(sql)
                    &&& upper(d) == "SET NULL"@ ==> " ON DELETE SET NULL"@.is_suffix_of(sql)
                    &&& upper(d) != "CASCADE"@ && upper(d) != "SET NULL"@ ==> ")"@.is_suffix_of(sql)
                },
                None => ")"@.is_suffix_of(sql),
            }
        },
{
    reveal_strlit(")");
    reveal_strlit("CASCADE");
    reveal_strlit("SET NULL");
    assert("CASCADE"@ != "SET NULL"@) by {
        assert("CASCADE"@[0] != "SET NULL"@[0]);
    }
    if create_foreign_key_request(params) is Ok {
        let out = create_foreign_key_request(params)->Ok_0;
        let sql = out->Array_0[0]->Str_0;
        let schema = field_str(params, "schema"@);
        let table = req_str_spec(params, "table"@)->Ok_0;
        let column = req_str_any_spec(params, seq!["column", "column_name"])->Ok_0;
        let ref_table = req_str_any_spec(params, seq!["ref_table", "referenced_table"])->Ok_0;
        let ref_column = req_str_any_spec(params, seq!["ref_column", "referenced_column"])->Ok_0;
        let head = "ALTER TABLE "@ + qualify_spec(schema, table) + " ADD CONSTRAINT "@ + quote_spec(
            fk_name_spec(params, table, column),
        ) + " FOREIGN KEY ("@ + quote_spec(column) + ") REFERENCES "@ + qualify_spec(
            schema,
            ref_table,
        ) + " ("@ + quote_spec(ref_column);
        let clause = on_delete_clause(field_str(params, "on_delete"@));
        assert(out->Array_0 =~= seq![Json::Str(head + ")"@ + clause)]);
        assert(sql == head + ")"@ + clause);
        if clause.len() == 0 {
            assert(sql =~= head + ")"@);
            assert(sql.subrange(sql.len() - 1, sql.len() as int) =~= ")"@);
        } else {
            assert(sql.subrange(sql.len() - clause.len(), sql.len() as int) =~= clause);
            assert(clause.is_suffix_of(sql));
        }
        assert(out is Array);
        assert(out->Array_0.len() == 1);
        match field_str(params, "on_delete"@) {
            Some(d) => {
                assert(upper(d) == "CASCADE"@ ==> " ON DELETE CASCADE"@.is_suffix_of(sql));
                assert(upper(d) == "SET NULL"@ ==> " ON DELETE SET NULL"@.is_suffix_of(sql));
                if upper(d) != "CASCADE"@ && upper(d) != "SET NULL"@ {
                    assert(clause =~= Seq::<char>::empty());
                    assert(sql =~= head + ")"@);
                    assert(sql.subrange(sql.len() - 1, sql.len() as int) =~= ")"@);
                    assert(")"@.is_suffix_of(sql));
                }
            },
            None => {
                assert(")"@.is_suffix_of(sql));
            },
        }
    }
}

/// A column definition with a name renders as the quoted name, a space
/// and its data type (`data_type`, or `VARCHAR2(255)` when it names none);
/// then ` GENERATED BY DEFAULT AS IDENTITY` when `is_auto_increment` is
/// true, else ` DEFAULT ` and the rendered default when `default_value` is
/// given; then ` NOT NULL` exactly when `is_nullable` is false. A
/// definition without a name is refused with INVALID_PARAMS.
pub proof fn lemma_column_fragment(def: Json)
    ensures
        field_str(def, "name"@) is None ==> column_spec_spec(def) == Err::<Seq<char>, (i64, Seq<char>)>(
            (INVALID_PARAMS, "column definition needs a 'name'"@),
        ),
        field_str(def, "name"@) is Some ==> {
            let ty = match field_str(def, "data_type"@) {
                Some(t) => t,
                None => "VARCHAR2(255)"@,
            };
            let middle = if def.get("is_auto_increment"@) == Some(Json::Bool(true)) {
                " GENERATED BY DEFAULT AS IDENTITY"@
            } else {
                match field_str(def, "default_value"@) {
                    Some(d) => " DEFAULT "@ + render_default_spec(d),
                    None => seq![],
                }
            };
            let tail = if def.get("is_nullable"@) == Some(Json::Bool(false)) {
                " NOT NULL"@
            } else {
                seq![]
            };
            column_spec_spec(def) == Ok::<Seq<char>, (i64, Seq<char>)>(
                quote_spec(field_str(def, "name"@)->0) + " "@ + ty + middle + tail,
            )
        },
{
}

/// The constraint of `get_create_foreign_key_sql` is named by `fk_name`,
/// else by `constraint_name`, else `FK_<table>_<column>`.
pub proof fn lemma_foreign_key_name(params: Json, table: Seq<char>, column: Seq<char>)
    ensures
        field_str(params, "fk_name"@) is Some ==> fk_name_spec(params, table, column) == field_str(
            params,
            "fk_name"@,
        )->0,
        field_str(params, "fk_name"@) is None && field_str(params, "constraint_name"@) is Some
            ==> fk_name_spec(params, table, column) == field_str(params, "constraint_name"@)->0,
        field_str(params, "fk_name"@) is None && field_str(params, "constraint_name"@) is None
            ==> fk_name_spec(params, table, column) == "FK_"@ + table + "_"@ + column,
{
}

/// The column lines of a table: one line per definition, in order, each
/// the definition's fragment indented by two spaces, when every definition
/// has a name; otherwise the refusal of a definition without a name.
pub proof fn lemma_column_lines(defs: Seq<Json>)
    ensures
        column_lines(defs) is Ok <==> forall|i: int|
            0 <= i < defs.len() ==> (#[trigger] field_str(defs[i], "name"@)) is Some,
        column_lines(defs) is Ok ==> {
            &&& column_lines(defs)->Ok_0.len() == defs.len()
            &&& forall|i: int|
                0 <= i < defs.len() ==> #[trigger] column_lines(defs)->Ok_0[i] == "  "@
                    + column_spec_spec(defs[i])->Ok_0
        },
        column_lines(defs) is Err ==> column_lines(defs) == Err::<Seq<Seq<char>>, (i64, Seq<char>)>(
            (INVALID_PARAMS, no_name_msg()),
        ),
    decreases defs.len(),
{
    if defs.len() > 0 {
        let init = defs.drop_last();
        lemma_column_lines(init);
        assert forall|i: int| 0 <= i < init.len() implies init[i] == defs[i] by {}
        if column_lines(defs) is Ok {
            assert forall|i: int| 0 <= i < defs.len() implies (#[trigger] field_str(defs[i], "name"@)) is Some by {
                if i < init.len() {
                    assert(init[i] == defs[i]);
                    assert(field_str(init[i], "name"@) is Some);
                }
            }
        } else {
            if forall|i: int| 0 <= i < defs.len() ==> (#[trigger] field_str(defs[i], "name"@)) is Some {
                assert forall|i: int| 0 <= i < init.len() implies (#[trigger] field_str(init[i], "name"@)) is Some by {
                    assert(init[i] == defs[i]);
                    assert(field_str(defs[i], "name"@) is Some);
                }
                assert(field_str(defs[defs.len() - 1], "name"@) is Some);
                assert(false);
            }
        }
    }
}

/// The primary key of a table lists the quoted names of the definitions
/// whose `is_pk` is true, in order: there is one exactly when some named
/// definition has `is_pk` true, and each listed name is such a
/// definition's.
pub proof fn lemma_pk_names(defs: Seq<Json>)
    ensures
        pk_names(defs).len() > 0 <==> exists|i: int|
            0 <= i < defs.len() && (#[trigger] defs[i]).get("is_pk"@) == Some(Json::Bool(true))
                && field_str(defs[i], "name"@) is Some,
        forall|k: int|
            0 <= k < pk_names(defs).len() ==> exists|i: int|
                0 <= i < defs.len() && (#[trigger] defs[i]).get("is_pk"@) == Some(Json::Bool(true))
                    && field_str(defs[i], "name"@) is Some && #[trigger] pk_names(defs)[k]
                    == quote_spec(field_str(defs[i], "name"@)->0),
    decreases defs.len(),
{
    if defs.len() > 0 {
        let init = defs.drop_last();
        let last = defs.len() - 1;
        lemma_pk_names(init);
        assert forall|i: int| 0 <= i < init.len() implies init[i] == defs[i] by {}
        if pk_names(defs).len() > 0 {
            if pk_names(init).len() > 0 {
                let i = choose|i: int|
                    0 <= i < init.len() && (#[trigger] init[i]).get("is_pk"@) == Some(Json::Bool(true))
                        && field_str(init[i], "name"@) is Some;
                assert(defs[i] == init[i]);
            } else {
                assert(defs[last].get("is_pk"@) == Some(Json::Bool(true)));
            }
        }
        if exists|i: int|
            0 <= i < defs.len() && (#[trigger] defs[i]).get("is_pk"@) == Some(Json::Bool(true))
                && field_str(defs[i], "name"@) is Some {
            let i = choose|i: int|
                0 <= i < defs.len() && (#[trigger] defs[i]).get("is_pk"@) == Some(Json::Bool(true))
                    && field_str(defs[i], "name"@) is Some;
            if i < last {
                assert(init[i] == defs[i]);
            }
        }
        assert forall|k: int| 0 <= k < pk_names(defs).len() implies exists|i: int|
            0 <= i < defs.len() && (#[trigger] defs[i]).get("is_pk"@) == Some(Json::Bool(true))
                && field_str(defs[i], "name"@) is Some && #[trigger] pk_names(defs)[k]
                == quote_spec(field_str(defs[i], "name"@)->0) by {
            if k < pk_names(init).len() {
                assert(pk_names(defs)[k] == pk_names(init)[k]);
                let i = choose|i: int|
                    0 <= i < init.len() && (#[trigger] init[i]).get("is_pk"@) == Some(Json::Bool(true))
                        && field_str(init[i], "name"@) is Some && #[trigger] pk_names(init)[k]
                        == quote_spec(field_str(init[i], "name"@)->0);
                assert(defs[i] == init[i]);
            } else {
                assert(defs[last].get("is_pk"@) == Some(Json::Bool(true)));
            }
        }
    }
}

/// `CREATE TABLE` lists the column lines, then, when some definition is a
/// key, a `PK_<table>` primary-key constraint over the key columns; a
/// table without definitions is refused.
pub proof fn lemma_create_table(schema: Option<Seq<char>>, table: Seq<char>, defs: Seq<Json>)
    ensures
        defs.len() == 0 ==> create_table_spec(schema, table, defs) == Err::<Seq<char>, (i64, Seq<char>)>(
            (INVALID_PARAMS, "table definition needs at least one column"@),
        ),
        create_table_spec(schema, table, defs) is Ok ==> {
            let lines = column_lines(defs)->Ok_0;
            let head = "CREATE TABLE "@ + qualify_spec(schema, table) + " (\n"@;
            let has_key = exists|i: int|
                0 <= i < defs.len() && (#[trigger] defs[i]).get("is_pk"@) == Some(Json::Bool(true))
                    && field_str(defs[i], "name"@) is Some;
            &&& column_lines(defs) is Ok
            &&& !has_key ==> create_table_spec(schema, table, defs)->Ok_0 == head + join(lines, ",\n"@)
                + "\n)"@
            &&& has_key ==> create_table_spec(schema, table, defs)->Ok_0 == head + join(
                lines.push(
                    "  CONSTRAINT "@ + quote_spec("PK_"@ + table) + " PRIMARY KEY ("@ + join(
                        pk_names(defs),
                        ", "@,
                    ) + ")"@,
                ),
                ",\n"@,
            ) + "\n)"@
        },
{
    lemma_pk_names(defs);
}

/// Altering a named column gives the MODIFY statement last, preceded by
/// `ALTER TABLE .. RENAME COLUMN "OLD" TO "NEW"` exactly when the old
/// definition names the column differently; a new definition without a
/// name is refused.
pub proof fn lemma_alter_column_rename(
    schema: Option<Seq<char>>,
    table: Seq<char>,
    old: Option<Json>,
    new: Json,
)
    ensures
        field_str(new, "name"@) is None ==> alter_column_spec(schema, table, old, new) == Err::<
            Seq<Seq<char>>,
            (i64, Seq<char>),
        >((INVALID_PARAMS, "column definition needs a 'name'"@)),
        field_str(new, "name"@) is Some ==> {
            let name = field_str(new, "name"@)->0;
            let qualified = qualify_spec(schema, table);
            let stmts = alter_column_spec(schema, table, old, new)->Ok_0;
            let renamed = old is Some && field_str(old->0, "name"@) is Some && field_str(
                old->0,
                "name"@,
            )->0 != name;
            &&& alter_column_spec(schema, table, old, new) is Ok
            &&& renamed ==> stmts.len() == 2 && stmts[0] == "ALTER TABLE "@ + qualified
                + " RENAME COLUMN "@ + quote_spec(field_str(old->0, "name"@)->0) + " TO "@ + quote_spec(
                name,
            )
            &&& !renamed ==> stmts.len() == 1
            &&& "ALTER TABLE "@.is_prefix_of(stmts.last())
        },
{
    if field_str(new, "name"@) is Some {
        let name = field_str(new, "name"@)->0;
        let qualified = qualify_spec(schema, table);
        let stmts = alter_column_spec(schema, table, old, new)->Ok_0;
        let last = "ALTER TABLE "@ + qualified + " MODIFY ("@ + modify_base(name, new)
            + nullability_clause(old, new) + ")"@;
        assert(stmts.last() == last);
        assert(last.subrange(0, "ALTER TABLE "@.len() as int) =~= "ALTER TABLE "@);
    }
}

/// An index lists the non-empty string items of its `columns`, quoted, in
/// order: every listed column is such an item, and when all items are
/// non-empty strings, all of them are listed.
pub proof fn lemma_index_columns(items: Seq<Json>)
    ensures
        index_columns(items).len() <= items.len(),
        forall|k: int|
            0 <= k < index_columns(items).len() ==> exists|i: int|
                0 <= i < items.len() && (#[trigger] items[i]) is Str && items[i]->Str_0.len() > 0
                    && #[trigger] index_columns(items)[k] == quote_spec(items[i]->Str_0),
        (forall|i: int| 0 <= i < items.len() ==> (#[trigger] items[i]) is Str && items[i]->Str_0.len()
            > 0) ==> index_columns(items) == items.map_values(|c: Json| quote_spec(c->Str_0)),
    decreases items.len(),
{
    if items.len() > 0 {
        let init = items.drop_last();
        let last = items.len() - 1;
        lemma_index_columns(init);
        assert forall|i: int| 0 <= i < init.len() implies init[i] == items[i] by {}
        assert forall|k: int| 0 <= k < index_columns(items).len() implies exists|i: int|
            0 <= i < items.len() && (#[trigger] items[i]) is Str && items[i]->Str_0.len() > 0
                && #[trigger] index_columns(items)[k] == quote_spec(items[i]->Str_0) by {
            if k < index_columns(init).len() {
                assert(index_columns(items)[k] == index_columns(init)[k]);
                let i = choose|i: int|
                    0 <= i < init.len() && (#[trigger] init[i]) is Str && init[i]->Str_0.len() > 0
                        && #[trigger] index_columns(init)[k] == quote_spec(init[i]->Str_0);
                assert(items[i] == init[i]);
            } else {
                assert(items[last] is Str);
            }
        }
        if forall|i: int| 0 <= i < items.len() ==> (#[trigger] items[i]) is Str && items[i]->Str_0.len() > 0 {
            assert forall|i: int| 0 <= i < init.len() implies (#[trigger] init[i]) is Str
                && init[i]->Str_0.len() > 0 by {
                assert(items[i] == init[i]);
                assert(items[i] is Str);
            }
            assert(items[last] is Str);
            assert(items.map_values(|c: Json| quote_spec(c->Str_0)) =~= init.map_values(
                |c: Json| quote_spec(c->Str_0),
            ).push(quote_spec(items[last]->Str_0)));
        }
    }
}

/// Adding a column issues one `ALTER TABLE .. ADD (..)` of the column's
/// fragment; dropping an index issues `DROP INDEX` of the index qualified by
/// the schema; dropping a foreign key issues `ALTER TABLE .. DROP
/// CONSTRAINT` of the quoted constraint (`fk_name`, else
/// `constraint_name`).
pub proof fn lemma_add_and_drop_statements(params: Json)
    ensures
        add_column_request(params) is Ok ==> {
            &&& req_str_spec(params, "table"@) is Ok
            &&& params.get("column"@) is Some
            &&& column_spec_spec(params.get("column"@)->0) is Ok
            &&& add_column_request(params)->Ok_0 == Json::Array(
                seq![
                    Json::Str(
                        "ALTER TABLE "@ + qualify_spec(
                            field_str(params, "schema"@),
                            req_str_spec(params, "table"@)->Ok_0,
                        ) + " ADD ("@ + column_spec_spec(params.get("column"@)->0)->Ok_0 + ")"@,
                    ),
                ],
            )
        },
        drop_index_spec(params) is Ok ==> drop_index_spec(params)->Ok_0 == "DROP INDEX "@
            + qualify_spec(field_str(params, "schema"@), field_str(params, "index_name"@)->0),
        drop_index_spec(params) is Ok <==> field_str(params, "index_name"@) is Some,
        drop_foreign_key_spec(params) is Ok ==> drop_foreign_key_spec(params)->Ok_0 == "ALTER TABLE "@
            + qualify_spec(field_str(params, "schema"@), field_str(params, "table"@)->0)
            + " DROP CONSTRAINT "@ + quote_spec(
            if field_str(params, "fk_name"@) is Some {
                field_str(params, "fk_name"@)->0
            } else {
                field_str(params, "constraint_name"@)->0
            },
        ),
{
    reveal_with_fuel(crate::handlers::any_field, 3);
    if add_column_request(params) is Ok {
        let def = params.get("column"@)->0;
        let sql = "ALTER TABLE "@ + qualify_spec(
            field_str(params, "schema"@),
            req_str_spec(params, "table"@)->Ok_0,
        ) + " ADD ("@ + column_spec_spec(def)->Ok_0 + ")"@;
        assert(seq![sql].map_values(|s: Seq<char>| Json::Str(s)) =~= seq![Json::Str(sql)]);
    }
    if drop_foreign_key_spec(params) is Ok {
        let keys: Seq<&str> = seq!["fk_name", "constraint_name"];
        assert(keys.drop_first()[0] == "constraint_name");
        assert(keys.drop_first().drop_first().len() == 0);
    }
}

} // verus!
