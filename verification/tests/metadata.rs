use oracle_plugin::client::QueryResult;
use oracle_plugin::error::PluginError;
use oracle_plugin::handlers::metadata::{
    alter_view_sql, batch, column_groups, columns_next, columns_sql, columns_start, ColumnsAction,
    ColumnsState, create_view_sql, database_names,
    drop_view_sql, foreign_key_groups, format_data_type, index_entries, is_char_type,
    named_entries, owner_binds, parameter_entries, pk_columns_sql, primary_key_columns,
    requested_tables, routine_definition, routine_entries, snapshot, strings_in_column,
    take_group, view_definition,
};
use oracle_plugin::json::JsonValue;

fn s(x: &str) -> JsonValue {
    JsonValue::String(x.to_string())
}

fn n(x: i64) -> JsonValue {
    JsonValue::from_i64(x)
}

fn obj(entries: Vec<(&str, JsonValue)>) -> JsonValue {
    JsonValue::Object(entries.into_iter().map(|(k, v)| (k.to_string(), v)).collect())
}

fn result(rows: Vec<Vec<JsonValue>>) -> QueryResult {
    QueryResult { columns: vec![], rows, affected: 0 }
}

#[test]
fn formats_data_types() {
    assert_eq!(format_data_type("NUMBER", 0, 22, &n(10), &n(2)), "NUMBER(10,2)");
    assert_eq!(format_data_type("NUMBER", 0, 22, &n(10), &n(0)), "NUMBER(10)");
    assert_eq!(format_data_type("NUMBER", 0, 22, &JsonValue::Null, &JsonValue::Null), "NUMBER");
    assert_eq!(format_data_type("VARCHAR2", 255, 255, &JsonValue::Null, &JsonValue::Null), "VARCHAR2(255)");
    assert_eq!(format_data_type("RAW", 0, 2000, &JsonValue::Null, &JsonValue::Null), "RAW(2000)");
    assert_eq!(format_data_type("TIMESTAMP(6)", 0, 11, &JsonValue::Null, &n(6)), "TIMESTAMP(6)");
    assert_eq!(format_data_type("DATE", 0, 7, &JsonValue::Null, &JsonValue::Null), "DATE");
    assert_eq!(format_data_type("FLOAT", 0, 22, &n(126), &JsonValue::Null), "FLOAT(126)");
}

#[test]
fn precision_may_arrive_as_text() {
    assert_eq!(format_data_type("NUMBER", 0, 22, &s("38"), &s("-2")), "NUMBER(38,-2)");
    assert_eq!(format_data_type("NUMBER", 0, 22, &s("x"), &n(2)), "NUMBER");
    assert_eq!(format_data_type("NCHAR", 0, 2, &JsonValue::Null, &JsonValue::Null), "NCHAR");
    assert_eq!(format_data_type("RAW", 0, 0, &JsonValue::Null, &JsonValue::Null), "RAW");
}

#[test]
fn char_types_detected() {
    assert!(is_char_type("VARCHAR2"));
    assert!(is_char_type("NCHAR"));
    assert!(!is_char_type("NUMBER"));
    assert!(!is_char_type("CLOB"));
}

#[test]
fn catalog_queries() {
    assert!(pk_columns_sql(true).ends_with("AND k.constraint_type = 'P' AND k.table_name = :2"));
    assert!(pk_columns_sql(false).ends_with("AND k.constraint_type = 'P'"));
    let with = columns_sql(true, false);
    assert!(with.contains("c.data_default, c.identity_column FROM all_tab_columns c WHERE c.owner = :1 ORDER BY"));
    let without = columns_sql(false, true);
    assert!(without.contains("c.data_default, 'NO' FROM all_tab_columns c WHERE c.owner = :1 AND c.table_name = :2 ORDER BY c.table_name, c.column_id"));
    assert_eq!(owner_binds("HR", Some("T")), vec![s("HR"), s("T")]);
    assert_eq!(owner_binds("HR", None), vec![s("HR")]);
}

fn column_row(table: &str, name: &str, ty: &str, char_len: i64, nullable: &str, default: JsonValue, identity: &str) -> Vec<JsonValue> {
    vec![s(table), s(name), s(ty), n(char_len), n(char_len), JsonValue::Null, JsonValue::Null, s(nullable), default, s(identity)]
}

#[test]
fn column_rows_become_table_columns() {
    let rows = result(vec![
        column_row("T", "ID", "NUMBER", 0, "N", JsonValue::Null, "YES"),
        column_row("T", "NAME", "VARCHAR2", 50, "Y", s("  'x'  "), "NO"),
        column_row("U", "ID", "DATE", 0, "Y", s("   "), "NO"),
    ]);
    let pks = primary_key_columns(&result(vec![vec![s("T"), s("ID")], vec![s("V")], vec![JsonValue::Null, s("X")]]));
    assert_eq!(pks, vec![("T".to_string(), "ID".to_string())]);
    let mut grouped = column_groups(&rows, &pks);
    let t = take_group(&mut grouped, "T");
    assert_eq!(t.len(), 2);
    assert_eq!(t[0], obj(vec![
        ("name", s("ID")),
        ("data_type", s("NUMBER")),
        ("is_pk", JsonValue::Bool(true)),
        ("is_nullable", JsonValue::Bool(false)),
        ("is_auto_increment", JsonValue::Bool(true)),
        ("default_value", JsonValue::Null),
        ("character_maximum_length", JsonValue::Null),
    ]));
    assert_eq!(t[1], obj(vec![
        ("name", s("NAME")),
        ("data_type", s("VARCHAR2(50)")),
        ("is_pk", JsonValue::Bool(false)),
        ("is_nullable", JsonValue::Bool(true)),
        ("is_auto_increment", JsonValue::Bool(false)),
        ("default_value", s("'x'")),
        ("character_maximum_length", n(50)),
    ]));
    // Taking a table's entries removes them.
    assert!(take_group(&mut grouped, "T").is_empty());
    let u = take_group(&mut grouped, "U");
    assert_eq!(u[0].get("is_pk"), Some(&JsonValue::Bool(false)));
    assert_eq!(u[0].get("default_value"), Some(&JsonValue::Null));
    assert!(grouped.is_empty());
}

#[test]
fn foreign_keys_have_no_on_update() {
    let rows = result(vec![vec![s("O"), s("FK1"), s("C"), s("P"), s("ID"), s("CASCADE")]]);
    let mut grouped = foreign_key_groups(&rows);
    let fks = take_group(&mut grouped, "O");
    assert_eq!(fks, vec![obj(vec![
        ("name", s("FK1")),
        ("column_name", s("C")),
        ("ref_table", s("P")),
        ("ref_column", s("ID")),
        ("on_delete", s("CASCADE")),
        ("on_update", JsonValue::Null),
    ])]);
}

#[test]
fn snapshot_and_batch_give_each_table_its_entries_once() {
    let columns = vec![
        ("A".to_string(), s("a1")),
        ("B".to_string(), s("b1")),
        ("A".to_string(), s("a2")),
    ];
    let fks = vec![("B".to_string(), s("fk"))];
    let names = vec!["A".to_string(), "B".to_string(), "A".to_string(), "C".to_string()];
    let snap = snapshot(&names, columns, fks);
    let expected = JsonValue::Array(vec![
        obj(vec![("name", s("A")), ("columns", JsonValue::Array(vec![s("a1"), s("a2")])), ("foreign_keys", JsonValue::Array(vec![]))]),
        obj(vec![("name", s("B")), ("columns", JsonValue::Array(vec![s("b1")])), ("foreign_keys", JsonValue::Array(vec![s("fk")]))]),
        obj(vec![("name", s("A")), ("columns", JsonValue::Array(vec![])), ("foreign_keys", JsonValue::Array(vec![]))]),
        obj(vec![("name", s("C")), ("columns", JsonValue::Array(vec![])), ("foreign_keys", JsonValue::Array(vec![]))]),
    ]);
    assert_eq!(snap, expected);

    let grouped = vec![("A".to_string(), s("a1")), ("B".to_string(), s("b1"))];
    let tables = vec!["B".to_string(), "B".to_string()];
    let out = batch(&tables, grouped);
    // The second entry for B is empty; as a map, the last entry wins.
    assert_eq!(out, obj(vec![("B", JsonValue::Array(vec![s("b1")])), ("B", JsonValue::Array(vec![]))]));
    assert_eq!(out.get("B"), Some(&JsonValue::Array(vec![])));
}

#[test]
fn batch_tables_come_from_the_request() {
    let params = obj(vec![("tables", JsonValue::Array(vec![s("A"), n(1), s("B")]))]);
    assert_eq!(requested_tables(&params), vec!["A".to_string(), "B".to_string()]);
    assert!(requested_tables(&obj(vec![("tables", s("A"))])).is_empty());
    assert!(requested_tables(&obj(vec![])).is_empty());
}

#[test]
fn indexes_are_flat_entries() {
    let rows = result(vec![
        vec![s("PK_T"), s("UNIQUE"), s("ID"), n(1), n(1)],
        vec![JsonValue::Null, s("UNIQUE"), s("X"), n(1), n(0)],
        vec![s("IX"), s("NONUNIQUE"), s("A"), s("2"), s("0")],
    ]);
    let out = index_entries(&rows);
    assert_eq!(out, JsonValue::Array(vec![
        obj(vec![("name", s("PK_T")), ("column_name", s("ID")), ("is_unique", JsonValue::Bool(true)), ("is_primary", JsonValue::Bool(true)), ("seq_in_index", n(1))]),
        obj(vec![("name", s("IX")), ("column_name", s("A")), ("is_unique", JsonValue::Bool(false)), ("is_primary", JsonValue::Bool(false)), ("seq_in_index", n(2))]),
    ]));
}

#[test]
fn routines_and_parameters() {
    let rows = result(vec![vec![s("P"), s("PROCEDURE")], vec![s("F")]]);
    assert_eq!(routine_entries(&rows), JsonValue::Array(vec![
        obj(vec![("name", s("P")), ("routine_type", s("PROCEDURE")), ("definition", JsonValue::Null)]),
    ]));
    let rows = result(vec![
        vec![s("A"), s("NUMBER"), s("IN/OUT"), n(1)],
        vec![s("B"), s("VARCHAR2"), s("OUT"), n(2)],
    ]);
    assert_eq!(parameter_entries(&rows), JsonValue::Array(vec![
        obj(vec![("name", s("A")), ("data_type", s("NUMBER")), ("mode", s("INOUT")), ("ordinal_position", n(1))]),
        obj(vec![("name", s("B")), ("data_type", s("VARCHAR2")), ("mode", s("OUT")), ("ordinal_position", n(2))]),
    ]));
    let source = result(vec![vec![s("PROCEDURE p AS\n")], vec![JsonValue::Null], vec![s("BEGIN NULL; END;")]]);
    assert_eq!(routine_definition(&source), s("PROCEDURE p AS\nBEGIN NULL; END;"));
}

#[test]
fn names_views_and_databases() {
    let rows = result(vec![vec![s("HR")], vec![n(1)], vec![s("SYS")]]);
    let names = strings_in_column(&rows, 0);
    assert_eq!(names, vec!["HR".to_string(), "SYS".to_string()]);
    assert_eq!(named_entries(&names, false), JsonValue::Array(vec![obj(vec![("name", s("HR"))]), obj(vec![("name", s("SYS"))])]));
    assert_eq!(named_entries(&names, true).as_array().unwrap()[0], obj(vec![("name", s("HR")), ("definition", JsonValue::Null)]));
    assert_eq!(view_definition(Some("  select 1 from dual \n".to_string())), s("select 1 from dual"));
    assert_eq!(view_definition(None), s(""));
    assert_eq!(database_names(None), JsonValue::Array(vec![s("ORACLE")]));
    assert_eq!(database_names(Some("FREEPDB1".to_string())), JsonValue::Array(vec![s("FREEPDB1")]));
}

#[test]
fn view_statements() {
    let params = obj(vec![("name", s("V")), ("definition", s("SELECT 1 FROM dual"))]);
    assert_eq!(create_view_sql("HR", &params).unwrap(), "CREATE VIEW \"HR\".\"V\" AS SELECT 1 FROM dual");
    assert_eq!(alter_view_sql("HR", &params).unwrap(), "CREATE OR REPLACE VIEW \"HR\".\"V\" AS SELECT 1 FROM dual");
    assert_eq!(drop_view_sql("HR", &params).unwrap(), "DROP VIEW \"HR\".\"V\"");
    let e = create_view_sql("HR", &obj(vec![("view_name", s("V"))])).err().unwrap();
    assert_eq!((e.code, e.message), (-32602, "missing 'definition' parameter".to_string()));
    let e = drop_view_sql("HR", &obj(vec![])).err().unwrap();
    assert_eq!(e.message, "missing 'view_name' parameter");
}

fn expect_catalog_query(action: &ColumnsAction, sql: &str, binds: &[JsonValue]) {
    match action {
        ColumnsAction::Query(got, args) => {
            assert_eq!(got, sql);
            assert_eq!(args.as_slice(), binds);
        }
        ColumnsAction::Finish(_) => panic!("expected a catalog query"),
    }
}

fn identity_row(table: &str, name: &str, identity: &str) -> Vec<JsonValue> {
    vec![
        s(table), s(name), s("NUMBER"), n(0), n(22), JsonValue::Null, JsonValue::Null, s("N"),
        JsonValue::Null, s(identity),
    ]
}

#[test]
fn columns_retry_without_identity_on_old_servers() {
    let (state, action) = columns_start("HR", Some("T"));
    expect_catalog_query(&action, &columns_sql(true, true), &[s("HR"), s("T")]);
    let (state, action) = columns_next(
        "HR",
        Some("T"),
        state,
        Err(PluginError::internal("ORA-00904: \"C\".\"IDENTITY_COLUMN\": invalid identifier".to_string())),
    );
    assert!(matches!(state, ColumnsState::WithoutIdentity));
    expect_catalog_query(&action, &columns_sql(false, true), &[s("HR"), s("T")]);
    let (state, action) = columns_next("HR", Some("T"), state, Ok(result(vec![identity_row("T", "ID", "NO")])));
    expect_catalog_query(&action, &pk_columns_sql(true), &[s("HR"), s("T")]);
    let (state, action) = columns_next("HR", Some("T"), state, Ok(result(vec![vec![s("T"), s("ID")]])));
    assert!(matches!(state, ColumnsState::Done));
    let grouped = match action {
        ColumnsAction::Finish(r) => r.ok().unwrap(),
        ColumnsAction::Query(..) => panic!("expected the finish"),
    };
    let expected = column_groups(
        &result(vec![identity_row("T", "ID", "NO")]),
        &vec![("T".to_string(), "ID".to_string())],
    );
    assert_eq!(grouped, expected);
    assert_eq!(grouped[0].1.get("is_pk"), Some(&JsonValue::Bool(true)));
    assert_eq!(grouped[0].1.get("is_auto_increment"), Some(&JsonValue::Bool(false)));
}

#[test]
fn columns_read_keys_right_after_the_identity_query() {
    let (state, _) = columns_start("HR", None);
    let (state, action) = columns_next("HR", None, state, Ok(result(vec![identity_row("A", "ID", "YES")])));
    expect_catalog_query(&action, &pk_columns_sql(false), &[s("HR")]);
    let (_, action) = columns_next("HR", None, state, Ok(result(vec![])));
    match action {
        ColumnsAction::Finish(r) => {
            let grouped = r.ok().unwrap();
            assert_eq!(grouped.len(), 1);
            assert_eq!(grouped[0].0, "A");
            assert_eq!(grouped[0].1.get("is_pk"), Some(&JsonValue::Bool(false)));
            assert_eq!(grouped[0].1.get("is_auto_increment"), Some(&JsonValue::Bool(true)));
        }
        ColumnsAction::Query(..) => panic!("expected the finish"),
    }
}

#[test]
fn columns_report_the_retry_and_key_errors() {
    let (state, _) = columns_start("HR", None);
    let (state, _) = columns_next("HR", None, state, Err(PluginError::internal("first".to_string())));
    let (state, action) = columns_next("HR", None, state, Err(PluginError::internal("second".to_string())));
    assert!(matches!(state, ColumnsState::Done));
    match action {
        ColumnsAction::Finish(r) => assert_eq!(r.err().unwrap().message, "second"),
        ColumnsAction::Query(..) => panic!("expected the finish"),
    }
    let (state, _) = columns_start("HR", None);
    let (state, _) = columns_next("HR", None, state, Ok(result(vec![])));
    let (_, action) = columns_next("HR", None, state, Err(PluginError::internal("keys".to_string())));
    match action {
        ColumnsAction::Finish(r) => assert_eq!(r.err().unwrap().message, "keys"),
        ColumnsAction::Query(..) => panic!("expected the finish"),
    }
}
