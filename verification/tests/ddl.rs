use oracle_plugin::handlers::ddl::{
    build_alter_column_sql, build_create_table_sql, column_spec, drop_foreign_key_sql,
    drop_index_sql, get_add_column_sql, get_alter_column_sql, get_create_foreign_key_sql,
    get_create_index_sql, get_create_table_sql, render_default,
};
use oracle_plugin::json::JsonValue;

fn s(x: &str) -> JsonValue {
    JsonValue::String(x.to_string())
}

fn b(x: bool) -> JsonValue {
    JsonValue::Bool(x)
}

fn obj(entries: Vec<(&str, JsonValue)>) -> JsonValue {
    JsonValue::Object(entries.into_iter().map(|(k, v)| (k.to_string(), v)).collect())
}

fn field<'a>(v: &'a JsonValue, key: &str) -> &'a JsonValue {
    v.get(key).unwrap()
}

fn statements(response: &JsonValue) -> Vec<String> {
    match field(response, "result") {
        JsonValue::Array(items) => items
            .iter()
            .map(|i| i.as_str().unwrap().to_string())
            .collect(),
        other => panic!("not a statement list: {:?}", other),
    }
}

fn error_of(response: &JsonValue) -> (i64, String) {
    let e = field(response, "error");
    (
        field(e, "code").as_i64().unwrap(),
        field(e, "message").as_str().unwrap().to_string(),
    )
}

#[test]
fn create_table_with_pk_and_identity() {
    let columns = vec![
        obj(vec![("name", s("ID")), ("data_type", s("NUMBER")), ("is_nullable", b(false)), ("is_pk", b(true)), ("is_auto_increment", b(true)), ("default_value", JsonValue::Null)]),
        obj(vec![("name", s("NAME")), ("data_type", s("VARCHAR2(100)")), ("is_nullable", b(false)), ("is_pk", b(false)), ("is_auto_increment", b(false)), ("default_value", JsonValue::Null)]),
    ];
    assert_eq!(
        build_create_table_sql(Some("HR"), "PEOPLE", &columns).unwrap(),
        "CREATE TABLE \"HR\".\"PEOPLE\" (\n  \"ID\" NUMBER GENERATED BY DEFAULT AS IDENTITY NOT NULL,\n  \"NAME\" VARCHAR2(100) NOT NULL,\n  CONSTRAINT \"PK_PEOPLE\" PRIMARY KEY (\"ID\")\n)"
    );
}

#[test]
fn create_table_requires_columns() {
    assert!(build_create_table_sql(None, "T", &[]).is_err());
}

#[test]
fn create_table_reports_the_first_bad_column() {
    let columns = vec![
        obj(vec![("name", s("A"))]),
        obj(vec![("data_type", s("NUMBER"))]),
    ];
    let e = build_create_table_sql(None, "T", &columns).err().unwrap();
    assert_eq!(e.code, -32602);
    assert_eq!(e.message, "column definition needs a 'name'");
}

#[test]
fn composite_primary_keys_and_default_types() {
    let columns = vec![
        obj(vec![("name", s("A")), ("is_pk", b(true))]),
        obj(vec![("name", s("B")), ("is_pk", b(true)), ("default_value", s("7"))]),
    ];
    assert_eq!(
        build_create_table_sql(Some(""), "T", &columns).unwrap(),
        "CREATE TABLE \"T\" (\n  \"A\" VARCHAR2(255),\n  \"B\" VARCHAR2(255) DEFAULT 7,\n  CONSTRAINT \"PK_T\" PRIMARY KEY (\"A\", \"B\")\n)"
    );
}

#[test]
fn column_spec_with_default_and_not_null() {
    let col = obj(vec![
        ("name", s("STATUS")), ("data_type", s("VARCHAR2(20)")),
        ("is_nullable", b(false)), ("default_value", s("active")),
    ]);
    assert_eq!(
        column_spec(&col).unwrap(),
        "\"STATUS\" VARCHAR2(20) DEFAULT 'active' NOT NULL"
    );
}

#[test]
fn identity_columns_carry_no_default() {
    let col = obj(vec![("name", s("ID")), ("is_auto_increment", b(true)), ("default_value", s("1"))]);
    assert_eq!(
        column_spec(&col).unwrap(),
        "\"ID\" VARCHAR2(255) GENERATED BY DEFAULT AS IDENTITY"
    );
}

#[test]
fn defaults_pass_expressions_and_quote_strings() {
    assert_eq!(render_default("SYSDATE"), "SYSDATE");
    assert_eq!(render_default("42"), "42");
    assert_eq!(render_default("3.5"), "3.5");
    assert_eq!(render_default("O'Brien"), "'O''Brien'");
    assert_eq!(render_default("active"), "'active'");
}

#[test]
fn default_expressions_in_any_case() {
    assert_eq!(render_default(" sys_guid() "), "sys_guid()");
    assert_eq!(render_default("my_seq.nextval"), "my_seq.nextval");
    assert_eq!(render_default("current_timestamp"), "current_timestamp");
    assert_eq!(render_default("-1e3"), "-1e3");
    assert_eq!(render_default("inf"), "'inf'");
    assert_eq!(render_default("Infinity"), "'Infinity'");
    assert_eq!(render_default("NaN"), "'NaN'");
    assert_eq!(render_default(".5"), ".5");
    assert_eq!(render_default("+2E-3"), "+2E-3");
    assert_eq!(render_default(" x "), "' x '");
    assert_eq!(render_default("1.2.3"), "'1.2.3'");
}

#[test]
fn alter_column_rename_and_retype() {
    let old = obj(vec![("name", s("NAME")), ("data_type", s("VARCHAR2(100)")), ("is_nullable", b(true))]);
    let new = obj(vec![("name", s("FULL_NAME")), ("data_type", s("VARCHAR2(200)")), ("is_nullable", b(true))]);
    let stmts = build_alter_column_sql(Some("HR"), "T", Some(&old), &new).unwrap();
    assert_eq!(
        stmts,
        vec![
            "ALTER TABLE \"HR\".\"T\" RENAME COLUMN \"NAME\" TO \"FULL_NAME\"".to_string(),
            "ALTER TABLE \"HR\".\"T\" MODIFY (\"FULL_NAME\" VARCHAR2(200))".to_string(),
        ]
    );
}

#[test]
fn alter_column_emits_nullability_only_on_change() {
    let old = obj(vec![("name", s("A")), ("data_type", s("NUMBER")), ("is_nullable", b(true))]);
    let new = obj(vec![("name", s("A")), ("data_type", s("NUMBER")), ("is_nullable", b(false))]);
    let stmts = build_alter_column_sql(None, "T", Some(&old), &new).unwrap();
    assert_eq!(stmts, vec!["ALTER TABLE \"T\" MODIFY (\"A\" NUMBER NOT NULL)".to_string()]);

    let unchanged = obj(vec![("name", s("A")), ("data_type", s("NUMBER")), ("is_nullable", b(true))]);
    let stmts =
        build_alter_column_sql(None, "T", Some(&unchanged), &unchanged.duplicate()).unwrap();
    assert_eq!(stmts, vec!["ALTER TABLE \"T\" MODIFY (\"A\" NUMBER)".to_string()]);
}

#[test]
fn alter_column_allows_null_again_and_keeps_defaults() {
    let old = obj(vec![("name", s("A")), ("is_nullable", b(false))]);
    let new = obj(vec![("name", s("A")), ("data_type", s("DATE")), ("default_value", s("SYSDATE"))]);
    let stmts = build_alter_column_sql(None, "T", Some(&old), &new).unwrap();
    assert_eq!(stmts, vec!["ALTER TABLE \"T\" MODIFY (\"A\" DATE DEFAULT SYSDATE NULL)".to_string()]);
    // Without an old definition nothing is known of the old nullability.
    let stmts = build_alter_column_sql(None, "T", None, &new).unwrap();
    assert_eq!(stmts, vec!["ALTER TABLE \"T\" MODIFY (\"A\" DATE DEFAULT SYSDATE)".to_string()]);
    assert!(build_alter_column_sql(None, "T", None, &obj(vec![])).is_err());
}

#[test]
fn create_table_request_and_its_errors() {
    let params = obj(vec![
        ("schema", s("HR")),
        ("table", s("T")),
        ("columns", JsonValue::Array(vec![obj(vec![("name", s("A"))])])),
    ]);
    let r = get_create_table_sql(JsonValue::from_i64(3), &params);
    assert_eq!(statements(&r), vec!["CREATE TABLE \"HR\".\"T\" (\n  \"A\" VARCHAR2(255)\n)".to_string()]);
    assert_eq!(field(&r, "id"), &JsonValue::from_i64(3));
    assert_eq!(field(&r, "jsonrpc"), &s("2.0"));

    let r = get_create_table_sql(JsonValue::Null, &obj(vec![("columns", JsonValue::Array(vec![]))]));
    assert_eq!(error_of(&r), (-32602, "missing 'table_name' parameter".to_string()));
    let r = get_create_table_sql(JsonValue::Null, &obj(vec![("table_name", s("T"))]));
    assert_eq!(error_of(&r), (-32602, "missing 'columns' array".to_string()));
    let r = get_create_table_sql(
        JsonValue::Null,
        &obj(vec![("table_name", s("T")), ("columns", JsonValue::Array(vec![]))]),
    );
    assert_eq!(error_of(&r), (-32602, "table definition needs at least one column".to_string()));
}

#[test]
fn add_and_alter_column_requests() {
    let params = obj(vec![("table", s("T")), ("column", obj(vec![("name", s("C")), ("data_type", s("NUMBER(5)"))]))]);
    let r = get_add_column_sql(JsonValue::Null, &params);
    assert_eq!(statements(&r), vec!["ALTER TABLE \"T\" ADD (\"C\" NUMBER(5))".to_string()]);
    let r = get_add_column_sql(JsonValue::Null, &obj(vec![("table", s("T"))]));
    assert_eq!(error_of(&r), (-32602, "missing 'column' definition".to_string()));

    // `column` stands in for `new_column`.
    let r = get_alter_column_sql(JsonValue::Null, &params);
    assert_eq!(statements(&r), vec!["ALTER TABLE \"T\" MODIFY (\"C\" NUMBER(5))".to_string()]);
    let r = get_alter_column_sql(JsonValue::Null, &obj(vec![("table", s("T"))]));
    assert_eq!(error_of(&r), (-32602, "missing 'new_column' definition".to_string()));
    let r = get_alter_column_sql(JsonValue::Null, &obj(vec![]));
    assert_eq!(error_of(&r), (-32602, "missing 'table' parameter".to_string()));
}

#[test]
fn create_index_requests() {
    let params = obj(vec![
        ("schema", s("HR")),
        ("table", s("T")),
        ("name", s("IX")),
        ("columns", JsonValue::Array(vec![s("A"), s(""), JsonValue::from_i64(1), s("b\"c")])),
        ("is_unique", b(true)),
    ]);
    let r = get_create_index_sql(JsonValue::Null, &params);
    assert_eq!(
        statements(&r),
        vec!["CREATE UNIQUE INDEX \"HR\".\"IX\" ON \"HR\".\"T\" (\"A\", \"b\"\"c\")".to_string()]
    );
    let params = obj(vec![("table", s("T")), ("index_name", s("IX")), ("columns", JsonValue::Array(vec![s("")]))]);
    let r = get_create_index_sql(JsonValue::Null, &params);
    assert_eq!(error_of(&r), (-32602, "index definition needs at least one column".to_string()));
    let r = get_create_index_sql(JsonValue::Null, &obj(vec![("table", s("T"))]));
    assert_eq!(error_of(&r), (-32602, "missing 'index_name' parameter".to_string()));
}

#[test]
fn create_foreign_key_requests() {
    let params = obj(vec![
        ("table", s("ORDERS")),
        ("column_name", s("CUST_ID")),
        ("referenced_table", s("CUSTOMERS")),
        ("ref_column", s("ID")),
        ("on_delete", s("set null")),
    ]);
    let r = get_create_foreign_key_sql(JsonValue::Null, &params);
    assert_eq!(
        statements(&r),
        vec!["ALTER TABLE \"ORDERS\" ADD CONSTRAINT \"FK_ORDERS_CUST_ID\" FOREIGN KEY (\"CUST_ID\") REFERENCES \"CUSTOMERS\" (\"ID\") ON DELETE SET NULL".to_string()]
    );
    let params = obj(vec![
        ("schema", s("S")),
        ("table", s("O")),
        ("column", s("C")),
        ("ref_table", s("P")),
        ("ref_column", s("ID")),
        ("constraint_name", s("FK1")),
        ("on_delete", s("RESTRICT")),
    ]);
    let r = get_create_foreign_key_sql(JsonValue::Null, &params);
    assert_eq!(
        statements(&r),
        vec!["ALTER TABLE \"S\".\"O\" ADD CONSTRAINT \"FK1\" FOREIGN KEY (\"C\") REFERENCES \"S\".\"P\" (\"ID\")".to_string()]
    );
    let r = get_create_foreign_key_sql(JsonValue::Null, &obj(vec![("table", s("O")), ("column", s("C"))]));
    assert_eq!(error_of(&r), (-32602, "missing 'ref_table' parameter".to_string()));
}

#[test]
fn drop_statements() {
    let params = obj(vec![("schema", s("HR")), ("index_name", s("IX"))]);
    assert_eq!(drop_index_sql(&params).unwrap(), "DROP INDEX \"HR\".\"IX\"");
    assert_eq!(drop_index_sql(&obj(vec![])).err().unwrap().message, "missing 'index_name' parameter");
    let params = obj(vec![("table", s("T")), ("constraint_name", s("FK1"))]);
    assert_eq!(drop_foreign_key_sql(&params).unwrap(), "ALTER TABLE \"T\" DROP CONSTRAINT \"FK1\"");
    let e = drop_foreign_key_sql(&obj(vec![("table", s("T"))])).err().unwrap();
    assert_eq!((e.code, e.message), (-32602, "missing 'fk_name' parameter".to_string()));
}
