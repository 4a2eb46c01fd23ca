use oracle_plugin::handlers::crud::{
    delete_statement, insert_statement, pk_pairs, pk_where, req_value, update_statement,
};
use oracle_plugin::json::JsonValue;

fn s(x: &str) -> JsonValue {
    JsonValue::String(x.to_string())
}

fn n(x: i64) -> JsonValue {
    JsonValue::from_i64(x)
}

fn obj(entries: Vec<(&str, JsonValue)>) -> JsonValue {
    JsonValue::Object(entries.into_iter().map(|(k, v)| (k.to_string(), v)).collect())
}

#[test]
fn pk_map_takes_precedence_and_supports_composite_keys() {
    let params = obj(vec![("pk_map", obj(vec![("ID", n(42)), ("REGION", s("EU"))]))]);
    let pairs = pk_pairs(&params).unwrap();
    assert_eq!(pairs.len(), 2);

    let mut args = Vec::new();
    let where_clause = pk_where(&pairs, 2, &mut args);
    assert_eq!(where_clause, "\"ID\" = :2 AND \"REGION\" = :3");
    assert_eq!(args, vec![n(42), s("EU")]);
}

#[test]
fn legacy_pk_col_pk_val_still_accepted() {
    let params = obj(vec![("pk_col", s("ID")), ("pk_val", n(7))]);
    let pairs = pk_pairs(&params).unwrap();
    assert_eq!(pairs, vec![("ID".to_string(), n(7))]);
}

#[test]
fn null_key_becomes_is_null_without_bind() {
    let pairs = vec![("A".to_string(), JsonValue::Null), ("B".to_string(), n(1))];
    let mut args = Vec::new();
    let where_clause = pk_where(&pairs, 1, &mut args);
    assert_eq!(where_clause, "\"A\" IS NULL AND \"B\" = :1");
    assert_eq!(args, vec![n(1)]);
}

#[test]
fn missing_both_forms_is_invalid_params() {
    assert!(pk_pairs(&obj(vec![])).is_err());
    assert!(pk_pairs(&obj(vec![("pk_map", obj(vec![]))])).is_err());
}

#[test]
fn pk_errors_name_what_is_missing() {
    let e = pk_pairs(&obj(vec![("pk_map", obj(vec![]))])).err().unwrap();
    assert_eq!((e.code, e.message), (-32602, "'pk_map' object is empty".to_string()));
    let e = pk_pairs(&obj(vec![("pk_col", s("ID"))])).err().unwrap();
    assert_eq!((e.code, e.message), (-32602, "missing 'pk_val' parameter".to_string()));
    // A `pk_map` that is not an object falls back to the legacy pair.
    let e = pk_pairs(&obj(vec![("pk_map", s("x"))])).err().unwrap();
    assert_eq!(e.message, "missing 'pk_col' parameter");
    // A null `pk_val` is present, and binds nothing.
    let pairs = pk_pairs(&obj(vec![("pk_col", s("ID")), ("pk_val", JsonValue::Null)])).unwrap();
    assert_eq!(pairs, vec![("ID".to_string(), JsonValue::Null)]);
    assert!(req_value(&obj(vec![]), "v").is_err());
}

#[test]
fn placeholders_count_only_bound_values() {
    let pairs = vec![
        ("A".to_string(), n(1)),
        ("B".to_string(), JsonValue::Null),
        ("C".to_string(), s("x")),
        ("D\"".to_string(), JsonValue::Null),
        ("E".to_string(), n(5)),
    ];
    let mut args = vec![s("new")];
    let where_clause = pk_where(&pairs, 2, &mut args);
    assert_eq!(
        where_clause,
        "\"A\" = :2 AND \"B\" IS NULL AND \"C\" = :3 AND \"D\"\"\" IS NULL AND \"E\" = :4"
    );
    assert_eq!(args, vec![s("new"), n(1), s("x"), n(5)]);
}

#[test]
fn insert_binds_every_value() {
    let params = obj(vec![
        ("schema", s("HR")),
        ("table", s("T")),
        ("data", obj(vec![("A", n(1)), ("B", JsonValue::Null), ("C", s("x"))])),
    ]);
    let st = insert_statement(&params).ok().unwrap();
    assert_eq!(st.sql, "INSERT INTO \"HR\".\"T\" (\"A\", \"B\", \"C\") VALUES (:1, :2, :3)");
    assert_eq!(st.args, vec![n(1), JsonValue::Null, s("x")]);

    let e = insert_statement(&obj(vec![("table", s("T"))])).err().unwrap();
    assert_eq!((e.code, e.message), (-32602, "missing 'data' object".to_string()));
    let e = insert_statement(&obj(vec![("table", s("T")), ("data", obj(vec![]))])).err().unwrap();
    assert_eq!(e.message, "'data' object is empty");
    let e = insert_statement(&obj(vec![("data", obj(vec![("A", n(1))]))])).err().unwrap();
    assert_eq!(e.message, "missing 'table' parameter");
}

#[test]
fn update_sets_one_column_by_key() {
    let params = obj(vec![
        ("table", s("T")),
        ("col_name", s("NAME")),
        ("new_val", s("Bob")),
        ("pk_map", obj(vec![("ID", n(3)), ("TENANT", JsonValue::Null)])),
    ]);
    let st = update_statement(&params).ok().unwrap();
    assert_eq!(st.sql, "UPDATE \"T\" SET \"NAME\" = :1 WHERE \"ID\" = :2 AND \"TENANT\" IS NULL");
    assert_eq!(st.args, vec![s("Bob"), n(3)]);
    let e = update_statement(&obj(vec![("table", s("T")), ("col_name", s("N"))])).err().unwrap();
    assert_eq!(e.message, "missing 'new_val' parameter");
}

#[test]
fn delete_by_key() {
    let params = obj(vec![("table", s("T")), ("pk_col", s("ID")), ("pk_val", n(9))]);
    let st = delete_statement(&params).ok().unwrap();
    assert_eq!(st.sql, "DELETE FROM \"T\" WHERE \"ID\" = :1");
    assert_eq!(st.args, vec![n(9)]);
}
