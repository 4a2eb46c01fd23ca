use oracle_plugin::utils::identifiers::{qualify, quote, quote_literal};
use oracle_plugin::utils::json_columns::{
    is_unsupported_json_error, json_safe_projection, parse_describe,
};
use oracle_plugin::utils::pagination::offset_for;
use oracle_plugin::utils::sql::{
    first_keyword, is_plsql, is_wrappable, prepare_statement, returns_rows,
};

#[test]
fn quotes_plain_names() {
    assert_eq!(quote("EMPLOYEES"), "\"EMPLOYEES\"");
}

#[test]
fn escapes_embedded_quotes() {
    assert_eq!(quote("a\"b"), "\"a\"\"b\"");
}

#[test]
fn qualifies_with_schema() {
    assert_eq!(qualify(Some("HR"), "EMPLOYEES"), "\"HR\".\"EMPLOYEES\"");
    assert_eq!(qualify(None, "EMPLOYEES"), "\"EMPLOYEES\"");
    assert_eq!(qualify(Some("  "), "T"), "\"T\"");
}

#[test]
fn escapes_string_literals() {
    assert_eq!(quote_literal("O'Brien"), "'O''Brien'");
    assert_eq!(quote_literal("plain"), "'plain'");
}

#[test]
fn quoting_doc_examples() {
    assert_eq!(quote("weird\"name"), "\"weird\"\"name\"");
    assert_eq!(qualify(Some(" HR "), "T"), "\"HR\".\"T\"");
    assert_eq!(quote(""), "\"\"");
    assert_eq!(quote_literal("''"), "''''''");
}

#[test]
fn distinct_names_quote_distinctly() {
    // Quoting is injective: doubling keeps names apart.
    assert_ne!(quote("a\"b"), quote("a\"\"b"));
    assert_ne!(quote_literal("x'"), quote_literal("x''"));
}

#[test]
fn detects_the_json_define_error() {
    assert!(is_unsupported_json_error(
        "oracle error: unsupported Oracle type JSON"
    ));
    assert!(!is_unsupported_json_error(
        "ORA-00942: table or view does not exist"
    ));
    assert!(!is_unsupported_json_error("unsupported Oracle type VECTOR"));
}

#[test]
fn parses_describe_entries() {
    let buf = "2:ID\u{1}1:NAME\u{1}119:META\u{1}";
    assert_eq!(
        parse_describe(buf),
        vec![
            (2, "ID".to_string()),
            (1, "NAME".to_string()),
            (119, "META".to_string()),
        ],
    );
}

#[test]
fn keeps_colons_inside_column_names() {
    // Only the first ':' separates type from name.
    assert_eq!(parse_describe("1:A:B\u{1}"), vec![(1, "A:B".to_string())]);
}

#[test]
fn skips_malformed_entries_and_empty_buffers() {
    assert_eq!(parse_describe(""), vec![]);
    assert_eq!(parse_describe("noseparator\u{1}x:NAME\u{1}"), vec![]);
}

#[test]
fn written_descriptions_parse_back() {
    let cols = vec![
        (2, "ID".to_string()),
        (119, "DOC:JSON".to_string()),
        (0, String::new()),
        (4294967295, "Ünïcode".to_string()),
    ];
    let buf: String = cols.iter().map(|(t, n)| format!("{t}:{n}\u{1}")).collect();
    assert_eq!(parse_describe(&buf), cols);
}

#[test]
fn describe_edge_cases() {
    // A last entry without its terminator still counts; type codes beyond
    // u32 are malformed.
    assert_eq!(parse_describe("2:ID"), vec![(2, "ID".to_string())]);
    assert_eq!(parse_describe("99999999999:X\u{1}1:Y"), vec![(1, "Y".to_string())]);
    assert_eq!(parse_describe("+3:Z\u{1}"), vec![(3, "Z".to_string())]);
    assert_eq!(parse_describe("1:\u{1}"), vec![(1, String::new())]);
}

#[test]
fn no_projection_without_json_columns() {
    assert_eq!(
        json_safe_projection(&[(2, "ID".into()), (1, "NAME".into())]),
        None
    );
}

#[test]
fn serializes_only_json_columns() {
    let cols = vec![
        (2, "ID".to_string()),
        (119, "META".to_string()),
        (1, "Name".to_string()),
    ];
    assert_eq!(
        json_safe_projection(&cols).unwrap(),
        "\"ID\", JSON_SERIALIZE(\"META\" RETURNING CLOB) AS \"META\", \"Name\"",
    );
}

#[test]
fn quotes_hostile_column_names() {
    let cols = vec![(119, "we\"ird".to_string())];
    assert_eq!(
        json_safe_projection(&cols).unwrap(),
        "JSON_SERIALIZE(\"we\"\"ird\" RETURNING CLOB) AS \"we\"\"ird\"",
    );
}

#[test]
fn first_page_has_no_offset() {
    assert_eq!(offset_for(1, 100), 0);
}

#[test]
fn later_pages() {
    assert_eq!(offset_for(3, 25), 50);
    assert_eq!(offset_for(2, 50), 50);
}

#[test]
fn page_zero_is_treated_as_one() {
    assert_eq!(offset_for(0, 10), 0);
}

#[test]
fn offsets_saturate() {
    assert_eq!(offset_for(u64::MAX, 2), u64::MAX);
    assert_eq!(offset_for(4, 0), 0);
    // Consecutive pages start one page apart.
    assert_eq!(offset_for(8, 25) + 25, offset_for(9, 25));
}

#[test]
fn detects_first_keyword_case_insensitively() {
    assert_eq!(first_keyword("  SELECT 1 FROM DUAL"), "select");
    assert_eq!(first_keyword("\nWITH x AS (...)"), "with");
    assert_eq!(first_keyword("(select 1)"), "select");
}

#[test]
fn first_keyword_of_blank_text_is_empty() {
    assert_eq!(first_keyword(""), "");
    assert_eq!(first_keyword("  ((  "), "");
}

#[test]
fn classifies_row_returning_statements() {
    assert!(returns_rows("select * from t"));
    assert!(returns_rows("WITH a AS (select 1 from dual) select * from a"));
    assert!(!returns_rows("insert into t values (1)"));
    assert!(!returns_rows("update t set a = 1"));
    assert!(!returns_rows("create table t (id number)"));
    assert!(!returns_rows("begin null; end;"));
}

#[test]
fn wrappable_statements_are_queries() {
    assert!(is_wrappable("SELECT 1 FROM dual"));
    assert!(!is_wrappable("delete from t"));
}

#[test]
fn detects_plsql_blocks() {
    assert!(is_plsql("BEGIN null; END;"));
    assert!(is_plsql("declare x number; begin null; end;"));
    assert!(is_plsql("CREATE OR REPLACE PROCEDURE p AS BEGIN NULL; END;"));
    assert!(is_plsql("create or replace package body pkg as end;"));
    assert!(is_plsql("CREATE TRIGGER trg BEFORE INSERT ON t BEGIN NULL; END;"));
    assert!(!is_plsql("create table t (id number)"));
    assert!(!is_plsql("select 1 from dual"));
}

#[test]
fn stored_code_kind_follows_create_and_its_modifiers() {
    assert!(is_plsql("CREATE OR REPLACE EDITIONABLE PROCEDURE p AS BEGIN NULL; END;"));
    assert!(is_plsql("create or replace noneditionable package body pkg as end;"));
    assert!(is_plsql("CREATE EDITIONABLE FUNCTION f RETURN NUMBER AS BEGIN RETURN 1; END;"));
    assert!(!is_plsql("create or replace force view v as select 1 from dual"));
    assert!(is_plsql("create or replace type t as object (a number);"));
    assert!(!is_plsql("create global temporary table function_t (a number)"));
    assert!(!is_plsql("create table t (id number, type varchar2(10))"));
    assert_eq!(
        prepare_statement("CREATE OR REPLACE EDITIONABLE PROCEDURE p AS BEGIN NULL; END; "),
        "CREATE OR REPLACE EDITIONABLE PROCEDURE p AS BEGIN NULL; END;"
    );
}

#[test]
fn strips_semicolons_from_sql_but_not_plsql() {
    assert_eq!(prepare_statement("select 1 from dual; "), "select 1 from dual");
    assert_eq!(prepare_statement("select 1 from dual ;;"), "select 1 from dual");
    assert_eq!(
        prepare_statement("BEGIN null; END;"),
        "BEGIN null; END;"
    );
}

#[test]
fn semicolons_and_whitespace_are_stripped_in_any_mix() {
    assert_eq!(prepare_statement("  select 1 from dual ; ;  "), "select 1 from dual");
    assert_eq!(prepare_statement("select 1 from dual; ;"), "select 1 from dual");
    assert_eq!(prepare_statement(";;"), "");
    // A semicolon inside the statement stays.
    assert_eq!(prepare_statement("select ';' from dual;"), "select ';' from dual");
}
