use prowl::text::{owned, push_decimal, str_chars, str_eq};
use prowl::tools::sql::{
    build_columns, build_foreign_keys, build_index_usage, build_list_tables, build_plan,
    build_query, build_table_sizes, escape_identifier, escape_literal, push_identifier,
    push_literal,
};

#[test]
fn literal_doubles_quotes() {
    assert_eq!(escape_literal("O'Brien"), "O''Brien");
    assert_eq!(escape_literal("''"), "''''");
    assert_eq!(escape_literal("a]b"), "a]b");
    assert_eq!(escape_literal(""), "");
}

#[test]
fn identifier_doubles_quotes_and_brackets() {
    assert_eq!(escape_identifier("my]db"), "my]]db");
    assert_eq!(escape_identifier("it's]"), "it''s]]");
    assert_eq!(escape_identifier("[plain"), "[plain");
}

#[test]
fn escaping_appends() {
    let mut out = String::from("x=");
    push_literal(&mut out, "a'b");
    push_identifier(&mut out, "]");
    assert_eq!(out, "x=a''b]]");
}

#[test]
fn table_sizes_brackets_the_database() {
    let sql = build_table_sizes("my]db");
    assert!(sql.starts_with("USE [my]]db];\n\nSELECT\n    s.name AS [schema],"));
    assert!(sql.ends_with("ORDER BY SUM(a.total_pages) DESC"));
}

#[test]
fn index_usage_quotes_the_database() {
    let sql = build_index_usage(Some("O'Brien"));
    assert!(sql.contains("WHERE 1=1 AND DB_NAME(d.database_id) = 'O''Brien'\nORDER BY"));
    assert!(sql.starts_with("-- Missing indexes\nSELECT TOP 20\n"));
}

#[test]
fn index_usage_without_database_has_no_filter() {
    let sql = build_index_usage(None);
    assert!(sql.contains("WHERE 1=1 \nORDER BY improvement_measure DESC"));
    assert!(!sql.contains("AND DB_NAME"));
}

#[test]
fn list_tables_statement() {
    assert_eq!(
        build_list_tables("sales"),
        "USE [sales]; SELECT TABLE_SCHEMA, TABLE_NAME, TABLE_TYPE FROM INFORMATION_SCHEMA.TABLES ORDER BY TABLE_SCHEMA, TABLE_NAME"
    );
}

#[test]
fn columns_statement_quotes_schema_and_table() {
    let sql = build_columns("sa]les", "d'bo", "or'ders");
    assert!(sql.starts_with("USE [sa]]les];\n\nSELECT\n    c.COLUMN_NAME,"));
    assert!(sql.ends_with(
        "WHERE c.TABLE_SCHEMA = 'd''bo' AND c.TABLE_NAME = 'or''ders'\nORDER BY c.ORDINAL_POSITION"
    ));
}

#[test]
fn foreign_keys_statement_names_the_table() {
    let sql = build_foreign_keys("sales", "dbo", "orders");
    assert!(sql.starts_with("USE [sales];\n\nSELECT\n    fk.name AS FK_NAME,"));
    assert!(sql.ends_with("WHERE fk.parent_object_id = OBJECT_ID('dbo.orders')\nORDER BY fk.name"));
}

#[test]
fn query_statement_is_prefixed() {
    assert_eq!(
        build_query("SELECT 1"),
        "SET TRANSACTION ISOLATION LEVEL READ UNCOMMITTED; SET NOCOUNT ON;\nSELECT 1"
    );
}

#[test]
fn plan_statement_is_wrapped() {
    assert_eq!(build_plan("SELECT 1"), "SET SHOWPLAN_TEXT ON;\nSELECT 1\nSET SHOWPLAN_TEXT OFF;");
}

#[test]
fn decimal_numerals() {
    for n in [0u64, 7, 9, 10, 99, 100, 150, 1433, 65535, u64::MAX] {
        let mut out = String::from("#");
        push_decimal(&mut out, n);
        assert_eq!(out, format!("#{}", n));
    }
}

#[test]
fn chars_and_equality() {
    assert_eq!(str_chars("a\u{e9}\u{1f431}"), vec!['a', '\u{e9}', '\u{1f431}']);
    assert_eq!(str_chars(""), Vec::<char>::new());
    assert_eq!(owned("abc"), "abc");
    assert!(str_eq("query", "query"));
    assert!(!str_eq("query", "query_plan"));
    assert!(!str_eq("table_sizes", "list_tables"));
    assert!(str_eq("", ""));
}
