use prowl::connection::Connection;
use prowl::error::ToolError;
use prowl::json::{get_text, get_unsigned};
use prowl::tools::run::{Progress, Request, Run};
use prowl::tools::{dispatch, get_str, tool_definitions};
use prowl::tools::catalog::ParamKind;
use prowl::Args;
use serde_json::Value;

fn connected() -> Connection<u32> {
    let mut conn = Connection::new(Args {
        host: "localhost".to_string(),
        port: 1433,
        user: "sa".to_string(),
        password: String::new(),
        database: None,
        no_trust_cert: false,
    });
    conn.connect(Ok(1)).unwrap();
    conn
}

fn object(members: &[(&str, Value)]) -> Value {
    let mut map = serde_json::Map::new();
    for (key, value) in members {
        map.insert(key.to_string(), value.clone());
    }
    Value::Object(map)
}

fn text(s: &str) -> Value {
    Value::String(s.to_string())
}

fn started(progress: Progress) -> (Run, String) {
    match progress {
        Progress::Pending(run, Request::Execute(sql)) => (run, sql),
        other => panic!("{:?}", other),
    }
}

fn failed(progress: Progress) -> ToolError {
    match progress {
        Progress::Finished(Err(e)) => e,
        other => panic!("{:?}", other),
    }
}

#[test]
fn text_arguments_are_read_by_key() {
    let args = object(&[("database", text("sales")), ("n", Value::from(3u64))]);
    assert_eq!(get_text(&args, "database"), Some("sales"));
    assert_eq!(get_text(&args, "table"), None);
    assert_eq!(get_text(&args, "n"), None);
    assert_eq!(get_text(&text("database"), "database"), None);
    assert_eq!(get_text(&Value::Null, "database"), None);
    assert_eq!(get_text(&Value::Array(vec![text("database")]), "database"), None);
}

#[test]
fn unsigned_arguments_are_read_by_key() {
    let args = object(&[
        ("max_rows", Value::from(25u64)),
        ("neg", Value::from(-1i64)),
        ("big", Value::from(u64::MAX)),
        ("word", text("25")),
        ("flag", Value::Bool(true)),
    ]);
    assert_eq!(get_unsigned(&args, "max_rows"), Some(25));
    assert_eq!(get_unsigned(&args, "big"), Some(u64::MAX));
    assert_eq!(get_unsigned(&args, "neg"), None);
    assert_eq!(get_unsigned(&args, "word"), None);
    assert_eq!(get_unsigned(&args, "flag"), None);
    assert_eq!(get_unsigned(&args, "absent"), None);
}

#[test]
fn required_argument_is_named_when_missing() {
    let args = object(&[("table", text("orders"))]);
    assert_eq!(get_str(&args, "table"), Ok("orders"));
    let e = get_str(&args, "database").unwrap_err();
    assert_eq!(e, ToolError::Parameter("database".to_string()));
    assert_eq!(e.message(), "Missing required parameter: database");
}

#[test]
fn tools_without_arguments() {
    let mut conn = connected();
    let none = object(&[]);
    let (_, sql) = started(dispatch("list_databases", &none, &mut conn));
    assert_eq!(sql, "SELECT name FROM sys.databases ORDER BY name");
    let (run, sql) = started(dispatch("active_sessions", &none, &mut conn));
    assert!(sql.starts_with("SELECT s.session_id, s.login_name, s.status, r.command,"));
    assert!(sql.ends_with("WHERE s.is_user_process = 1 ORDER BY s.cpu_time DESC"));
    assert_eq!(run.max_rows(), None);
    let (_, sql) = started(dispatch("blocking_chains", &none, &mut conn));
    assert!(sql.starts_with("SELECT\n    r.session_id AS blocked_session,"));
    assert!(sql.ends_with("ORDER BY r.blocking_session_id, r.session_id"));
    let (_, sql) = started(dispatch("server_info", &Value::Null, &mut conn));
    assert!(sql.starts_with("SELECT\n    @@VERSION AS [version],"));
    assert!(sql.ends_with("WHERE name = DB_NAME()) AS [compatibility_level]"));
}

#[test]
fn list_tables_needs_a_database() {
    let mut conn = connected();
    let (_, sql) = started(dispatch("list_tables", &object(&[("database", text("a]b"))]), &mut conn));
    assert!(sql.starts_with("USE [a]]b]; SELECT TABLE_SCHEMA"));
    let e = failed(dispatch("list_tables", &object(&[]), &mut conn));
    assert_eq!(e, ToolError::Parameter("database".to_string()));
    let e = failed(dispatch("list_tables", &object(&[("database", Value::from(1u64))]), &mut conn));
    assert_eq!(e, ToolError::Parameter("database".to_string()));
}

#[test]
fn describe_table_defaults_the_schema() {
    let mut conn = connected();
    let args = object(&[("database", text("sales")), ("table", text("orders"))]);
    let (_, sql) = started(dispatch("describe_table", &args, &mut conn));
    assert!(sql.contains("WHERE c.TABLE_SCHEMA = 'dbo' AND c.TABLE_NAME = 'orders'"));
    let args = object(&[
        ("database", text("sales")),
        ("schema", text("hr")),
        ("table", text("orders")),
    ]);
    let (_, sql) = started(dispatch("describe_table", &args, &mut conn));
    assert!(sql.contains("WHERE c.TABLE_SCHEMA = 'hr' AND c.TABLE_NAME = 'orders'"));
}

#[test]
fn describe_table_names_the_first_missing_argument() {
    let mut conn = connected();
    let e = failed(dispatch("describe_table", &object(&[]), &mut conn));
    assert_eq!(e, ToolError::Parameter("database".to_string()));
    let e = failed(dispatch("describe_table", &object(&[("database", text("d"))]), &mut conn));
    assert_eq!(e, ToolError::Parameter("table".to_string()));
    let e = failed(dispatch("describe_table", &object(&[("table", text("t"))]), &mut conn));
    assert_eq!(e, ToolError::Parameter("database".to_string()));
}

#[test]
fn query_limits_rows_to_one_hundred_by_default() {
    let mut conn = connected();
    let (run, sql) = started(dispatch("query", &object(&[("sql", text("SELECT 1"))]), &mut conn));
    assert_eq!(sql, "SET TRANSACTION ISOLATION LEVEL READ UNCOMMITTED; SET NOCOUNT ON;\nSELECT 1");
    assert_eq!(run.max_rows(), Some(100));
    let args = object(&[("sql", text("SELECT 1")), ("max_rows", Value::from(7u64))]);
    let (run, _) = started(dispatch("query", &args, &mut conn));
    assert_eq!(run.max_rows(), Some(7));
    let args = object(&[("sql", text("SELECT 1")), ("max_rows", text("7"))]);
    let (run, _) = started(dispatch("query", &args, &mut conn));
    assert_eq!(run.max_rows(), Some(100));
}

#[test]
fn query_is_screened() {
    let mut conn = connected();
    let e = failed(dispatch("query", &object(&[("sql", text("delete from t"))]), &mut conn));
    assert_eq!(e, ToolError::RejectedByGuard);
    assert_eq!(
        e.message(),
        "Write operations are not allowed. Only SELECT and read-only queries are permitted."
    );
    let e = failed(dispatch("query", &object(&[]), &mut conn));
    assert_eq!(e, ToolError::Parameter("sql".to_string()));
}

#[test]
fn query_plan_is_screened_and_unlimited() {
    let mut conn = connected();
    let args = object(&[("sql", text("SELECT 1")), ("max_rows", Value::from(7u64))]);
    let (run, sql) = started(dispatch("query_plan", &args, &mut conn));
    assert_eq!(sql, "SET SHOWPLAN_TEXT ON;\nSELECT 1\nSET SHOWPLAN_TEXT OFF;");
    assert_eq!(run.max_rows(), None);
    let e = failed(dispatch("query_plan", &object(&[("sql", text("DROP TABLE t"))]), &mut conn));
    assert_eq!(e, ToolError::RejectedByGuard);
    let e = failed(dispatch("query_plan", &Value::Null, &mut conn));
    assert_eq!(e, ToolError::Parameter("sql".to_string()));
}

#[test]
fn index_usage_takes_an_optional_database() {
    let mut conn = connected();
    let (run, sql) = started(dispatch("index_usage", &object(&[]), &mut conn));
    assert!(sql.contains("WHERE 1=1 \nORDER BY"));
    assert_eq!(run.max_rows(), Some(20));
    let args = object(&[("database", text("O'Brien"))]);
    let (run, sql) = started(dispatch("index_usage", &args, &mut conn));
    assert!(sql.contains("AND DB_NAME(d.database_id) = 'O''Brien'"));
    assert_eq!(run.max_rows(), Some(20));
}

#[test]
fn table_sizes_needs_a_database() {
    let mut conn = connected();
    let (_, sql) = started(dispatch("table_sizes", &object(&[("database", text("my]db"))]), &mut conn));
    assert!(sql.contains("[my]]db]"));
    let e = failed(dispatch("table_sizes", &object(&[]), &mut conn));
    assert_eq!(e, ToolError::Parameter("database".to_string()));
}

#[test]
fn unknown_tool_is_reported() {
    let mut conn = connected();
    let e = failed(dispatch("drop_everything", &object(&[]), &mut conn));
    assert_eq!(e, ToolError::UnknownTool("drop_everything".to_string()));
    assert_eq!(e.message(), "Unknown tool: drop_everything");
    let e = failed(dispatch("", &object(&[]), &mut conn));
    assert_eq!(e.message(), "Unknown tool: ");
    let e = failed(dispatch("Query", &object(&[("sql", text("SELECT 1"))]), &mut conn));
    assert_eq!(e, ToolError::UnknownTool("Query".to_string()));
}

#[test]
fn dispatch_without_session_asks_to_connect() {
    let mut conn: Connection<u32> = Connection::new(Args {
        host: "h".to_string(),
        port: 1,
        user: "u".to_string(),
        password: "p".to_string(),
        database: None,
        no_trust_cert: true,
    });
    match dispatch("server_info", &Value::Null, &mut conn) {
        Progress::Pending(_, Request::Connect(plan)) => {
            assert_eq!(plan.address, "h:1");
            assert!(!plan.trust_cert);
        }
        other => panic!("{:?}", other),
    }
    assert!(!conn.is_connected());
}

#[test]
fn catalog_lists_ten_tools_in_order() {
    let tools = tool_definitions();
    let names: Vec<&str> = tools.iter().map(|t| t.name.as_str()).collect();
    assert_eq!(
        names,
        vec![
            "list_databases",
            "list_tables",
            "describe_table",
            "query",
            "query_plan",
            "active_sessions",
            "blocking_chains",
            "index_usage",
            "table_sizes",
            "server_info",
        ]
    );
    assert_eq!(tools[0].description, "List all databases on the SQL Server instance");
    assert_eq!(
        tools[6].description,
        "Show blocking chains \u{2014} sessions blocking other sessions"
    );
}

#[test]
fn catalog_marks_required_arguments() {
    let tools = tool_definitions();
    let required = |i: usize| -> Vec<&str> {
        tools[i].params.iter().filter(|p| p.required).map(|p| p.name.as_str()).collect()
    };
    let all = |i: usize| -> Vec<&str> { tools[i].params.iter().map(|p| p.name.as_str()).collect() };
    assert_eq!(all(0), Vec::<&str>::new());
    assert_eq!(required(1), vec!["database"]);
    assert_eq!(all(2), vec!["database", "schema", "table"]);
    assert_eq!(required(2), vec!["database", "table"]);
    assert_eq!(all(3), vec!["sql", "max_rows"]);
    assert_eq!(required(3), vec!["sql"]);
    assert_eq!(tools[3].params[1].kind, ParamKind::Integer);
    assert_eq!(tools[3].params[0].kind, ParamKind::Text);
    assert_eq!(tools[3].params[1].description, "Maximum rows to return (default: 100)");
    assert_eq!(required(4), vec!["sql"]);
    assert_eq!(all(7), vec!["database"]);
    assert_eq!(required(7), Vec::<&str>::new());
    assert_eq!(required(8), vec!["database"]);
    assert_eq!(all(9), Vec::<&str>::new());
}
