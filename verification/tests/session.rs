use prowl::connection::{ConnectPlan, Connection};
use prowl::error::{ConnectFailure, ConnectStage, ToolError};
use prowl::tools::run::{Event, Phase, Progress, Request, Run};
use prowl::tools::schema::{describe_table, query_to_markdown};
use prowl::tools::table::ResultTable;
use prowl::Args;

fn args() -> Args {
    Args {
        host: "db.example".to_string(),
        port: 1433,
        user: "sa".to_string(),
        password: "pw".to_string(),
        database: Some("sales".to_string()),
        no_trust_cert: false,
    }
}

fn plan() -> ConnectPlan {
    ConnectPlan {
        host: "db.example".to_string(),
        port: 1433,
        user: "sa".to_string(),
        password: "pw".to_string(),
        trust_cert: true,
        database: Some("sales".to_string()),
        address: "db.example:1433".to_string(),
    }
}

fn failure(stage: ConnectStage, detail: &str) -> ConnectFailure {
    ConnectFailure { stage, detail: detail.to_string() }
}

fn one_cell(name: &str, value: &str) -> ResultTable {
    ResultTable::new(vec![name.to_string()], vec![vec![Some(value.to_string())]]).unwrap()
}

fn pending(progress: Progress) -> (Run, Request) {
    match progress {
        Progress::Pending(run, request) => (run, request),
        Progress::Finished(result) => panic!("finished early: {:?}", result),
    }
}

fn finished(progress: Progress) -> Result<String, ToolError> {
    match progress {
        Progress::Finished(result) => result,
        Progress::Pending(_, request) => panic!("still pending: {:?}", request),
    }
}

#[test]
fn new_connection_holds_no_session() {
    let mut conn: Connection<u32> = Connection::new(args());
    assert!(!conn.is_connected());
    assert_eq!(conn.get_client().unwrap_err(), plan());
    assert!(!conn.is_connected());
}

#[test]
fn plan_follows_the_settings() {
    let mut settings = args();
    settings.no_trust_cert = true;
    settings.database = None;
    settings.port = 0;
    settings.host = "::1".to_string();
    let conn: Connection<u32> = Connection::new(settings);
    let plan = conn.connect_plan();
    assert!(!plan.trust_cert);
    assert_eq!(plan.database, None);
    assert_eq!(plan.address, "::1:0");
    assert_eq!(plan.user, "sa");
    assert_eq!(plan.password, "pw");
    let conn: Connection<u32> = Connection::new(Args { port: 65535, ..args() });
    assert_eq!(conn.connect_plan().address, "db.example:65535");
}

#[test]
fn connect_keeps_the_session() {
    let mut conn: Connection<u32> = Connection::new(args());
    assert_eq!(conn.connect(Ok(7)), Ok(()));
    assert!(conn.is_connected());
    assert_eq!(*conn.get_client().unwrap(), 7);
    *conn.get_client().unwrap() = 8;
    assert_eq!(*conn.get_client().unwrap(), 8);
    assert_eq!(conn.connect(Ok(9)), Ok(()));
    assert_eq!(*conn.get_client().unwrap(), 9);
}

#[test]
fn failed_connect_reports_its_stage() {
    let mut conn: Connection<u32> = Connection::new(args());
    assert_eq!(
        conn.connect(Err(failure(ConnectStage::Tcp, "refused"))),
        Err("TCP connection failed: refused".to_string())
    );
    assert_eq!(
        conn.connect(Err(failure(ConnectStage::NoDelay, "nope"))),
        Err("set_nodelay failed: nope".to_string())
    );
    assert_eq!(
        conn.connect(Err(failure(ConnectStage::Handshake, "login failed"))),
        Err("TDS connection failed: login failed".to_string())
    );
    assert!(!conn.is_connected());
    assert_eq!(conn.connect(Ok(1)), Ok(()));
    assert!(conn.connect(Err(failure(ConnectStage::Tcp, "x"))).is_err());
    assert!(conn.is_connected());
}

#[test]
fn reconnect_discards_a_healthy_session() {
    let mut conn: Connection<u32> = Connection::new(args());
    assert_eq!(conn.connect(Ok(1)), Ok(()));
    assert_eq!(conn.reconnect(), plan());
    assert!(!conn.is_connected());
}

#[test]
fn connected_call_executes_at_once() {
    let mut conn: Connection<u32> = Connection::new(args());
    conn.connect(Ok(1)).unwrap();
    let (run, request) = pending(query_to_markdown(&mut conn, "SELECT 1", Some(5)));
    assert_eq!(request, Request::Execute("SELECT 1".to_string()));
    assert_eq!(run.phase(), Phase::Executing);
    assert_eq!(run.sql(), "SELECT 1");
    assert_eq!(run.max_rows(), Some(5));
    assert_eq!(run.request(&conn), Request::Execute("SELECT 1".to_string()));
    let result = finished(run.step(&mut conn, Event::Rows(one_cell("x", "1"))));
    assert_eq!(result, Ok("| x |\n| --- |\n| 1 |\n".to_string()));
    assert_eq!(*conn.get_client().unwrap(), 1);
}

#[test]
fn first_call_connects_then_executes() {
    let mut conn: Connection<u32> = Connection::new(args());
    let (run, request) = pending(query_to_markdown(&mut conn, "SELECT 1", None));
    assert_eq!(request, Request::Connect(plan()));
    assert_eq!(run.phase(), Phase::Acquiring);
    let (run, request) = pending(run.step(&mut conn, Event::Connected(42)));
    assert_eq!(request, Request::Execute("SELECT 1".to_string()));
    assert_eq!(run.phase(), Phase::Executing);
    assert_eq!(*conn.get_client().unwrap(), 42);
    let empty = ResultTable::new(vec![], vec![]).unwrap();
    assert_eq!(finished(run.step(&mut conn, Event::Rows(empty))), Ok("(no results)".to_string()));
}

#[test]
fn reconnect_after_one_failure_proceeds() {
    let mut conn: Connection<u32> = Connection::new(args());
    let (run, _) = pending(query_to_markdown(&mut conn, "SELECT 1", None));
    let (run, request) =
        pending(run.step(&mut conn, Event::ConnectFailed(failure(ConnectStage::Tcp, "down"))));
    assert_eq!(request, Request::Connect(plan()));
    assert_eq!(run.phase(), Phase::Reconnecting);
    assert!(!conn.is_connected());
    let (run, request) = pending(run.step(&mut conn, Event::Connected(2)));
    assert_eq!(request, Request::Execute("SELECT 1".to_string()));
    assert_eq!(*conn.get_client().unwrap(), 2);
    let result = finished(run.step(&mut conn, Event::Rows(one_cell("a", "b"))));
    assert_eq!(result, Ok("| a |\n| --- |\n| b |\n".to_string()));
}

#[test]
fn two_failures_end_the_call() {
    let mut conn: Connection<u32> = Connection::new(args());
    let (run, _) = pending(query_to_markdown(&mut conn, "SELECT 1", None));
    let (run, _) =
        pending(run.step(&mut conn, Event::ConnectFailed(failure(ConnectStage::Tcp, "first"))));
    let result = finished(
        run.step(&mut conn, Event::ConnectFailed(failure(ConnectStage::Handshake, "second"))),
    );
    assert_eq!(result, Err(ToolError::Connection("TDS connection failed: second".to_string())));
    assert!(!conn.is_connected());
}

#[test]
fn statement_failures_are_not_retried() {
    let mut conn: Connection<u32> = Connection::new(args());
    conn.connect(Ok(1)).unwrap();
    let (run, _) = pending(query_to_markdown(&mut conn, "SELECT x", None));
    let result = finished(run.step(&mut conn, Event::QueryFailed("Invalid column".to_string())));
    assert_eq!(result, Err(ToolError::Query("Invalid column".to_string())));
    assert_eq!(result.unwrap_err().message(), "Query error: Invalid column");
    let (run, _) = pending(query_to_markdown(&mut conn, "SELECT x", None));
    let result = finished(run.step(&mut conn, Event::ResultFailed("broken pipe".to_string())));
    assert_eq!(result.unwrap_err().message(), "Result error: broken pipe");
    assert!(conn.is_connected());
}

#[test]
fn stray_events_repeat_the_request() {
    let mut conn: Connection<u32> = Connection::new(args());
    let (run, _) = pending(query_to_markdown(&mut conn, "SELECT 1", None));
    let (run, request) = pending(run.step(&mut conn, Event::Rows(one_cell("a", "b"))));
    assert_eq!(request, Request::Connect(plan()));
    assert_eq!(run.phase(), Phase::Acquiring);
    let (run, request) = pending(run.step(&mut conn, Event::QueryFailed("x".to_string())));
    assert_eq!(request, Request::Connect(plan()));
    let (run, _) = pending(run.step(&mut conn, Event::Connected(1)));
    let (run, request) = pending(run.step(&mut conn, Event::Connected(2)));
    assert_eq!(request, Request::Execute("SELECT 1".to_string()));
    assert_eq!(*conn.get_client().unwrap(), 1);
    let (run, request) =
        pending(run.step(&mut conn, Event::ConnectFailed(failure(ConnectStage::Tcp, "x"))));
    assert_eq!(request, Request::Execute("SELECT 1".to_string()));
    assert_eq!(run.phase(), Phase::Executing);
    assert!(conn.is_connected());
}

#[test]
fn describe_table_joins_both_parts() {
    let mut conn: Connection<u32> = Connection::new(args());
    conn.connect(Ok(1)).unwrap();
    let (run, request) = pending(describe_table(&mut conn, "sales", "dbo", "orders"));
    match &request {
        Request::Execute(sql) => assert!(sql.contains("FROM INFORMATION_SCHEMA.COLUMNS c")),
        other => panic!("{:?}", other),
    }
    let (run, request) = pending(run.step(&mut conn, Event::Rows(one_cell("COLUMN_NAME", "id"))));
    match &request {
        Request::Execute(sql) => {
            assert!(sql.contains("FROM sys.foreign_keys fk"));
            assert!(sql.contains("OBJECT_ID('dbo.orders')"));
        }
        other => panic!("{:?}", other),
    }
    assert_eq!(run.max_rows(), None);
    let empty = ResultTable::new(vec![], vec![]).unwrap();
    let result = finished(run.step(&mut conn, Event::Rows(empty)));
    assert_eq!(
        result,
        Ok("## Columns\n\n| COLUMN_NAME |\n| --- |\n| id |\n\n\n## Foreign Keys\n\n(no results)"
            .to_string())
    );
}

#[test]
fn describe_table_aborts_on_foreign_key_failure() {
    let mut conn: Connection<u32> = Connection::new(args());
    conn.connect(Ok(1)).unwrap();
    let (run, _) = pending(describe_table(&mut conn, "sales", "dbo", "orders"));
    let (run, _) = pending(run.step(&mut conn, Event::Rows(one_cell("COLUMN_NAME", "id"))));
    let result = finished(run.step(&mut conn, Event::QueryFailed("no such object".to_string())));
    assert_eq!(result, Err(ToolError::Query("no such object".to_string())));
}

#[test]
fn describe_table_aborts_on_columns_failure() {
    let mut conn: Connection<u32> = Connection::new(args());
    conn.connect(Ok(1)).unwrap();
    let (run, _) = pending(describe_table(&mut conn, "sales", "dbo", "orders"));
    let result = finished(run.step(&mut conn, Event::ResultFailed("cut".to_string())));
    assert_eq!(result, Err(ToolError::Result("cut".to_string())));
}

#[test]
fn describe_table_reconnects_between_parts_if_the_session_is_gone() {
    let mut conn: Connection<u32> = Connection::new(args());
    conn.connect(Ok(1)).unwrap();
    let (run, _) = pending(describe_table(&mut conn, "sales", "dbo", "orders"));
    conn.reconnect();
    let (run, request) = pending(run.step(&mut conn, Event::Rows(one_cell("COLUMN_NAME", "id"))));
    assert_eq!(request, Request::Connect(plan()));
    assert_eq!(run.phase(), Phase::Acquiring);
}
