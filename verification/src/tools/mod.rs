//! The tool catalog and the routing of a tool call to its statements.

pub mod catalog;
pub mod guard;
pub mod monitor;
pub mod query;
pub mod run;
pub mod schema;
pub mod sql;
pub mod table;

pub use catalog::tool_definitions;
pub use guard::is_read_only;

use serde_json::Value;
use vstd::prelude::*;
use crate::connection::{ArgsView, Connection};
use crate::error::{ToolError, ToolErrorView};
use crate::json::{get_text, get_unsigned, members, text_member, unsigned_member, Members};
use crate::text::{owned, str_eq};
use crate::tools::query::{planning, querying};
use crate::tools::catalog::{catalog, ToolParamView};
use crate::tools::run::{Progress, ProgressView};
use crate::tools::schema::{describing, single};
use crate::tools::sql::{
    index_usage_sql, list_tables_sql, table_sizes_sql, ACTIVE_SESSIONS, BLOCKING_CHAINS,
    LIST_DATABASES, SERVER_INFO,
};

verus! {

/// The end of a call that lacks the required argument `key`.
pub open spec fn missing(key: Seq<char>) -> ProgressView {
    ProgressView::Finished(Err(ToolErrorView::Parameter(key)))
}

/// The schema a table is looked up in: the one given, or `dbo`.
pub open spec fn schema_or_default(args: Members) -> Seq<char> {
    match text_member(args, "schema"@) {
        Some(s) => s,
        None => "dbo"@,
    }
}

/// The number of rows a query shows: the one given, or 100.
pub open spec fn row_limit(args: Members) -> usize {
    match unsigned_member(args, "max_rows"@) {
        Some(n) => n as usize,
        None => 100,
    }
}

/// Where the call of the tool `name` with the arguments `args` stands after
/// routing. A required argument counts as missing when it is absent or is not
/// a string; where two are missing, the first is named. Optional arguments of
/// the wrong kind count as not given.
pub open spec fn routed(name: Seq<char>, args: Members, settings: ArgsView, connected: bool)
    -> ProgressView {
    if name == "list_databases"@ {
        single(LIST_DATABASES@, None, settings, connected)
    } else if name == "list_tables"@ {
        match text_member(args, "database"@) {
            Some(db) => single(list_tables_sql(db), None, settings, connected),
            None => missing("database"@),
        }
    } else if name == "describe_table"@ {
        match text_member(args, "database"@) {
            Some(db) => match text_member(args, "table"@) {
                Some(table) => describing(db, schema_or_default(args), table, settings, connected),
                None => missing("table"@),
            },
            None => missing("database"@),
        }
    } else if name == "query"@ {
        match text_member(args, "sql"@) {
            Some(sql) => querying(sql, row_limit(args), settings, connected),
            None => missing("sql"@),
        }
    } else if name == "query_plan"@ {
        match text_member(args, "sql"@) {
            Some(sql) => planning(sql, settings, connected),
            None => missing("sql"@),
        }
    } else if name == "active_sessions"@ {
        single(ACTIVE_SESSIONS@, None, settings, connected)
    } else if name == "blocking_chains"@ {
        single(BLOCKING_CHAINS@, None, settings, connected)
    } else if name == "index_usage"@ {
        single(
            index_usage_sql(text_member(args, "database"@)),
            Some(20usize),
            settings,
            connected,
        )
    } else if name == "table_sizes"@ {
        match text_member(args, "database"@) {
            Some(db) => single(table_sizes_sql(db), None, settings, connected),
            None => missing("database"@),
        }
    } else if name == "server_info"@ {
        single(SERVER_INFO@, None, settings, connected)
    } else {
        ProgressView::Finished(Err(ToolErrorView::UnknownTool(name)))
    }
}

/// The first required argument, in schema order, that the arguments do not
/// hold as a string.
pub open spec fn first_missing(params: Seq<ToolParamView>, args: Members) -> Option<Seq<char>>
    decreases params.len(),
{
    if params.len() == 0 {
        None
    } else if params[0].required && text_member(args, params[0].name) is None {
        Some(params[0].name)
    } else {
        first_missing(params.drop_first(), args)
    }
}

/// Routing checks the arguments that the catalog requires: the call of a tool
/// of the catalog ends with a parameter error exactly when a required argument
/// is missing, and the error names the first such argument.
pub proof fn lemma_required_arguments(i: int, args: Members, settings: ArgsView, connected: bool)
    requires
        0 <= i < catalog().len(),
    ensures
        match first_missing(catalog()[i].params, args) {
            Some(key) => routed(catalog()[i].name, args, settings, connected) == missing(key),
            None => !(routed(catalog()[i].name, args, settings, connected) matches ProgressView::Finished(
                Err(ToolErrorView::Parameter(_)),
            )),
        },
{
    reveal_strlit("list_databases");
    reveal_strlit("list_tables");
    reveal_strlit("describe_table");
    reveal_strlit("query");
    reveal_strlit("query_plan");
    reveal_strlit("active_sessions");
    reveal_strlit("blocking_chains");
    reveal_strlit("index_usage");
    reveal_strlit("table_sizes");
    reveal_strlit("server_info");
    assert("list_databases"@.len() == 14 && "list_databases"@[0] == 'l');
    assert("list_tables"@.len() == 11 && "list_tables"@[0] == 'l');
    assert("describe_table"@.len() == 14 && "describe_table"@[0] == 'd');
    assert("query"@.len() == 5);
    assert("query_plan"@.len() == 10);
    assert("active_sessions"@.len() == 15 && "active_sessions"@[0] == 'a');
    assert("blocking_chains"@.len() == 15 && "blocking_chains"@[0] == 'b');
    assert("index_usage"@.len() == 11 && "index_usage"@[0] == 'i');
    assert("table_sizes"@.len() == 11 && "table_sizes"@[0] == 't');
    assert("server_info"@.len() == 11 && "server_info"@[0] == 's');
    let params = catalog()[i].params;
    let rest = params.drop_first();
    reveal_with_fuel(first_missing, 4);
    if i == 2 {
        assert(rest.len() == 2 && rest[0] == params[1]);
        assert(rest.drop_first().len() == 1 && rest.drop_first()[0] == params[2]);
        assert(rest.drop_first().drop_first().len() == 0);
    } else if i == 3 {
        assert(rest.len() == 1 && rest[0] == params[1]);
        assert(rest.drop_first().len() == 0);
    } else if params.len() == 1 {
        assert(rest.len() == 0);
    }
}

/// A tool that the catalog does not list is unknown, whatever its arguments.
pub proof fn lemma_unknown_tool(name: Seq<char>, args: Members, settings: ArgsView, connected: bool)
    requires
        forall|i: int| 0 <= i < catalog().len() ==> (#[trigger] catalog()[i]).name != name,
    ensures
        routed(name, args, settings, connected) == ProgressView::Finished(
            Err(ToolErrorView::UnknownTool(name)),
        ),
{
    assert(catalog()[0].name == "list_databases"@);
    assert(catalog()[1].name == "list_tables"@);
    assert(catalog()[2].name == "describe_table"@);
    assert(catalog()[3].name == "query"@);
    assert(catalog()[4].name == "query_plan"@);
    assert(catalog()[5].name == "active_sessions"@);
    assert(catalog()[6].name == "blocking_chains"@);
    assert(catalog()[7].name == "index_usage"@);
    assert(catalog()[8].name == "table_sizes"@);
    assert(catalog()[9].name == "server_info"@);
}

/// Reads the required string argument `key`.
pub fn get_str<'a>(args: &'a Value, key: &str) -> (r: Result<&'a str, ToolError>)
    ensures
        match text_member(members(*args), key@) {
            Some(s) => r is Ok && r->Ok_0@ == s,
            None => r is Err && r->Err_0@ == ToolErrorView::Parameter(key@),
        },
{
    match get_text(args, key) {
        Some(s) => Ok(s),
        None => Err(ToolError::Parameter(owned(key))),
    }
}

/// Routes the call of the tool `tool_name` with `arguments`: checks the
/// required arguments, builds the statement and starts it on `conn`.
pub fn dispatch<S>(tool_name: &str, arguments: &Value, conn: &mut Connection<S>) -> (r: Progress)
    ensures
        r@ == routed(
            tool_name@,
            members(*arguments),
            old(conn).settings()@,
            old(conn).session() is Some,
        ),
        final(conn).settings() == old(conn).settings(),
        final(conn).session() == old(conn).session(),
{
    if str_eq(tool_name, "list_databases") {
        schema::list_databases(conn)
    } else if str_eq(tool_name, "list_tables") {
        match get_str(arguments, "database") {
            Ok(db) => schema::list_tables(conn, db),
            Err(e) => Progress::Finished(Err(e)),
        }
    } else if str_eq(tool_name, "describe_table") {
        match get_str(arguments, "database") {
            Ok(db) => {
                let schema = match get_text(arguments, "schema") {
                    Some(s) => s,
                    None => "dbo",
                };
                match get_str(arguments, "table") {
                    Ok(table) => schema::describe_table(conn, db, schema, table),
                    Err(e) => Progress::Finished(Err(e)),
                }
            },
            Err(e) => Progress::Finished(Err(e)),
        }
    } else if str_eq(tool_name, "query") {
        match get_str(arguments, "sql") {
            Ok(sql) => {
                let max_rows: usize = match get_unsigned(arguments, "max_rows") {
                    Some(n) => #[verifier::truncate]
                    (n as usize),
                    None => 100,
                };
                query::execute_query(conn, sql, max_rows)
            },
            Err(e) => Progress::Finished(Err(e)),
        }
    } else if str_eq(tool_name, "query_plan") {
        match get_str(arguments, "sql") {
            Ok(sql) => query::query_plan(conn, sql),
            Err(e) => Progress::Finished(Err(e)),
        }
    } else if str_eq(tool_name, "active_sessions") {
        monitor::active_sessions(conn)
    } else if str_eq(tool_name, "blocking_chains") {
        monitor::blocking_chains(conn)
    } else if str_eq(tool_name, "index_usage") {
        let db = get_text(arguments, "database");
        monitor::index_usage(conn, db)
    } else if str_eq(tool_name, "table_sizes") {
        match get_str(arguments, "database") {
            Ok(db) => monitor::table_sizes(conn, db),
            Err(e) => Progress::Finished(Err(e)),
        }
    } else if str_eq(tool_name, "server_info") {
        monitor::server_info(conn)
    } else {
        Progress::Finished(Err(ToolError::UnknownTool(owned(tool_name))))
    }
}

} // verus!
