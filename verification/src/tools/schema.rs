//! The tools that read the catalog of the server: its databases, the tables
//! of a database, the columns and keys of a table.

use vstd::prelude::*;
use crate::connection::{ArgsView, Connection};
use crate::text::owned;
use crate::tools::run::{begin, start, Progress, ProgressView, Stage, StageView};
use crate::tools::sql::{
    build_columns, build_foreign_keys, build_list_tables, columns_sql, foreign_keys_sql,
    list_tables_sql, LIST_DATABASES,
};

verus! {

/// The start of a call that runs one statement and returns its text.
pub open spec fn single(sql: Seq<char>, max_rows: Option<usize>, args: ArgsView, connected: bool)
    -> ProgressView {
    begin(sql, max_rows, StageView::Only, args, connected)
}

/// Starts a call that runs `sql` and renders at most `max_rows` rows of its
/// first result set; `None` renders them all.
pub fn query_to_markdown<S>(conn: &mut Connection<S>, sql: &str, max_rows: Option<usize>) -> (r:
    Progress)
    ensures
        r@ == single(sql@, max_rows, old(conn).settings()@, old(conn).session() is Some),
        final(conn).settings() == old(conn).settings(),
        final(conn).session() == old(conn).session(),
{
    start(conn, owned(sql), max_rows, Stage::Only)
}

/// Starts the listing of the server's databases.
pub fn list_databases<S>(conn: &mut Connection<S>) -> (r: Progress)
    ensures
        r@ == single(
            LIST_DATABASES@,
            None,
            old(conn).settings()@,
            old(conn).session() is Some,
        ),
        final(conn).settings() == old(conn).settings(),
        final(conn).session() == old(conn).session(),
{
    query_to_markdown(conn, LIST_DATABASES, None)
}

/// Starts the listing of the tables and views of `database`.
pub fn list_tables<S>(conn: &mut Connection<S>, database: &str) -> (r: Progress)
    ensures
        r@ == single(
            list_tables_sql(database@),
            None,
            old(conn).settings()@,
            old(conn).session() is Some,
        ),
        final(conn).settings() == old(conn).settings(),
        final(conn).session() == old(conn).session(),
{
    let sql = build_list_tables(database);
    start(conn, sql, None, Stage::Only)
}

/// The start of a table description: the statement for the columns runs
/// first, and the one for the foreign keys is kept for after it.
pub open spec fn describing(
    database: Seq<char>,
    schema: Seq<char>,
    table: Seq<char>,
    args: ArgsView,
    connected: bool,
) -> ProgressView {
    begin(
        columns_sql(database, schema, table),
        None,
        StageView::Columns { foreign_keys: foreign_keys_sql(database, schema, table) },
        args,
        connected,
    )
}

/// Starts the description of a table: its columns, then its foreign keys.
pub fn describe_table<S>(conn: &mut Connection<S>, database: &str, schema: &str, table: &str) -> (r:
    Progress)
    ensures
        r@ == describing(
            database@,
            schema@,
            table@,
            old(conn).settings()@,
            old(conn).session() is Some,
        ),
        final(conn).settings() == old(conn).settings(),
        final(conn).session() == old(conn).session(),
{
    let sql = build_columns(database, schema, table);
    let foreign_keys = build_foreign_keys(database, schema, table);
    start(conn, sql, None, Stage::Columns { foreign_keys })
}

} // verus!
