//! The tools that watch the server at work: sessions, blocking, missing
//! indexes, space used, and the server's own description.

use vstd::prelude::*;
use crate::connection::Connection;
use crate::tools::run::{start, Progress, Stage};
use crate::tools::schema::{query_to_markdown, single};
use crate::tools::sql::{
    build_index_usage, build_table_sizes, index_usage_sql, table_sizes_sql, ACTIVE_SESSIONS,
    BLOCKING_CHAINS, SERVER_INFO,
};

verus! {

/// The view of an optional borrowed string.
pub open spec fn opt_str_view(s: Option<&str>) -> Option<Seq<char>> {
    match s {
        Some(t) => Some(t@),
        None => None,
    }
}

/// Starts the snapshot of the user sessions and their requests.
pub fn active_sessions<S>(conn: &mut Connection<S>) -> (r: Progress)
    ensures
        r@ == single(
            ACTIVE_SESSIONS@,
            None,
            old(conn).settings()@,
            old(conn).session() is Some,
        ),
        final(conn).settings() == old(conn).settings(),
        final(conn).session() == old(conn).session(),
{
    query_to_markdown(conn, ACTIVE_SESSIONS, None)
}

/// Starts the listing of the sessions that other sessions block.
pub fn blocking_chains<S>(conn: &mut Connection<S>) -> (r: Progress)
    ensures
        r@ == single(
            BLOCKING_CHAINS@,
            None,
            old(conn).settings()@,
            old(conn).session() is Some,
        ),
        final(conn).settings() == old(conn).settings(),
        final(conn).session() == old(conn).session(),
{
    query_to_markdown(conn, BLOCKING_CHAINS, None)
}

/// Starts the listing of the twenty best missing-index candidates, of one
/// database or of all.
pub fn index_usage<S>(conn: &mut Connection<S>, database: Option<&str>) -> (r: Progress)
    ensures
        r@ == single(
            index_usage_sql(opt_str_view(database)),
            Some(20usize),
            old(conn).settings()@,
            old(conn).session() is Some,
        ),
        final(conn).settings() == old(conn).settings(),
        final(conn).session() == old(conn).session(),
{
    let sql = build_index_usage(database);
    start(conn, sql, Some(20), Stage::Only)
}

/// Starts the listing of the space used by each table of `database`.
pub fn table_sizes<S>(conn: &mut Connection<S>, database: &str) -> (r: Progress)
    ensures
        r@ == single(
            table_sizes_sql(database@),
            None,
            old(conn).settings()@,
            old(conn).session() is Some,
        ),
        final(conn).settings() == old(conn).settings(),
        final(conn).session() == old(conn).session(),
{
    let sql = build_table_sizes(database);
    start(conn, sql, None, Stage::Only)
}

/// Starts the query for the server's version, edition and compatibility
/// level.
pub fn server_info<S>(conn: &mut Connection<S>) -> (r: Progress)
    ensures
        r@ == single(SERVER_INFO@, None, old(conn).settings()@, old(conn).session() is Some),
        final(conn).settings() == old(conn).settings(),
        final(conn).session() == old(conn).session(),
{
    query_to_markdown(conn, SERVER_INFO, None)
}

} // verus!
