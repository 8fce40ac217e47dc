//! The tools that run a statement the caller wrote. Both pass it through the
//! read-only guard first; a refused statement never reaches the session.

use vstd::prelude::*;
use crate::connection::{ArgsView, Connection};
use crate::error::{ToolError, ToolErrorView};
use crate::tools::guard::{is_read_only, read_only};
use crate::tools::run::{start, Progress, ProgressView, Stage};
use crate::tools::schema::single;
use crate::tools::sql::{build_plan, build_query, plan_sql, query_sql};

verus! {

/// The end of a call that the guard refused.
pub open spec fn refused() -> ProgressView {
    ProgressView::Finished(Err(ToolErrorView::RejectedByGuard))
}

/// The start of a caller's query, if the guard lets it pass.
pub open spec fn querying(sql: Seq<char>, max_rows: usize, args: ArgsView, connected: bool)
    -> ProgressView {
    if read_only(sql) {
        single(query_sql(sql), Some(max_rows), args, connected)
    } else {
        refused()
    }
}

/// The start of the display of a statement's plan, if the guard lets the
/// statement pass. All rows of the plan are shown.
pub open spec fn planning(sql: Seq<char>, args: ArgsView, connected: bool) -> ProgressView {
    if read_only(sql) {
        single(plan_sql(sql), None, args, connected)
    } else {
        refused()
    }
}

/// Starts a caller's query, showing at most `max_rows` rows.
pub fn execute_query<S>(conn: &mut Connection<S>, sql: &str, max_rows: usize) -> (r: Progress)
    ensures
        r@ == querying(sql@, max_rows, old(conn).settings()@, old(conn).session() is Some),
        final(conn).settings() == old(conn).settings(),
        final(conn).session() == old(conn).session(),
{
    if !is_read_only(sql) {
        return Progress::Finished(Err(ToolError::RejectedByGuard));
    }
    let wrapped = build_query(sql);
    start(conn, wrapped, Some(max_rows), Stage::Only)
}

/// Starts the display of the plan of a caller's statement.
pub fn query_plan<S>(conn: &mut Connection<S>, sql: &str) -> (r: Progress)
    ensures
        r@ == planning(sql@, old(conn).settings()@, old(conn).session() is Some),
        final(conn).settings() == old(conn).settings(),
        final(conn).session() == old(conn).session(),
{
    if !is_read_only(sql) {
        return Progress::Finished(Err(ToolError::RejectedByGuard));
    }
    let wrapped = build_plan(sql);
    start(conn, wrapped, None, Stage::Only)
}

} // verus!
