//! The course of one tool call.
//!
//! A call cannot touch the network itself. It asks for one thing at a time,
//! a connect attempt or the execution of a statement, and is told how that
//! went. `Run::step` decides what follows: the next request, or the call's
//! result.

use vstd::prelude::*;
use crate::connection::{plan_of, ArgsView, ConnectPlan, ConnectPlanView, Connection};
use crate::error::{
    connect_message, ConnectFailure, ConnectFailureView, ToolError, ToolErrorView,
};
use crate::text::owned;
use crate::tools::table::{rendering, ResultTable, TableView};

verus! {

/// What a call is waiting for.
#[derive(Clone, Copy, Debug, PartialEq, Eq, Structural)]
pub enum Phase {
    /// The first connect attempt, made because no session was held.
    Acquiring,
    /// The one further attempt that follows a failed first one.
    Reconnecting,
    /// The execution of the statement.
    Executing,
}

/// What becomes of the text of the statement being run.
#[derive(Debug)]
pub enum Stage {
    /// It is the result of the call.
    Only,
    /// It is the first part of a table description; the statement for the
    /// second part follows.
    Columns { foreign_keys: String },
    /// It is the second part of a table description, after the given first.
    ForeignKeys { columns: String },
}

pub enum StageView {
    Only,
    Columns { foreign_keys: Seq<char> },
    ForeignKeys { columns: Seq<char> },
}

impl View for Stage {
    type V = StageView;

    open spec fn view(&self) -> StageView {
        match self {
            Stage::Only => StageView::Only,
            Stage::Columns { foreign_keys } => StageView::Columns { foreign_keys: foreign_keys@ },
            Stage::ForeignKeys { columns } => StageView::ForeignKeys { columns: columns@ },
        }
    }
}

/// A call under way.
#[derive(Debug)]
pub struct Run {
    sql: String,
    max_rows: Option<usize>,
    phase: Phase,
    stage: Stage,
}

pub struct RunView {
    pub sql: Seq<char>,
    pub max_rows: Option<usize>,
    pub phase: Phase,
    pub stage: StageView,
}

impl View for Run {
    type V = RunView;

    closed spec fn view(&self) -> RunView {
        RunView { sql: self.sql@, max_rows: self.max_rows, phase: self.phase, stage: self.stage@ }
    }
}

/// What a call asks its driver to do.
#[derive(Debug, PartialEq, Eq)]
pub enum Request {
    /// Make a connect attempt with these settings.
    Connect(ConnectPlan),
    /// Execute this statement on the session, without parameters, and read its
    /// first result set.
    Execute(String),
}

pub enum RequestView {
    Connect(ConnectPlanView),
    Execute(Seq<char>),
}

impl View for Request {
    type V = RequestView;

    open spec fn view(&self) -> RequestView {
        match self {
            Request::Connect(p) => RequestView::Connect(p@),
            Request::Execute(s) => RequestView::Execute(s@),
        }
    }
}

/// How a request went.
pub enum Event<S> {
    /// The connect attempt gave a session.
    Connected(S),
    /// The connect attempt failed.
    ConnectFailed(ConnectFailure),
    /// The statement ran; this is its first result set.
    Rows(ResultTable),
    /// The statement was refused or failed.
    QueryFailed(String),
    /// The statement ran, but its result set could not be read.
    ResultFailed(String),
}

pub enum EventView<S> {
    Connected(S),
    ConnectFailed(ConnectFailureView),
    Rows(TableView),
    QueryFailed(Seq<char>),
    ResultFailed(Seq<char>),
}

impl<S> View for Event<S> {
    type V = EventView<S>;

    open spec fn view(&self) -> EventView<S> {
        match self {
            Event::Connected(s) => EventView::Connected(*s),
            Event::ConnectFailed(f) => EventView::ConnectFailed(f@),
            Event::Rows(t) => EventView::Rows(t@),
            Event::QueryFailed(m) => EventView::QueryFailed(m@),
            Event::ResultFailed(m) => EventView::ResultFailed(m@),
        }
    }
}

/// Where a call stands: waiting on a request, or finished with its result.
#[derive(Debug)]
pub enum Progress {
    Pending(Run, Request),
    Finished(Result<String, ToolError>),
}

pub enum ProgressView {
    Pending(RunView, RequestView),
    Finished(Result<Seq<char>, ToolErrorView>),
}

impl View for Progress {
    type V = ProgressView;

    open spec fn view(&self) -> ProgressView {
        match self {
            Progress::Pending(run, request) => ProgressView::Pending(run@, request@),
            Progress::Finished(Ok(text)) => ProgressView::Finished(Ok(text@)),
            Progress::Finished(Err(e)) => ProgressView::Finished(Err(e@)),
        }
    }
}

/// The request that a call in the given state waits on.
pub open spec fn pending(run: RunView, args: ArgsView) -> RequestView {
    match run.phase {
        Phase::Executing => RequestView::Execute(run.sql),
        _ => RequestView::Connect(plan_of(args)),
    }
}

/// The start of a statement: it is executed at once where a session is held,
/// and after a connect attempt where none is.
pub open spec fn begin(
    sql: Seq<char>,
    max_rows: Option<usize>,
    stage: StageView,
    args: ArgsView,
    connected: bool,
) -> ProgressView {
    let phase = if connected {
        Phase::Executing
    } else {
        Phase::Acquiring
    };
    let run = RunView { sql, max_rows, phase, stage };
    ProgressView::Pending(run, pending(run, args))
}

/// The text of a table description: the columns under one heading, the
/// foreign keys under another.
pub open spec fn description(columns: Seq<char>, foreign_keys: Seq<char>) -> Seq<char> {
    "## Columns\n\n"@ + columns + "\n\n## Foreign Keys\n\n"@ + foreign_keys
}

/// What follows the result set of the statement being run.
pub open spec fn after_rows(run: RunView, args: ArgsView, connected: bool, table: TableView)
    -> ProgressView {
    let text = rendering(table, run.max_rows);
    match run.stage {
        StageView::Only => ProgressView::Finished(Ok(text)),
        StageView::Columns { foreign_keys } => begin(
            foreign_keys,
            None,
            StageView::ForeignKeys { columns: text },
            args,
            connected,
        ),
        StageView::ForeignKeys { columns } => ProgressView::Finished(
            Ok(description(columns, text)),
        ),
    }
}

/// One step of a call: where it stands, and which session is held, after the
/// given event.
///
/// A session that arrives while the call waits for one is kept and the
/// statement is executed. A first failed attempt discards whatever session is
/// held and asks for one more attempt; a second failure ends the call. A
/// failure of the statement ends the call and is not retried. An event that
/// does not answer the pending request changes nothing, and the request is
/// made again.
pub open spec fn step_spec<S>(
    run: RunView,
    args: ArgsView,
    session: Option<S>,
    event: EventView<S>,
) -> (ProgressView, Option<S>) {
    match (run.phase, event) {
        (Phase::Acquiring, EventView::Connected(s)) | (Phase::Reconnecting, EventView::Connected(s)) => {
            let next = RunView { phase: Phase::Executing, ..run };
            (ProgressView::Pending(next, pending(next, args)), Some(s))
        },
        (Phase::Acquiring, EventView::ConnectFailed(_)) => {
            let next = RunView { phase: Phase::Reconnecting, ..run };
            (ProgressView::Pending(next, pending(next, args)), None)
        },
        (Phase::Reconnecting, EventView::ConnectFailed(f)) => (
            ProgressView::Finished(Err(ToolErrorView::Connection(connect_message(f)))),
            session,
        ),
        (Phase::Executing, EventView::Rows(t)) => (
            after_rows(run, args, session is Some, t),
            session,
        ),
        (Phase::Executing, EventView::QueryFailed(m)) => (
            ProgressView::Finished(Err(ToolErrorView::Query(m))),
            session,
        ),
        (Phase::Executing, EventView::ResultFailed(m)) => (
            ProgressView::Finished(Err(ToolErrorView::Result(m))),
            session,
        ),
        _ => (ProgressView::Pending(run, pending(run, args)), session),
    }
}

/// A first connect attempt that fails is followed by exactly one more. If
/// that one gives a session, the session is kept, the statement is executed
/// on it, and its result set becomes the result of the call.
pub proof fn lemma_reconnect_success<S>(
    run: RunView,
    args: ArgsView,
    session: Option<S>,
    failure: ConnectFailureView,
    fresh: S,
    table: TableView,
)
    requires
        run.phase == Phase::Acquiring,
    ensures
        ({
            let executing = RunView { phase: Phase::Executing, ..run };
            let reconnecting = RunView { phase: Phase::Reconnecting, ..run };
            &&& step_spec(run, args, session, EventView::ConnectFailed(failure)) == (
                ProgressView::Pending(reconnecting, RequestView::Connect(plan_of(args))),
                None::<S>,
            )
            &&& step_spec(reconnecting, args, None, EventView::Connected(fresh)) == (
                ProgressView::Pending(executing, RequestView::Execute(run.sql)),
                Some(fresh),
            )
            &&& step_spec(executing, args, Some(fresh), EventView::<S>::Rows(table)) == (
                after_rows(executing, args, true, table),
                Some(fresh),
            )
            &&& run.stage is Only ==> after_rows(executing, args, true, table)
                == ProgressView::Finished(Ok(rendering(table, run.max_rows)))
        }),
{
}

/// Where the first connect attempt and the one that follows it both fail, the
/// call ends with the second failure as a connection error, and no session is
/// held.
pub proof fn lemma_reconnect_failure<S>(
    run: RunView,
    args: ArgsView,
    session: Option<S>,
    first: ConnectFailureView,
    second: ConnectFailureView,
)
    requires
        run.phase == Phase::Acquiring,
    ensures
        ({
            let (after_first, held) = step_spec(
                run,
                args,
                session,
                EventView::ConnectFailed(first),
            );
            &&& held is None
            &&& after_first is Pending
            &&& step_spec(
                after_first->Pending_0,
                args,
                held,
                EventView::ConnectFailed(second),
            ) == (
                ProgressView::Finished(Err(ToolErrorView::Connection(connect_message(second)))),
                None::<S>,
            )
        }),
{
}

/// A table description whose second statement fails ends with that failure:
/// the text of the columns, though already rendered, is not returned.
pub proof fn lemma_description_aborts<S>(
    run: RunView,
    args: ArgsView,
    session: S,
    columns: TableView,
    message: Seq<char>,
)
    requires
        run.phase == Phase::Executing,
        run.stage is Columns,
    ensures
        ({
            let (second, held) = step_spec(run, args, Some(session), EventView::Rows(columns));
            &&& held == Some(session)
            &&& second matches ProgressView::Pending(next, request)
            &&& request == RequestView::Execute(run.stage->foreign_keys)
            &&& step_spec(next, args, held, EventView::QueryFailed(message)).0
                == ProgressView::Finished(Err(ToolErrorView::Query(message)))
            &&& step_spec(next, args, held, EventView::ResultFailed(message)).0
                == ProgressView::Finished(Err(ToolErrorView::Result(message)))
        }),
{
}

/// A table description whose two statements succeed is the two texts under
/// their headings.
pub proof fn lemma_description_completes<S>(
    run: RunView,
    args: ArgsView,
    session: S,
    columns: TableView,
    foreign_keys: TableView,
)
    requires
        run.phase == Phase::Executing,
        run.stage is Columns,
    ensures
        ({
            let (second, held) = step_spec(run, args, Some(session), EventView::Rows(columns));
            &&& second matches ProgressView::Pending(next, _)
            &&& step_spec(next, args, held, EventView::Rows(foreign_keys)).0
                == ProgressView::Finished(
                Ok(
                    description(
                        rendering(columns, run.max_rows),
                        rendering(foreign_keys, None),
                    ),
                ),
            )
        }),
{
}

/// No step makes a session out of nothing: the session held after a step is
/// the one held before it or the one that the event brought.
pub proof fn lemma_session_origin<S>(
    run: RunView,
    args: ArgsView,
    session: Option<S>,
    event: EventView<S>,
)
    ensures
        ({
            let held = step_spec(run, args, session, event).1;
            held is Some ==> held == session || event == EventView::Connected(held->0)
        }),
{
}

/// A statement that fails is not retried, and a failure to execute leaves the
/// session as it was.
pub proof fn lemma_failure_is_final<S>(
    run: RunView,
    args: ArgsView,
    session: Option<S>,
    message: Seq<char>,
)
    requires
        run.phase == Phase::Executing,
    ensures
        step_spec(run, args, session, EventView::QueryFailed(message)) == (
            ProgressView::Finished(Err(ToolErrorView::Query(message))),
            session,
        ),
        step_spec(run, args, session, EventView::ResultFailed(message)) == (
            ProgressView::Finished(Err(ToolErrorView::Result(message))),
            session,
        ),
{
}

/// A result set without rows, as the only statement of a call, gives the
/// fixed sentence, whatever the row limit.
pub proof fn lemma_no_rows<S>(run: RunView, args: ArgsView, session: Option<S>, table: TableView)
    requires
        run.phase == Phase::Executing,
        run.stage is Only,
        table.rows.len() == 0,
    ensures
        step_spec(run, args, session, EventView::Rows(table)).0 == ProgressView::Finished(
            Ok("(no results)"@),
        ),
{
}

/// Starts a statement on `conn`.
pub fn start<S>(conn: &mut Connection<S>, sql: String, max_rows: Option<usize>, stage: Stage) -> (r:
    Progress)
    ensures
        r@ == begin(sql@, max_rows, stage@, old(conn).settings()@, old(conn).session() is Some),
        final(conn).settings() == old(conn).settings(),
        final(conn).session() == old(conn).session(),
{
    match conn.get_client() {
        Ok(_) => {
            let request = Request::Execute(owned(sql.as_str()));
            Progress::Pending(Run { sql, max_rows, phase: Phase::Executing, stage }, request)
        },
        Err(plan) => Progress::Pending(
            Run { sql, max_rows, phase: Phase::Acquiring, stage },
            Request::Connect(plan),
        ),
    }
}

impl Run {
    /// The statement being run.
    pub fn sql(&self) -> (r: &str)
        ensures
            r@ == self@.sql,
    {
        self.sql.as_str()
    }

    /// The most rows of the statement's result set that are shown.
    pub fn max_rows(&self) -> (r: Option<usize>)
        ensures
            r == self@.max_rows,
    {
        self.max_rows
    }

    /// What the call is waiting for.
    pub fn phase(&self) -> (r: Phase)
        ensures
            r == self@.phase,
    {
        self.phase
    }

    /// The request this call waits on.
    pub fn request<S>(&self, conn: &Connection<S>) -> (r: Request)
        ensures
            r@ == pending(self@, conn.settings()@),
    {
        match self.phase {
            Phase::Executing => Request::Execute(owned(self.sql.as_str())),
            _ => Request::Connect(conn.connect_plan()),
        }
    }

    fn again<S>(self, conn: &Connection<S>) -> (r: Progress)
        ensures
            r@ == ProgressView::Pending(self@, pending(self@, conn.settings()@)),
    {
        let request = self.request(conn);
        Progress::Pending(self, request)
    }

    fn connected<S>(self, conn: &mut Connection<S>, outcome: Result<S, ConnectFailure>) -> (r:
        Progress)
        requires
            self@.phase != Phase::Executing,
        ensures
            (r@, final(conn).session()) == step_spec(
                self@,
                old(conn).settings()@,
                old(conn).session(),
                match outcome {
                    Ok(s) => EventView::Connected(s),
                    Err(f) => EventView::ConnectFailed(f@),
                },
            ),
            final(conn).settings() == old(conn).settings(),
    {
        let Run { sql, max_rows, phase, stage } = self;
        match conn.connect(outcome) {
            Ok(()) => {
                let next = Run { sql, max_rows, phase: Phase::Executing, stage };
                next.again(conn)
            },
            Err(message) => match phase {
                Phase::Acquiring => {
                    let plan = conn.reconnect();
                    Progress::Pending(
                        Run { sql, max_rows, phase: Phase::Reconnecting, stage },
                        Request::Connect(plan),
                    )
                },
                _ => Progress::Finished(Err(ToolError::Connection(message))),
            },
        }
    }

    fn executed<S>(self, conn: &mut Connection<S>, table: ResultTable) -> (r: Progress)
        requires
            self@.phase == Phase::Executing,
        ensures
            r@ == after_rows(
                self@,
                old(conn).settings()@,
                old(conn).session() is Some,
                table@,
            ),
            table@.rows.len() == 0 && self@.stage is Only ==> r@ == ProgressView::Finished(
                Ok("(no results)"@),
            ),
            final(conn).settings() == old(conn).settings(),
            final(conn).session() == old(conn).session(),
    {
        let text = table.render(self.max_rows);
        match self.stage {
            Stage::Only => Progress::Finished(Ok(text)),
            Stage::Columns { foreign_keys } => start(
                conn,
                foreign_keys,
                None,
                Stage::ForeignKeys { columns: text },
            ),
            Stage::ForeignKeys { columns } => {
                let mut out = owned("## Columns\n\n");
                out.append(columns.as_str());
                out.append("\n\n## Foreign Keys\n\n");
                out.append(text.as_str());
                assert(out@ =~= description(columns@, text@));
                Progress::Finished(Ok(out))
            },
        }
    }

    /// Takes the call one step further; see [`step_spec`].
    pub fn step<S>(self, conn: &mut Connection<S>, event: Event<S>) -> (r: Progress)
        ensures
            (r@, final(conn).session()) == step_spec(
                self@,
                old(conn).settings()@,
                old(conn).session(),
                event@,
            ),
            final(conn).settings() == old(conn).settings(),
            self@.phase == Phase::Executing && self@.stage is Only && event@ is Rows
                && event@->Rows_0.rows.len() == 0 ==> r@ == ProgressView::Finished(
                Ok("(no results)"@),
            ),
    {
        match self.phase {
            Phase::Executing => match event {
                Event::Rows(table) => self.executed(conn, table),
                Event::QueryFailed(m) => Progress::Finished(Err(ToolError::Query(m))),
                Event::ResultFailed(m) => Progress::Finished(Err(ToolError::Result(m))),
                _ => self.again(conn),
            },
            _ => match event {
                Event::Connected(s) => self.connected(conn, Ok(s)),
                Event::ConnectFailed(f) => self.connected(conn, Err(f)),
                _ => self.again(conn),
            },
        }
    }
}

} // verus!
