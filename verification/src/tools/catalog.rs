//! The ten tools that the server offers, with the arguments each one takes.

use vstd::prelude::*;
use crate::text::owned;

verus! {

/// The JSON type of a tool argument.
#[derive(Clone, Copy, Debug, PartialEq, Eq, Structural)]
pub enum ParamKind {
    Text,
    Integer,
}

/// One argument of a tool.
#[derive(Clone, Debug, PartialEq, Eq)]
pub struct ToolParam {
    pub name: String,
    pub kind: ParamKind,
    pub required: bool,
    pub description: String,
}

/// A tool: its name, what it does, and its arguments in schema order.
#[derive(Clone, Debug, PartialEq, Eq)]
pub struct ToolDefinition {
    pub name: String,
    pub description: String,
    pub params: Vec<ToolParam>,
}

pub struct ToolParamView {
    pub name: Seq<char>,
    pub kind: ParamKind,
    pub required: bool,
    pub description: Seq<char>,
}

pub struct ToolDefinitionView {
    pub name: Seq<char>,
    pub description: Seq<char>,
    pub params: Seq<ToolParamView>,
}

impl View for ToolParam {
    type V = ToolParamView;

    open spec fn view(&self) -> ToolParamView {
        ToolParamView {
            name: self.name@,
            kind: self.kind,
            required: self.required,
            description: self.description@,
        }
    }
}

impl View for ToolDefinition {
    type V = ToolDefinitionView;

    open spec fn view(&self) -> ToolDefinitionView {
        ToolDefinitionView {
            name: self.name@,
            description: self.description@,
            params: self.params@.map_values(|p: ToolParam| p@),
        }
    }
}

/// A text argument.
pub open spec fn text_param(name: &str, required: bool, description: &str) -> ToolParamView {
    ToolParamView { name: name@, kind: ParamKind::Text, required, description: description@ }
}

/// An integer argument.
pub open spec fn integer_param(name: &str, required: bool, description: &str) -> ToolParamView {
    ToolParamView { name: name@, kind: ParamKind::Integer, required, description: description@ }
}

pub open spec fn tool(name: &str, description: &str, params: Seq<ToolParamView>)
    -> ToolDefinitionView {
    ToolDefinitionView { name: name@, description: description@, params }
}

/// The catalog: the tools in the order in which they are listed to a client.
pub open spec fn catalog() -> Seq<ToolDefinitionView> {
    seq![
        tool("list_databases", "List all databases on the SQL Server instance", seq![]),
        tool(
            "list_tables",
            "List all tables in a database",
            seq![text_param("database", true, "Database name")],
        ),
        tool(
            "describe_table",
            "Describe a table's columns, types, nullability, primary keys, and foreign keys",
            seq![
                text_param("database", true, "Database name"),
                text_param("schema", false, "Schema name (default: dbo)"),
                text_param("table", true, "Table name"),
            ],
        ),
        tool(
            "query",
            "Execute a read-only SQL query and return results as a markdown table. Write operations are blocked.",
            seq![
                text_param("sql", true, "SQL query to execute"),
                integer_param("max_rows", false, "Maximum rows to return (default: 100)"),
            ],
        ),
        tool(
            "query_plan",
            "Show the execution plan for a SQL query",
            seq![text_param("sql", true, "SQL query to get execution plan for")],
        ),
        tool("active_sessions", "Show active user sessions on the SQL Server", seq![]),
        tool(
            "blocking_chains",
            "Show blocking chains \u{2014} sessions blocking other sessions",
            seq![],
        ),
        tool(
            "index_usage",
            "Show top unused and missing indexes",
            seq![text_param("database", false, "Database name (optional)")],
        ),
        tool(
            "table_sizes",
            "Show space used per table in a database",
            seq![text_param("database", true, "Database name")],
        ),
        tool("server_info", "Show SQL Server version, edition, and configuration", seq![]),
    ]
}

/// The names of the arguments that a tool cannot do without, in schema order.
pub open spec fn required_names(params: Seq<ToolParamView>) -> Seq<Seq<char>> {
    params.filter(|p: ToolParamView| p.required).map_values(|p: ToolParamView| p.name)
}

fn make_param(name: &str, kind: ParamKind, required: bool, description: &str) -> (r: ToolParam)
    ensures
        r@ == (ToolParamView { name: name@, kind, required, description: description@ }),
{
    ToolParam { name: owned(name), kind, required, description: owned(description) }
}

fn make_tool(name: &str, description: &str, params: Vec<ToolParam>) -> (r: ToolDefinition)
    ensures
        r@ == tool(name, description, params@.map_values(|p: ToolParam| p@)),
{
    ToolDefinition { name: owned(name), description: owned(description), params }
}

/// The views of a list of tools.
pub open spec fn views(tools: Seq<ToolDefinition>) -> Seq<ToolDefinitionView> {
    tools.map_values(|d: ToolDefinition| d@)
}

/// Builds the catalog.
pub fn tool_definitions() -> (r: Vec<ToolDefinition>)
    ensures
        views(r@) == catalog(),
{
    let none: Vec<ToolParam> = Vec::new();
    let list_databases = make_tool(
        "list_databases",
        "List all databases on the SQL Server instance",
        none,
    );
    let p = vec![make_param("database", ParamKind::Text, true, "Database name")];
    assert(p@.map_values(|p: ToolParam| p@) =~= seq![
        text_param("database", true, "Database name"),
    ]);
    let list_tables = make_tool("list_tables", "List all tables in a database", p);
    let p = vec![
        make_param("database", ParamKind::Text, true, "Database name"),
        make_param("schema", ParamKind::Text, false, "Schema name (default: dbo)"),
        make_param("table", ParamKind::Text, true, "Table name"),
    ];
    assert(p@.map_values(|p: ToolParam| p@) =~= seq![
        text_param("database", true, "Database name"),
        text_param("schema", false, "Schema name (default: dbo)"),
        text_param("table", true, "Table name"),
    ]);
    let describe_table = make_tool(
        "describe_table",
        "Describe a table's columns, types, nullability, primary keys, and foreign keys",
        p,
    );
    let p = vec![
        make_param("sql", ParamKind::Text, true, "SQL query to execute"),
        make_param("max_rows", ParamKind::Integer, false, "Maximum rows to return (default: 100)"),
    ];
    assert(p@.map_values(|p: ToolParam| p@) =~= seq![
        text_param("sql", true, "SQL query to execute"),
        integer_param("max_rows", false, "Maximum rows to return (default: 100)"),
    ]);
    let query = make_tool(
        "query",
        "Execute a read-only SQL query and return results as a markdown table. Write operations are blocked.",
        p,
    );
    let p = vec![make_param("sql", ParamKind::Text, true, "SQL query to get execution plan for")];
    assert(p@.map_values(|p: ToolParam| p@) =~= seq![
        text_param("sql", true, "SQL query to get execution plan for"),
    ]);
    let query_plan = make_tool("query_plan", "Show the execution plan for a SQL query", p);
    let none: Vec<ToolParam> = Vec::new();
    let active_sessions = make_tool(
        "active_sessions",
        "Show active user sessions on the SQL Server",
        none,
    );
    let none: Vec<ToolParam> = Vec::new();
    let blocking_chains = make_tool(
        "blocking_chains",
        "Show blocking chains \u{2014} sessions blocking other sessions",
        none,
    );
    let p = vec![make_param("database", ParamKind::Text, false, "Database name (optional)")];
    assert(p@.map_values(|p: ToolParam| p@) =~= seq![
        text_param("database", false, "Database name (optional)"),
    ]);
    let index_usage = make_tool("index_usage", "Show top unused and missing indexes", p);
    let p = vec![make_param("database", ParamKind::Text, true, "Database name")];
    assert(p@.map_values(|p: ToolParam| p@) =~= seq![
        text_param("database", true, "Database name"),
    ]);
    let table_sizes = make_tool("table_sizes", "Show space used per table in a database", p);
    let none: Vec<ToolParam> = Vec::new();
    let server_info = make_tool(
        "server_info",
        "Show SQL Server version, edition, and configuration",
        none,
    );
    let all = vec![
        list_databases,
        list_tables,
        describe_table,
        query,
        query_plan,
        active_sessions,
        blocking_chains,
        index_usage,
        table_sizes,
        server_info,
    ];
    assert(views(all@) =~= catalog()) by {
        assert(Seq::<ToolParam>::empty().map_values(|p: ToolParam| p@) =~= Seq::<
            ToolParamView,
        >::empty());
    }
    all
}

} // verus!
