//! The failures of a tool call and the text each one is reported with.

use vstd::prelude::*;
use crate::text::owned;

verus! {

/// The step of a connect attempt that failed.
#[derive(Clone, Copy, Debug, PartialEq, Eq, Structural)]
pub enum ConnectStage {
    /// Opening the stream to the server.
    Tcp,
    /// Switching the stream to low-latency delivery.
    NoDelay,
    /// The protocol handshake and login.
    Handshake,
}

/// A failed connect attempt: where it failed and what the layer below said.
#[derive(Clone, Debug, PartialEq, Eq)]
pub struct ConnectFailure {
    pub stage: ConnectStage,
    pub detail: String,
}

pub struct ConnectFailureView {
    pub stage: ConnectStage,
    pub detail: Seq<char>,
}

impl View for ConnectFailure {
    type V = ConnectFailureView;

    open spec fn view(&self) -> ConnectFailureView {
        ConnectFailureView { stage: self.stage, detail: self.detail@ }
    }
}

/// The words that introduce a failure of the given stage.
pub open spec fn stage_prefix(stage: ConnectStage) -> Seq<char> {
    match stage {
        ConnectStage::Tcp => "TCP connection failed: "@,
        ConnectStage::NoDelay => "set_nodelay failed: "@,
        ConnectStage::Handshake => "TDS connection failed: "@,
    }
}

/// The text a connect failure is reported with.
pub open spec fn connect_message(f: ConnectFailureView) -> Seq<char> {
    stage_prefix(f.stage) + f.detail
}

impl ConnectFailure {
    /// The text this failure is reported with.
    pub fn message(&self) -> (r: String)
        ensures
            r@ == connect_message(self@),
    {
        let mut out = match self.stage {
            ConnectStage::Tcp => owned("TCP connection failed: "),
            ConnectStage::NoDelay => owned("set_nodelay failed: "),
            ConnectStage::Handshake => owned("TDS connection failed: "),
        };
        out.append(self.detail.as_str());
        out
    }
}

/// Why a tool call produced no result.
#[derive(Clone, Debug, PartialEq, Eq)]
pub enum ToolError {
    /// No session could be established; holds the connect failure's text.
    Connection(String),
    /// The server refused or failed the statement.
    Query(String),
    /// The statement ran, but its result set could not be read.
    Result(String),
    /// A required argument is missing; holds its name.
    Parameter(String),
    /// The read-only guard found a write or DDL keyword.
    RejectedByGuard,
    /// No tool of that name exists.
    UnknownTool(String),
}

pub enum ToolErrorView {
    Connection(Seq<char>),
    Query(Seq<char>),
    Result(Seq<char>),
    Parameter(Seq<char>),
    RejectedByGuard,
    UnknownTool(Seq<char>),
}

impl View for ToolError {
    type V = ToolErrorView;

    open spec fn view(&self) -> ToolErrorView {
        match self {
            ToolError::Connection(s) => ToolErrorView::Connection(s@),
            ToolError::Query(s) => ToolErrorView::Query(s@),
            ToolError::Result(s) => ToolErrorView::Result(s@),
            ToolError::Parameter(s) => ToolErrorView::Parameter(s@),
            ToolError::RejectedByGuard => ToolErrorView::RejectedByGuard,
            ToolError::UnknownTool(s) => ToolErrorView::UnknownTool(s@),
        }
    }
}

/// The text an error is reported with.
pub open spec fn error_message(e: ToolErrorView) -> Seq<char> {
    match e {
        ToolErrorView::Connection(s) => s,
        ToolErrorView::Query(s) => "Query error: "@ + s,
        ToolErrorView::Result(s) => "Result error: "@ + s,
        ToolErrorView::Parameter(s) => "Missing required parameter: "@ + s,
        ToolErrorView::RejectedByGuard =>
            "Write operations are not allowed. Only SELECT and read-only queries are permitted."@,
        ToolErrorView::UnknownTool(s) => "Unknown tool: "@ + s,
    }
}

impl ToolError {
    /// The text this error is reported with.
    pub fn message(&self) -> (r: String)
        ensures
            r@ == error_message(self@),
    {
        match self {
            ToolError::Connection(s) => owned(s.as_str()),
            ToolError::Query(s) => {
                let mut out = owned("Query error: ");
                out.append(s.as_str());
                out
            },
            ToolError::Result(s) => {
                let mut out = owned("Result error: ");
                out.append(s.as_str());
                out
            },
            ToolError::Parameter(s) => {
                let mut out = owned("Missing required parameter: ");
                out.append(s.as_str());
                out
            },
            ToolError::RejectedByGuard => owned(
                "Write operations are not allowed. Only SELECT and read-only queries are permitted.",
            ),
            ToolError::UnknownTool(s) => {
                let mut out = owned("Unknown tool: ");
                out.append(s.as_str());
                out
            },
        }
    }
}

} // verus!
