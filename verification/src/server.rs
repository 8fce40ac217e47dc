//! The requests a client can make, and what each is answered with.
//!
//! The server reads no stream and writes none. It is handed a request that
//! was already parsed, and gives back the body of the reply, or, for a tool
//! call, the call under way together with what it asks for next.

use serde_json::Value;
use vstd::prelude::*;
use crate::connection::{Args, ArgsView, Connection};
use crate::error::{error_message, ToolError};
use crate::json::{get_text, member, members, no_members, null_value, text_member, Members};
use crate::text::{char_is_space, is_space, owned, str_chars, str_eq};
use crate::tools::catalog::{catalog, tool_definitions, views, ToolDefinition, ToolDefinitionView};
use crate::tools::run::{
    step_spec, Event, Progress, ProgressView, Request, RequestView, Run, RunView,
};
use crate::tools::{dispatch, routed};

verus! {

pub const PROTOCOL_VERSION: &'static str = "2024-11-05";

pub const SERVER_NAME: &'static str = "prowl";

pub const SERVER_VERSION: &'static str = "0.1.0";

/// The code of the reply to a line that is no JSON.
pub const PARSE_ERROR: i64 = -32700;

/// The code of the reply to a request for a method that does not exist.
pub const METHOD_NOT_FOUND: i64 = -32601;

/// The body of a reply.
#[derive(Debug, PartialEq, Eq)]
pub enum Reply {
    /// The answer to `initialize`: the protocol spoken and who speaks it.
    Initialized { protocol_version: String, name: String, version: String },
    /// The answer to `tools/list`.
    Tools(Vec<ToolDefinition>),
    /// The answer to `tools/call`: the text of the result, or of the failure.
    /// A failed call is still a successful reply; it is marked as an error.
    Content { text: String, is_error: bool },
    /// A protocol error.
    Failure { code: i64, message: String },
}

pub enum ReplyView {
    Initialized { protocol_version: Seq<char>, name: Seq<char>, version: Seq<char> },
    Tools(Seq<ToolDefinitionView>),
    Content { text: Seq<char>, is_error: bool },
    Failure { code: i64, message: Seq<char> },
}

impl View for Reply {
    type V = ReplyView;

    open spec fn view(&self) -> ReplyView {
        match self {
            Reply::Initialized { protocol_version, name, version } => ReplyView::Initialized {
                protocol_version: protocol_version@,
                name: name@,
                version: version@,
            },
            Reply::Tools(tools) => ReplyView::Tools(views(tools@)),
            Reply::Content { text, is_error } => ReplyView::Content {
                text: text@,
                is_error: *is_error,
            },
            Reply::Failure { code, message } => ReplyView::Failure {
                code: *code,
                message: message@,
            },
        }
    }
}

/// What became of a request: it is answered, or it is a tool call that waits
/// on its next request.
#[derive(Debug)]
pub enum Handling {
    Done(Reply),
    Waiting(Run, Request),
}

pub enum HandlingView {
    Done(ReplyView),
    Waiting(RunView, RequestView),
}

impl View for Handling {
    type V = HandlingView;

    open spec fn view(&self) -> HandlingView {
        match self {
            Handling::Done(reply) => HandlingView::Done(reply@),
            Handling::Waiting(run, request) => HandlingView::Waiting(run@, request@),
        }
    }
}

/// The answer to `initialize`.
pub open spec fn initialized() -> ReplyView {
    ReplyView::Initialized {
        protocol_version: PROTOCOL_VERSION@,
        name: SERVER_NAME@,
        version: SERVER_VERSION@,
    }
}

/// The reply to a line that could not be parsed.
pub open spec fn parse_failed(detail: Seq<char>) -> ReplyView {
    ReplyView::Failure { code: PARSE_ERROR, message: "Parse error: "@ + detail }
}

/// The reply to a request for an unknown method.
pub open spec fn method_not_found(method: Seq<char>) -> ReplyView {
    ReplyView::Failure { code: METHOD_NOT_FOUND, message: "Method not found: "@ + method }
}

/// How a tool call shows to the client: while it runs, as the call and its
/// request; once finished, as its text, marked as an error if it failed.
pub open spec fn settled(p: ProgressView) -> HandlingView {
    match p {
        ProgressView::Pending(run, request) => HandlingView::Waiting(run, request),
        ProgressView::Finished(Ok(text)) => HandlingView::Done(
            ReplyView::Content { text, is_error: false },
        ),
        ProgressView::Finished(Err(e)) => HandlingView::Done(
            ReplyView::Content { text: "Error: "@ + error_message(e), is_error: true },
        ),
    }
}

/// The method a request names; empty where it names none.
pub open spec fn method_of(request: Members) -> Seq<char> {
    match text_member(request, "method"@) {
        Some(m) => m,
        None => ""@,
    }
}

/// The members stored under `key`, where an object is stored there.
pub open spec fn object_member(m: Members, key: Seq<char>) -> Members {
    if m.contains_key(key) {
        members(m[key])
    } else {
        no_members()
    }
}

/// The tool that a `tools/call` request names; empty where it names none.
pub open spec fn tool_of(request: Members) -> Seq<char> {
    match text_member(object_member(request, "params"@), "name"@) {
        Some(n) => n,
        None => ""@,
    }
}

/// The arguments of a `tools/call` request; none where it gives none.
pub open spec fn arguments_of(request: Members) -> Members {
    object_member(object_member(request, "params"@), "arguments"@)
}

/// What becomes of a `tools/call` request.
pub open spec fn called(request: Members, settings: ArgsView, connected: bool) -> HandlingView {
    settled(routed(tool_of(request), arguments_of(request), settings, connected))
}

/// What becomes of a request.
pub open spec fn handled(request: Members, settings: ArgsView, connected: bool) -> HandlingView {
    let method = method_of(request);
    if method == "initialize"@ {
        HandlingView::Done(initialized())
    } else if method == "tools/list"@ {
        HandlingView::Done(ReplyView::Tools(catalog()))
    } else if method == "tools/call"@ {
        called(request, settings, connected)
    } else {
        HandlingView::Done(method_not_found(method))
    }
}

/// Whether a line holds nothing but white space.
pub fn is_blank(line: &str) -> (r: bool)
    ensures
        r == forall|i: int| 0 <= i < line@.len() ==> is_space(#[trigger] line@[i]),
{
    let chars = str_chars(line);
    let mut i: usize = 0;
    while i < chars.len()
        invariant
            chars@ == line@,
            i <= chars@.len(),
            forall|k: int| 0 <= k < i ==> is_space(#[trigger] line@[k]),
        decreases chars@.len() - i,
    {
        if !char_is_space(chars[i]) {
            return false;
        }
        i += 1;
    }
    true
}

/// Whether a message is a notification: one without an `id`, which gets no
/// reply.
pub fn is_notification(request: &Value) -> (r: bool)
    ensures
        r == !members(*request).contains_key("id"@),
{
    member(request, "id").is_none()
}

/// The reply to a line that could not be parsed, given what the parser said.
pub fn parse_failure(detail: &str) -> (r: Reply)
    ensures
        r@ == parse_failed(detail@),
{
    let mut message = owned("Parse error: ");
    message.append(detail);
    Reply::Failure { code: PARSE_ERROR, message }
}

/// Shows the state of a tool call to the client.
pub fn settle(progress: Progress) -> (r: Handling)
    ensures
        r@ == settled(progress@),
{
    match progress {
        Progress::Pending(run, request) => Handling::Waiting(run, request),
        Progress::Finished(Ok(text)) => Handling::Done(Reply::Content { text, is_error: false }),
        Progress::Finished(Err(e)) => {
            let mut text = owned("Error: ");
            text.append(e.message().as_str());
            Handling::Done(Reply::Content { text, is_error: true })
        },
    }
}

/// A server and the connection its tool calls run on.
pub struct Server<S> {
    connection: Connection<S>,
}

impl<S> Server<S> {
    /// The connection of this server.
    pub closed spec fn connection(&self) -> Connection<S> {
        self.connection
    }

    /// A server for the given settings, not yet connected.
    pub fn new(args: Args) -> (r: Self)
        ensures
            r.connection().settings() == args,
            r.connection().session() is None,
    {
        Server { connection: Connection::new(args) }
    }

    /// The live session, for the driver to execute a statement on.
    pub fn session_mut(&mut self) -> (r: Option<&mut S>)
        ensures
            r is Some <==> old(self).connection().session() is Some,
            final(self).connection().settings() == old(self).connection().settings(),
            match r {
                Some(s) => {
                    &&& *s == old(self).connection().session()->0
                    &&& final(self).connection().session() == Some(*final(s))
                },
                None => final(self).connection().session() is None,
            },
    {
        match self.connection.get_client() {
            Ok(s) => Some(s),
            Err(_) => None,
        }
    }

    /// Answers `initialize`.
    pub fn handle_initialize(&self) -> (r: Reply)
        ensures
            r@ == initialized(),
    {
        Reply::Initialized {
            protocol_version: owned(PROTOCOL_VERSION),
            name: owned(SERVER_NAME),
            version: owned(SERVER_VERSION),
        }
    }

    /// Answers `tools/list`.
    pub fn handle_tools_list(&self) -> (r: Reply)
        ensures
            r@ == ReplyView::Tools(catalog()),
    {
        Reply::Tools(tool_definitions())
    }

    /// Starts the tool call that a `tools/call` request asks for.
    pub fn handle_tools_call(&mut self, request: &Value) -> (r: Handling)
        ensures
            r@ == called(
                members(*request),
                old(self).connection().settings()@,
                old(self).connection().session() is Some,
            ),
            final(self).connection().settings() == old(self).connection().settings(),
            final(self).connection().session() == old(self).connection().session(),
    {
        let null = null_value();
        let params: &Value = match member(request, "params") {
            Some(p) => p,
            None => &null,
        };
        let tool_name = match get_text(params, "name") {
            Some(n) => n,
            None => "",
        };
        let arguments: &Value = match member(params, "arguments") {
            Some(a) => a,
            None => &null,
        };
        settle(dispatch(tool_name, arguments, &mut self.connection))
    }

    /// Handles a request: answers it, or starts the tool call it asks for.
    pub fn handle_request(&mut self, request: &Value) -> (r: Handling)
        ensures
            r@ == handled(
                members(*request),
                old(self).connection().settings()@,
                old(self).connection().session() is Some,
            ),
            final(self).connection().settings() == old(self).connection().settings(),
            final(self).connection().session() == old(self).connection().session(),
    {
        let method = match get_text(request, "method") {
            Some(m) => m,
            None => "",
        };
        if str_eq(method, "initialize") {
            Handling::Done(self.handle_initialize())
        } else if str_eq(method, "tools/list") {
            Handling::Done(self.handle_tools_list())
        } else if str_eq(method, "tools/call") {
            self.handle_tools_call(request)
        } else {
            let mut message = owned("Method not found: ");
            message.append(method);
            Handling::Done(Reply::Failure { code: METHOD_NOT_FOUND, message })
        }
    }

    /// Takes a tool call one step further with the outcome of its request.
    pub fn step(&mut self, run: Run, event: Event<S>) -> (r: Handling)
        ensures
            r@ == settled(
                step_spec(
                    run@,
                    old(self).connection().settings()@,
                    old(self).connection().session(),
                    event@,
                ).0,
            ),
            final(self).connection().session() == step_spec(
                run@,
                old(self).connection().settings()@,
                old(self).connection().session(),
                event@,
            ).1,
            final(self).connection().settings() == old(self).connection().settings(),
    {
        settle(run.step(&mut self.connection, event))
    }
}

} // verus!
