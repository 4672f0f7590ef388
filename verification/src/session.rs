//! The RPC session: protocol state, envelope reading, and method routing.
//!
//! The session reads one line at a time. An empty line is skipped and
//! gets no response. A line that does not parse, or
//! whose envelope lacks a protocol tag or a method, is answered with a
//! parse error carrying a null id, and the session continues. A parsed
//! envelope is routed by method name to exactly one handler: the
//! handshake, the handshake-complete notification (which flips the
//! session state and asks for the backend connection to be established),
//! the tool enumeration, or a tool invocation; an unrecognized method is
//! answered with a "method not found" error echoing the request id. A
//! tool invocation is answered immediately when its parameters are
//! malformed, a required argument is missing, or the backend connection
//! is absent; otherwise the extracted call is handed out to be executed.
//!
//! The caller performs the I/O around this: it parses each input line
//! into a [`JsonValue`], writes one response line per routed reply before
//! reading the next line, executes handed-out tool calls, and renders
//! [`tool_response`] from their outcome.

use vstd::prelude::*;
use vstd::string::StrSliceExecFns;
use vstd::string::StringExecFns;

use crate::errors::ClickHouseError;
use crate::render::describe_error;
use crate::render::spec_describe;

verus! {

/// The structured content of one parsed input line: what the session
/// logic reads of a JSON document. A number that the caller cannot
/// represent here, or anything else it does not convert, is `Opaque`;
/// the logic never reads inside such a value.
#[derive(Debug, PartialEq, Eq)]
pub enum JsonValue {
    Null,
    Bool(bool),
    Int(i64),
    Str(String),
    Arr(Vec<JsonValue>),
    Obj(Vec<(String, JsonValue)>),
    Opaque,
}

/// The first binding of `key` among `fields`.
pub open spec fn obj_lookup(fields: Seq<(String, JsonValue)>, key: Seq<char>) -> Option<JsonValue>
    decreases fields.len(),
{
    if fields.len() == 0 {
        None
    } else if fields[0].0@ == key {
        Some(fields[0].1)
    } else {
        obj_lookup(fields.drop_first(), key)
    }
}

/// The member `key` of `v`, when `v` is an object that has it.
pub open spec fn spec_get(v: JsonValue, key: Seq<char>) -> Option<JsonValue> {
    match v {
        JsonValue::Obj(fields) => obj_lookup(fields@, key),
        _ => None,
    }
}

/// Whether `a` and `b` hold the same characters.
pub fn str_eq(a: &str, b: &str) -> (r: bool)
    ensures
        r == (a@ == b@),
{
    let n = a.unicode_len();
    let m = b.unicode_len();
    if n != m {
        return false;
    }
    let mut i: usize = 0;
    while i < n
        invariant
            n == a@.len(),
            n == b@.len(),
            0 <= i <= n,
            forall|j: int| 0 <= j < i ==> a@[j] == b@[j],
        decreases n - i,
    {
        if a.get_char(i) != b.get_char(i) {
            return false;
        }
        i = i + 1;
    }
    proof {
        assert(a@ =~= b@);
    }
    true
}

/// The member `key` of `v`, when `v` is an object that has it.
fn obj_get<'a>(v: &'a JsonValue, key: &str) -> (r: Option<&'a JsonValue>)
    ensures
        match r {
            Some(x) => spec_get(*v, key@) == Some(*x),
            None => spec_get(*v, key@) is None,
        },
{
    match v {
        JsonValue::Obj(fields) => {
            let n = fields.len();
            proof {
                assert(fields@.skip(0) =~= fields@);
            }
            let mut i: usize = 0;
            while i < n
                invariant
                    *v == JsonValue::Obj(*fields),
                    n == fields@.len(),
                    0 <= i <= n,
                    obj_lookup(fields@, key@) == obj_lookup(fields@.skip(i as int), key@),
                decreases n - i,
            {
                proof {
                    assert(fields@.skip(i as int)[0] == fields@[i as int]);
                    assert(fields@.skip(i as int).drop_first() =~= fields@.skip(i as int + 1));
                }
                if str_eq(fields[i].0.as_str(), key) {
                    proof {
                        assert(obj_lookup(fields@.skip(i as int), key@) == Some(
                            fields@[i as int].1,
                        ));
                        assert(obj_lookup(fields@, key@) == Some(fields@[i as int].1));
                    }
                    return Some(&fields[i].1);
                }
                i = i + 1;
            }
            proof {
                assert(fields@.skip(n as int) =~= Seq::<(String, JsonValue)>::empty());
            }
            None
        },
        _ => None,
    }
}

/// A well-formed envelope: an object carrying a protocol tag and a
/// method, both strings.
pub open spec fn envelope_ok(v: JsonValue) -> bool {
    &&& (spec_get(v, "jsonrpc"@) matches Some(j) && j is Str)
    &&& (spec_get(v, "method"@) matches Some(m) && m is Str)
}

/// The method of a well-formed envelope.
pub open spec fn envelope_method(v: JsonValue) -> Seq<char> {
    match spec_get(v, "method"@) {
        Some(JsonValue::Str(s)) => s@,
        _ => Seq::empty(),
    }
}

/// Whether a tool invocation carries well-formed parameters: a `params`
/// member whose `name` member is a string.
pub open spec fn call_params_ok(v: JsonValue) -> bool {
    spec_get(v, "params"@) matches Some(p) && (spec_get(p, "name"@) matches Some(n) && n is Str)
}

/// The tool name of a well-formed invocation.
pub open spec fn call_tool_name(v: JsonValue) -> Seq<char> {
    match spec_get(v, "params"@) {
        Some(p) => match spec_get(p, "name"@) {
            Some(JsonValue::Str(s)) => s@,
            _ => Seq::empty(),
        },
        None => Seq::empty(),
    }
}

/// The arguments object of an invocation; anything absent stands in as
/// null, which holds no members.
pub open spec fn call_arguments(v: JsonValue) -> JsonValue {
    match spec_get(v, "params"@) {
        Some(p) => match spec_get(p, "arguments"@) {
            Some(a) => a,
            None => JsonValue::Null,
        },
        None => JsonValue::Null,
    }
}

/// The string argument `key` of an invocation: present exactly when the
/// arguments object has a string member of that name.
pub open spec fn call_arg_str(v: JsonValue, key: Seq<char>) -> Option<Seq<char>> {
    match spec_get(call_arguments(v), key) {
        Some(JsonValue::Str(s)) => Some(s@),
        _ => None,
    }
}

/// The string argument `key` of the invocation `v`.
fn arg_str<'a>(v: &'a JsonValue, key: &str) -> (r: Option<&'a String>)
    ensures
        match r {
            Some(s) => call_arg_str(*v, key@) == Some(s@),
            None => call_arg_str(*v, key@) is None,
        },
{
    match obj_get(v, "params") {
        Some(p) => match obj_get(p, "arguments") {
            Some(a) => match obj_get(a, key) {
                Some(x) => match x {
                    JsonValue::Str(s) => Some(s),
                    _ => None,
                },
                None => None,
            },
            None => None,
        },
        None => None,
    }
}

/// The parse-error code: the request id cannot be recovered.
pub const PARSE_ERROR: i64 = -32700;

/// The unknown-method code.
pub const METHOD_NOT_FOUND: i64 = -32601;

/// The internal-error code: a not-connected backend, malformed or missing
/// tool arguments, and tool execution failures.
pub const INTERNAL_ERROR: i64 = -32603;

/// A protocol-level error: a code and a message.
#[derive(Debug, PartialEq, Eq)]
pub struct RpcFailure {
    pub code: i64,
    pub message: String,
}

/// What a successful response carries: the handshake result, the empty
/// acknowledgement, the tool catalog, or a tool's text content.
#[derive(Debug, PartialEq, Eq)]
pub enum ResponsePayload {
    Initialize,
    EmptyObject,
    ToolCatalog,
    Text(String),
}

/// Which id a response carries: the request's own id echoed back (null
/// when the request had none), or null outright (when the request id
/// must not be trusted).
#[derive(Debug, PartialEq, Eq, Clone, Copy, Structural)]
pub enum IdEcho {
    Echo,
    Null,
}

/// One response: the id to carry and either a payload or a protocol
/// error. Exactly one of the two is present.
#[derive(Debug, PartialEq, Eq)]
pub struct RpcReply {
    pub id: IdEcho,
    pub body: Result<ResponsePayload, RpcFailure>,
}

/// An extracted tool invocation, ready to execute.
#[derive(Debug, PartialEq, Eq)]
pub enum ToolRequest {
    ListDatabases,
    ListTables { database: String },
    GetTableSchema { database: String, table: String },
}

/// What one input line leads to: no response at all (an empty line is
/// skipped); an immediate response; a response that also asks for the
/// backend connection to be established (the handshake-complete
/// notification); or a tool invocation to execute, whose response
/// [`tool_response`] then renders.
#[derive(Debug, PartialEq, Eq)]
pub enum Routed {
    NoResponse,
    Respond(RpcReply),
    RespondAndConnect(RpcReply),
    Invoke(ToolRequest),
}

/// One input line: empty (after trimming), unparsable, or parsed.
#[derive(Debug, PartialEq, Eq)]
pub enum LineInput {
    Empty,
    Unparsable,
    Parsed(JsonValue),
}

/// A parse-error response: null id, since the request id cannot be
/// recovered from unparsable input.
pub open spec fn is_parse_error_reply(out: Routed) -> bool {
    out matches Routed::Respond(rep) && rep.id == IdEcho::Null && (rep.body matches Err(f)
        && f.code == PARSE_ERROR && f.message@ == "Parse error"@)
}

/// How a tool invocation is routed, given whether the backend connection
/// is present: malformed parameters are answered first; an absent
/// connection next; then the tool name decides, with each required
/// string argument extracted or answered as missing, and an unknown tool
/// answered as a failed execution. Every such reply echoes the request
/// id: the request parsed, so its id is known.
pub open spec fn tools_call_route(connected: bool, v: JsonValue, out: Routed) -> bool {
    if !call_params_ok(v) {
        out matches Routed::Respond(rep) && rep.id == IdEcho::Echo && (rep.body matches Err(f)
            && f.code == INTERNAL_ERROR && f.message@
            == "Internal error: invalid tool call parameters"@)
    } else if !connected {
        out matches Routed::Respond(rep) && rep.id == IdEcho::Echo && (rep.body matches Err(f)
            && f.code == INTERNAL_ERROR && f.message@ == "ClickHouse client not connected"@)
    } else {
        let name = call_tool_name(v);
        if name == "list_databases"@ {
            out == Routed::Invoke(ToolRequest::ListDatabases)
        } else if name == "list_tables"@ {
            match call_arg_str(v, "database"@) {
                Some(db) => out matches Routed::Invoke(ToolRequest::ListTables { database })
                    && database@ == db,
                None => out matches Routed::Respond(rep) && rep.id == IdEcho::Echo && (rep.body
                    matches Err(f) && f.code == INTERNAL_ERROR && f.message@
                    == "Internal error: Missing database argument"@),
            }
        } else if name == "get_table_schema"@ {
            match call_arg_str(v, "database"@) {
                None => out matches Routed::Respond(rep) && rep.id == IdEcho::Echo && (rep.body
                    matches Err(f) && f.code == INTERNAL_ERROR && f.message@
                    == "Internal error: Missing database argument"@),
                Some(db) => match call_arg_str(v, "table"@) {
                    None => out matches Routed::Respond(rep) && rep.id == IdEcho::Echo && (rep.body
                        matches Err(f) && f.code == INTERNAL_ERROR && f.message@
                        == "Internal error: Missing table argument"@),
                    Some(t) => out matches Routed::Invoke(
                        ToolRequest::GetTableSchema { database, table },
                    ) && database@ == db && table@ == t,
                },
            }
        } else {
            out matches Routed::Respond(rep) && rep.id == IdEcho::Echo && (rep.body matches Err(f)
                && f.code == INTERNAL_ERROR && f.message@ == "Tool execution failed: Unknown tool: "@
                + name)
        }
    }
}

/// The protocol state: one-way from uninitialized to ready, and whether
/// the backend connection has been established.
pub struct Session {
    pub initialized: bool,
    pub connected: bool,
}

impl Session {
    /// A fresh session: not initialized, no backend connection.
    pub fn new() -> (s: Session)
        ensures
            !s.initialized,
            !s.connected,
    {
        Session { initialized: false, connected: false }
    }

    /// Records whether the backend connection was established.
    pub fn note_connected(&mut self, ok: bool)
        ensures
            final(self).connected == ok,
            final(self).initialized == old(self).initialized,
    {
        self.connected = ok;
    }

    /// Routes one input line. The session state changes only on the
    /// handshake-complete notification, which makes the session
    /// initialized; the connection flag never changes here.
    pub fn handle_line(&mut self, input: &LineInput) -> (out: Routed)
        ensures
            final(self).connected == old(self).connected,
            final(self).initialized == (old(self).initialized || (input matches LineInput::Parsed(v)
                && envelope_ok(*v) && envelope_method(*v) == "initialized"@)),
            input matches LineInput::Empty ==> out == Routed::NoResponse,
            input matches LineInput::Unparsable ==> is_parse_error_reply(out),
            (input matches LineInput::Parsed(v) && !envelope_ok(*v)) ==> is_parse_error_reply(out),
            (input matches LineInput::Parsed(v) && envelope_ok(*v) && envelope_method(*v)
                == "initialize"@) ==> out == Routed::Respond(
                RpcReply { id: IdEcho::Echo, body: Ok(ResponsePayload::Initialize) },
            ),
            (input matches LineInput::Parsed(v) && envelope_ok(*v) && envelope_method(*v)
                == "initialized"@) ==> out == Routed::RespondAndConnect(
                RpcReply { id: IdEcho::Echo, body: Ok(ResponsePayload::EmptyObject) },
            ),
            (input matches LineInput::Parsed(v) && envelope_ok(*v) && envelope_method(*v)
                == "tools/list"@) ==> out == Routed::Respond(
                RpcReply { id: IdEcho::Echo, body: Ok(ResponsePayload::ToolCatalog) },
            ),
            input matches LineInput::Parsed(v) ==> ((envelope_ok(*v) && envelope_method(*v)
                == "tools/call"@) ==> tools_call_route(old(self).connected, *v, out)),
            (input matches LineInput::Parsed(v) && envelope_ok(*v) && envelope_method(*v)
                != "initialize"@ && envelope_method(*v) != "initialized"@ && envelope_method(*v)
                != "tools/list"@ && envelope_method(*v) != "tools/call"@) ==> (out matches
                Routed::Respond(rep) && rep.id == IdEcho::Echo && (rep.body matches Err(f)
                && f.code == METHOD_NOT_FOUND && f.message@ == "Method not found"@)),
    {
        proof {
            broadcast use vstd::string::group_string_axioms;

            reveal_strlit("initialize");
            reveal_strlit("initialized");
            reveal_strlit("tools/list");
            reveal_strlit("tools/call");
            assert("initialize"@.len() == 10);
            assert("initialized"@.len() == 11);
            assert("tools/list"@.len() == 10);
            assert("tools/call"@.len() == 10);
            assert("initialize"@[0] == 'i');
            assert("tools/list"@[0] == 't');
            assert("tools/call"@[0] == 't');
            assert("tools/list"@[6] == 'l');
            assert("tools/call"@[6] == 'c');
            assert("initialize"@ != "initialized"@);
            assert("initialize"@ != "tools/list"@);
            assert("initialize"@ != "tools/call"@);
            assert("initialized"@ != "tools/list"@);
            assert("initialized"@ != "tools/call"@);
            assert("tools/list"@ != "tools/call"@);
        }
        let v = match input {
            LineInput::Empty => {
                return Routed::NoResponse;
            },
            LineInput::Unparsable => {
                return Routed::Respond(
                    RpcReply {
                        id: IdEcho::Null,
                        body: Err(
                            RpcFailure {
                                code: PARSE_ERROR,
                                message: String::from_str("Parse error"),
                            },
                        ),
                    },
                );
            },
            LineInput::Parsed(v) => v,
        };
        let tag_ok = match obj_get(v, "jsonrpc") {
            Some(x) => match x {
                JsonValue::Str(_) => true,
                _ => false,
            },
            None => false,
        };
        let method = if tag_ok {
            match obj_get(v, "method") {
                Some(x) => match x {
                    JsonValue::Str(s) => Some(s),
                    _ => None,
                },
                None => None,
            }
        } else {
            None
        };
        let method = match method {
            Some(m) => m,
            None => {
                return Routed::Respond(
                    RpcReply {
                        id: IdEcho::Null,
                        body: Err(
                            RpcFailure {
                                code: PARSE_ERROR,
                                message: String::from_str("Parse error"),
                            },
                        ),
                    },
                );
            },
        };
        if str_eq(method.as_str(), "initialize") {
            Routed::Respond(RpcReply { id: IdEcho::Echo, body: Ok(ResponsePayload::Initialize) })
        } else if str_eq(method.as_str(), "initialized") {
            self.initialized = true;
            Routed::RespondAndConnect(
                RpcReply { id: IdEcho::Echo, body: Ok(ResponsePayload::EmptyObject) },
            )
        } else if str_eq(method.as_str(), "tools/list") {
            Routed::Respond(RpcReply { id: IdEcho::Echo, body: Ok(ResponsePayload::ToolCatalog) })
        } else if str_eq(method.as_str(), "tools/call") {
            self.route_tool_call(v)
        } else {
            Routed::Respond(
                RpcReply {
                    id: IdEcho::Echo,
                    body: Err(
                        RpcFailure {
                            code: METHOD_NOT_FOUND,
                            message: String::from_str("Method not found"),
                        },
                    ),
                },
            )
        }
    }

    /// Routes a tool invocation, as [`tools_call_route`] says.
    fn route_tool_call(&self, v: &JsonValue) -> (out: Routed)
        ensures
            tools_call_route(self.connected, *v, out),
    {
        proof {
            broadcast use vstd::string::group_string_axioms;

            reveal_strlit("list_databases");
            reveal_strlit("list_tables");
            reveal_strlit("get_table_schema");
            assert("list_databases"@.len() == 14);
            assert("list_tables"@.len() == 11);
            assert("get_table_schema"@.len() == 16);
            assert("list_databases"@ != "list_tables"@);
            assert("list_databases"@ != "get_table_schema"@);
            assert("list_tables"@ != "get_table_schema"@);
        }
        let name = match obj_get(v, "params") {
            Some(p) => match obj_get(p, "name") {
                Some(x) => match x {
                    JsonValue::Str(s) => Some(s),
                    _ => None,
                },
                None => None,
            },
            None => None,
        };
        let name = match name {
            Some(n) => n,
            None => {
                return Routed::Respond(
                    RpcReply {
                        id: IdEcho::Echo,
                        body: Err(
                            RpcFailure {
                                code: INTERNAL_ERROR,
                                message: String::from_str(
                                    "Internal error: invalid tool call parameters",
                                ),
                            },
                        ),
                    },
                );
            },
        };
        if !self.connected {
            return Routed::Respond(
                RpcReply {
                    id: IdEcho::Echo,
                    body: Err(
                        RpcFailure {
                            code: INTERNAL_ERROR,
                            message: String::from_str("ClickHouse client not connected"),
                        },
                    ),
                },
            );
        }
        if str_eq(name.as_str(), "list_databases") {
            Routed::Invoke(ToolRequest::ListDatabases)
        } else if str_eq(name.as_str(), "list_tables") {
            match arg_str(v, "database") {
                Some(database) => Routed::Invoke(
                    ToolRequest::ListTables { database: database.clone() },
                ),
                None => Routed::Respond(
                    RpcReply {
                        id: IdEcho::Echo,
                        body: Err(
                            RpcFailure {
                                code: INTERNAL_ERROR,
                                message: String::from_str(
                                    "Internal error: Missing database argument",
                                ),
                            },
                        ),
                    },
                ),
            }
        } else if str_eq(name.as_str(), "get_table_schema") {
            let database = match arg_str(v, "database") {
                Some(database) => database,
                None => {
                    return Routed::Respond(
                        RpcReply {
                            id: IdEcho::Echo,
                            body: Err(
                                RpcFailure {
                                    code: INTERNAL_ERROR,
                                    message: String::from_str(
                                        "Internal error: Missing database argument",
                                    ),
                                },
                            ),
                        },
                    );
                },
            };
            match arg_str(v, "table") {
                Some(table) => Routed::Invoke(
                    ToolRequest::GetTableSchema { database: database.clone(), table: table.clone() },
                ),
                None => Routed::Respond(
                    RpcReply {
                        id: IdEcho::Echo,
                        body: Err(
                            RpcFailure {
                                code: INTERNAL_ERROR,
                                message: String::from_str("Internal error: Missing table argument"),
                            },
                        ),
                    },
                ),
            }
        } else {
            let mut message = String::from_str("Tool execution failed: Unknown tool: ");
            message.append(name.as_str());
            Routed::Respond(
                RpcReply {
                    id: IdEcho::Echo,
                    body: Err(RpcFailure { code: INTERNAL_ERROR, message }),
                },
            )
        }
    }
}

/// Renders the response to an executed tool invocation: a success is the
/// tool's text as protocol content, a failure is a protocol error whose
/// message embeds the domain error's description; either way the request
/// id is echoed.
pub fn tool_response(result: Result<String, ClickHouseError>) -> (r: RpcReply)
    ensures
        r.id == IdEcho::Echo,
        result matches Ok(text) ==> r.body == Result::<ResponsePayload, RpcFailure>::Ok(
            ResponsePayload::Text(text),
        ),
        result matches Err(e) ==> (r.body matches Err(f) && f.code == INTERNAL_ERROR && f.message@
            == "Tool execution failed: "@ + spec_describe(e@)),
{
    match result {
        Ok(text) => RpcReply { id: IdEcho::Echo, body: Ok(ResponsePayload::Text(text)) },
        Err(e) => {
            let mut message = String::from_str("Tool execution failed: ");
            let detail = describe_error(&e);
            message.append(detail.as_str());
            RpcReply {
                id: IdEcho::Echo,
                body: Err(RpcFailure { code: INTERNAL_ERROR, message }),
            }
        },
    }
}

/// What the handshake answers with: the protocol version, the capability
/// descriptor (tool invocation is supported and the tool list never
/// changes; the resource and prompt capability sets are empty), and the
/// server identity and version.
pub struct HandshakeInfo {
    pub protocol_version: String,
    pub tools_supported: bool,
    pub tools_list_changed: bool,
    pub has_resources: bool,
    pub has_prompts: bool,
    pub server_name: String,
    pub server_version: String,
}

/// The fixed handshake result: every field pinned.
pub fn handshake_info() -> (r: HandshakeInfo)
    ensures
        r.protocol_version@ == "2024-11-05"@,
        r.tools_supported,
        !r.tools_list_changed,
        !r.has_resources,
        !r.has_prompts,
        r.server_name@ == "mcp-test"@,
        r.server_version@ == "0.1.0"@,
{
    HandshakeInfo {
        protocol_version: String::from_str("2024-11-05"),
        tools_supported: true,
        tools_list_changed: false,
        has_resources: false,
        has_prompts: false,
        server_name: String::from_str("mcp-test"),
        server_version: String::from_str("0.1.0"),
    }
}

/// One parameter of a tool, as the tool enumeration describes it.
#[derive(Debug, PartialEq, Eq)]
pub struct ToolParam {
    pub name: String,
    pub description: String,
    pub required: bool,
}

/// One tool of the fixed catalog.
#[derive(Debug, PartialEq, Eq)]
pub struct ToolSpec {
    pub name: String,
    pub description: String,
    pub params: Vec<ToolParam>,
}

/// The fixed catalog of the three tools, each with its name, description
/// and parameters.
pub fn tool_catalog() -> (r: Vec<ToolSpec>)
    ensures
        r@.len() == 3,
        r@[0].name@ == "list_databases"@,
        r@[0].description@ == "List all databases in the ClickHouse instance"@,
        r@[0].params@.len() == 0,
        r@[1].name@ == "list_tables"@,
        r@[1].description@ == "List all tables in a specific database"@,
        r@[1].params@.len() == 1,
        r@[1].params@[0].name@ == "database"@,
        r@[1].params@[0].description@ == "The database name to list tables from"@,
        r@[1].params@[0].required,
        r@[2].name@ == "get_table_schema"@,
        r@[2].description@ == "Get the schema (columns) of a specific table"@,
        r@[2].params@.len() == 2,
        r@[2].params@[0].name@ == "database"@,
        r@[2].params@[0].description@ == "The database name"@,
        r@[2].params@[0].required,
        r@[2].params@[1].name@ == "table"@,
        r@[2].params@[1].description@ == "The table name"@,
        r@[2].params@[1].required,
{
    let mut tools: Vec<ToolSpec> = Vec::new();
    tools.push(
        ToolSpec {
            name: String::from_str("list_databases"),
            description: String::from_str("List all databases in the ClickHouse instance"),
            params: Vec::new(),
        },
    );
    let mut list_tables_params: Vec<ToolParam> = Vec::new();
    list_tables_params.push(
        ToolParam {
            name: String::from_str("database"),
            description: String::from_str("The database name to list tables from"),
            required: true,
        },
    );
    tools.push(
        ToolSpec {
            name: String::from_str("list_tables"),
            description: String::from_str("List all tables in a specific database"),
            params: list_tables_params,
        },
    );
    let mut schema_params: Vec<ToolParam> = Vec::new();
    schema_params.push(
        ToolParam {
            name: String::from_str("database"),
            description: String::from_str("The database name"),
            required: true,
        },
    );
    schema_params.push(
        ToolParam {
            name: String::from_str("table"),
            description: String::from_str("The table name"),
            required: true,
        },
    );
    tools.push(
        ToolSpec {
            name: String::from_str("get_table_schema"),
            description: String::from_str("Get the schema (columns) of a specific table"),
            params: schema_params,
        },
    );
    tools
}

} // verus!
