//! The protocol engine: the tool registry, and the dispatch of one decoded
//! message to a reply, to silence, or to the start of a tool call.

use vstd::prelude::*;
use vstd::string::StringExecFns;
use crate::errors::{concat, ToolError};
use crate::feedback_tool::{
    advance_spec, args_of, feedback_payload, feedback_reply, feedback_schema, valid_feedback_input,
    validation_matches, Effect, FeedbackArgs, FeedbackRun, InteractiveFeedbackTool, Stage,
    StepOutcome,
};
use crate::json::{
    field, json_text, lemma_plain_quoted, member_text, members_text, object_of_len, pair,
    plain_text, take_member, text_entry, text_eq, to_json_text, JsonValue,
};
use crate::protocol::{
    decode_request, id_of, well_formed_request, MCPRequest, MCPResponse, INTERNAL_ERROR,
    INVALID_PARAMS, METHOD_NOT_FOUND, PARSE_ERROR,
};
use crate::text::{lemma_occurs_in_middle, occurs_in, trimmed};

verus! {

/// A tool that the server can run.
pub enum RegisteredTool {
    InteractiveFeedback(InteractiveFeedbackTool),
}

impl RegisteredTool {
    pub open spec fn name_spec(&self) -> Seq<char> {
        match self {
            RegisteredTool::InteractiveFeedback(_) => InteractiveFeedbackTool::name_spec(),
        }
    }

    /// Whether `schema` is this tool's input schema.
    pub open spec fn schema_spec(&self, schema: JsonValue) -> bool {
        match self {
            RegisteredTool::InteractiveFeedback(_) => feedback_schema(schema),
        }
    }

    pub fn name(&self) -> (r: &'static str)
        ensures
            r@ == self.name_spec(),
    {
        match self {
            RegisteredTool::InteractiveFeedback(t) => t.name(),
        }
    }

    pub fn description(&self) -> &'static str {
        match self {
            RegisteredTool::InteractiveFeedback(t) => t.description(),
        }
    }

    pub fn input_schema(&self) -> (r: JsonValue)
        ensures
            self.schema_spec(r),
    {
        match self {
            RegisteredTool::InteractiveFeedback(t) => t.input_schema(),
        }
    }
}

/// The catalogue of tools, at most one per name, in registration order.
pub struct ToolRegistry {
    pub tools: Vec<RegisteredTool>,
}

/// Index of the tool named `name` in `tools`, if one is.
pub open spec fn tool_index(tools: Seq<RegisteredTool>, name: Seq<char>) -> Option<int> {
    if exists|i: int| 0 <= i < tools.len() && (#[trigger] tools[i]).name_spec() == name {
        Some(choose|i: int| 0 <= i < tools.len() && (#[trigger] tools[i]).name_spec() == name)
    } else {
        None
    }
}

impl ToolRegistry {
    /// No two tools share a name.
    pub open spec fn wf(&self) -> bool {
        forall|i: int, j: int|
            0 <= i < j < self.tools@.len() ==> (#[trigger] self.tools@[i]).name_spec()
                != (#[trigger] self.tools@[j]).name_spec()
    }

    pub fn new() -> (r: ToolRegistry)
        ensures
            r.wf(),
            r.tools@.len() == 0,
    {
        ToolRegistry { tools: Vec::new() }
    }

    /// The position of the tool named `name`.
    pub fn find(&self, name: &str) -> (r: Option<usize>)
        ensures
            r matches Some(i) ==> i < self.tools@.len() && self.tools@[i as int].name_spec()
                == name@,
            r is None ==> forall|i: int|
                0 <= i < self.tools@.len() ==> (#[trigger] self.tools@[i]).name_spec() != name@,
    {
        let mut i: usize = 0;
        while i < self.tools.len()
            invariant
                i <= self.tools@.len(),
                forall|j: int| 0 <= j < i ==> (#[trigger] self.tools@[j]).name_spec() != name@,
            decreases self.tools@.len() - i,
        {
            if text_eq(self.tools[i].name(), name) {
                return Some(i);
            }
            i += 1;
        }
        None
    }

    /// Adds `tool`; a tool registered earlier under the same name is replaced
    /// in its place.
    pub fn register(&mut self, tool: RegisteredTool)
        requires
            old(self).wf(),
        ensures
            final(self).wf(),
            match tool_index(old(self).tools@, tool.name_spec()) {
                Some(i) => final(self).tools@ == old(self).tools@.update(i, tool),
                None => final(self).tools@ == old(self).tools@.push(tool),
            },
    {
        let name = tool.name();
        match self.find(name) {
            Some(i) => {
                proof {
                    assert(tool_index(self.tools@, tool.name_spec()) == Some(i as int));
                }
                self.tools.set(i, tool);
            },
            None => {
                self.tools.push(tool);
            },
        }
    }
}

/// The server: the catalogue of tools it offers.
pub struct MCPServer {
    pub tools: ToolRegistry,
}

/// What to do with one message.
pub enum Dispatch {
    /// Write nothing: the message is a notification.
    Silent,
    /// Write nothing: the line is not a request and carries no id; it is
    /// only logged.
    Dropped,
    /// Write this reply.
    Reply(MCPResponse),
    /// Run the feedback tool for the request `id`, starting with `effect`;
    /// its result goes to `MCPServer::finish_tool_call`.
    RunFeedback { id: JsonValue, run: FeedbackRun, effect: Effect },
}

/// Whether `d` replies to the request `id` with a well-formed response.
pub open spec fn replies(d: Dispatch, id: JsonValue) -> bool {
    d matches Dispatch::Reply(r) && r.wf() && r.id == Some(id)
}

/// Whether `d` replies to `id` with the error `code` and `message`.
pub open spec fn replies_error(d: Dispatch, id: JsonValue, code: i32, message: Seq<char>) -> bool {
    replies(d, id) && (d->Reply_0.error matches Some(e) && e.code == code && e.message@ == message)
}

/// Whether `d` replies to `id` with a result that meets `p`.
pub open spec fn replies_result(d: Dispatch, id: JsonValue, p: spec_fn(JsonValue) -> bool) -> bool {
    replies(d, id) && (d->Reply_0.result matches Some(v) && p(v))
}

/// The result of `initialize`: protocol version, capabilities, server name
/// and version.
pub open spec fn initialize_result(j: JsonValue) -> bool {
    &&& object_of_len(j, 3)
    &&& text_entry(j, 0, "protocolVersion"@, "2024-11-05"@)
    &&& j->Object_0@[1].0@ == "capabilities"@
    &&& field(j->Object_0@[1].1, "tools"@) matches Some(t) && field(t, "listChanged"@) == Some(
        JsonValue::Bool(true),
    )
    &&& j->Object_0@[2].0@ == "serverInfo"@
    &&& text_entry(j->Object_0@[2].1, 0, "name"@, "interactive-feedback-mcp"@)
    &&& text_entry(j->Object_0@[2].1, 1, "version"@, "1.0.0"@)
}

/// Whether `t` lists `tool`: its name, description and input schema.
pub open spec fn tool_entry(t: JsonValue, tool: RegisteredTool) -> bool {
    &&& object_of_len(t, 3)
    &&& text_entry(t, 0, "name"@, tool.name_spec())
    &&& t->Object_0@[1].0@ == "description"@ && t->Object_0@[1].1 is Str
    &&& t->Object_0@[2].0@ == "inputSchema"@ && tool.schema_spec(t->Object_0@[2].1)
}

/// The result of `tools/list`: every registered tool, in order.
pub open spec fn tools_list_result(j: JsonValue, tools: Seq<RegisteredTool>) -> bool {
    &&& object_of_len(j, 1)
    &&& j->Object_0@[0].0@ == "tools"@
    &&& j->Object_0@[0].1 matches JsonValue::Array(items) && items@.len() == tools.len()
        && forall|i: int| 0 <= i < tools.len() ==> tool_entry(#[trigger] items@[i], tools[i])
}

/// The result of a finished tool call: one text item holding `text`.
pub open spec fn content_result(j: JsonValue, text: Seq<char>) -> bool {
    &&& object_of_len(j, 1)
    &&& j->Object_0@[0].0@ == "content"@
    &&& j->Object_0@[0].1 matches JsonValue::Array(items) && items@.len() == 1 && object_of_len(
        items@[0],
        2,
    ) && text_entry(items@[0], 0, "type"@, "text"@) && text_entry(items@[0], 1, "text"@, text)
}

/// The tool name of a `tools/call` request.
pub open spec fn tool_name_of(params: Option<JsonValue>) -> Option<Seq<char>> {
    match params {
        Some(p) => match field(p, "name"@) {
            Some(JsonValue::Str(s)) => Some(s@),
            _ => None,
        },
        None => None,
    }
}

/// The arguments of a `tools/call` request, `None` where they are missing.
pub open spec fn call_arguments(params: Option<JsonValue>) -> Option<JsonValue> {
    match params {
        Some(p) => field(p, "arguments"@),
        None => None,
    }
}

/// How a call of the feedback tool with `args` begins: with valid arguments
/// the run starts; otherwise the validation error is the reply.
pub open spec fn feedback_call_spec(d: Dispatch, id: JsonValue, args: Option<JsonValue>) -> bool {
    match args {
        Some(a) => if valid_feedback_input(a) {
            d matches Dispatch::RunFeedback { id: i, run, effect } && i == id && run.stage is PrepareStorage
                && args_of(a, run.args) && (effect matches Effect::PrepareStorage {
                project_directory,
            } && project_directory@ == run.args.project_directory@)
        } else {
            replies(d, id) && (d->Reply_0.error matches Some(e) && e.code == INVALID_PARAMS
                && validation_reply(e.message@, a))
        },
        None => replies_error(
            d,
            id,
            INVALID_PARAMS,
            "Validation error: Missing required field: projectDirectory"@,
        ),
    }
}

/// Whether `message` is the text of the error that checking `a` reports.
pub open spec fn validation_reply(message: Seq<char>, a: JsonValue) -> bool {
    exists|e: crate::errors::ValidationError|
        validation_matches(a, Err(e)) && message == "Validation error: "@ + e.text_spec()
}

/// What the server does with the request `req`.
pub open spec fn dispatch_spec(tools: Seq<RegisteredTool>, req: MCPRequest, d: Dispatch) -> bool {
    match req.id {
        None => d is Silent,
        Some(id) => if req.method@ == "initialize"@ {
            replies_result(d, id, |j: JsonValue| initialize_result(j))
        } else if req.method@ == "tools/list"@ {
            replies_result(d, id, |j: JsonValue| tools_list_result(j, tools))
        } else if req.method@ == "tools/call"@ {
            match tool_name_of(req.params) {
                None => replies_error(d, id, INVALID_PARAMS, "Missing tool name"@),
                Some(name) => match tool_index(tools, name) {
                    None => replies_error(d, id, INVALID_PARAMS, "Tool not found: "@ + name),
                    Some(i) => match tools[i] {
                        RegisteredTool::InteractiveFeedback(_) => feedback_call_spec(
                            d,
                            id,
                            call_arguments(req.params),
                        ),
                    },
                },
            }
        } else {
            replies_error(d, id, METHOD_NOT_FOUND, "Method not found"@)
        },
    }
}

/// What the server does with one input line: `None` stands for a line that
/// is not JSON.
pub open spec fn message_spec(tools: Seq<RegisteredTool>, message: Option<JsonValue>, d: Dispatch) -> bool {
    match message {
        None => d is Dropped,
        Some(v) => if well_formed_request(v) {
            exists|req: MCPRequest| crate::protocol::request_of(v, req) && dispatch_spec(tools, req, d)
        } else {
            match id_of(v) {
                Some(id) => replies_error(d, id, PARSE_ERROR, "Parse error"@),
                None => d is Dropped,
            }
        },
    }
}

/// The reply to the request `id` whose tool call ended with `result`.
pub open spec fn finish_spec(id: JsonValue, result: Result<JsonValue, ToolError>, r: MCPResponse) -> bool {
    &&& r.wf()
    &&& r.id == Some(id)
    &&& match result {
        Ok(p) => r.result matches Some(j) && content_result(j, json_text(p)),
        Err(e) => r.error matches Some(x) && x.code == tool_error_code(e) && x.message@
            == e.text_spec(),
    }
}

/// The code of the reply for a failed tool call.
pub open spec fn tool_error_code(e: ToolError) -> i32 {
    match e {
        ToolError::ValidationError(_) => INVALID_PARAMS,
        _ => INTERNAL_ERROR,
    }
}

/// `{"content":[{"type":"text","text":<text>}]}`.
fn content_json(text: String) -> (r: JsonValue)
    ensures
        content_result(r, text@),
{
    let item = JsonValue::Object(vec![pair("type", JsonValue::text("text")), pair("text", JsonValue::Str(text))]);
    JsonValue::Object(vec![pair("content", JsonValue::Array(vec![item]))])
}

impl MCPServer {
    pub fn new() -> (r: MCPServer)
        ensures
            r.tools.wf(),
            r.tools.tools@.len() == 0,
    {
        MCPServer { tools: ToolRegistry::new() }
    }

    /// Offers `tool`, in place of any tool of the same name.
    pub fn register_tool(&mut self, tool: RegisteredTool)
        requires
            old(self).tools.wf(),
        ensures
            final(self).tools.wf(),
            match tool_index(old(self).tools.tools@, tool.name_spec()) {
                Some(i) => final(self).tools.tools@ == old(self).tools.tools@.update(i, tool),
                None => final(self).tools.tools@ == old(self).tools.tools@.push(tool),
            },
    {
        self.tools.register(tool);
    }

    /// The result of `initialize`.
    fn handle_initialize(&self) -> (r: JsonValue)
        ensures
            initialize_result(r),
    {
        let tools = JsonValue::Object(vec![pair("listChanged", JsonValue::Bool(true))]);
        let server_info = JsonValue::Object(
            vec![
                pair("name", JsonValue::text("interactive-feedback-mcp")),
                pair("version", JsonValue::text("1.0.0")),
            ],
        );
        let r = JsonValue::Object(
            vec![
                pair("protocolVersion", JsonValue::text("2024-11-05")),
                pair("capabilities", JsonValue::Object(vec![pair("tools", tools)])),
                pair("serverInfo", server_info),
            ],
        );
        proof {
            reveal_with_fuel(crate::json::member_value, 2);
        }
        r
    }

    /// The result of `tools/list`.
    fn handle_tools_list(&self) -> (r: JsonValue)
        ensures
            tools_list_result(r, self.tools.tools@),
    {
        let mut items: Vec<JsonValue> = Vec::new();
        let mut i: usize = 0;
        while i < self.tools.tools.len()
            invariant
                i <= self.tools.tools@.len(),
                items@.len() == i,
                forall|k: int| 0 <= k < i ==> tool_entry(#[trigger] items@[k], self.tools.tools@[k]),
            decreases self.tools.tools@.len() - i,
        {
            let tool = &self.tools.tools[i];
            items.push(
                JsonValue::Object(
                    vec![
                        pair("name", JsonValue::text(tool.name())),
                        pair("description", JsonValue::text(tool.description())),
                        pair("inputSchema", tool.input_schema()),
                    ],
                ),
            );
            i += 1;
        }
        JsonValue::Object(vec![pair("tools", JsonValue::Array(items))])
    }

    /// Starts a call of the feedback tool with `arguments`, or replies with
    /// the validation error.
    fn start_feedback(tool: &InteractiveFeedbackTool, id: JsonValue, arguments: Option<JsonValue>) -> (r: Dispatch)
        ensures
            feedback_call_spec(r, id, arguments),
    {
        let ghost ag = arguments;
        let input = match arguments {
            Some(a) => a,
            None => JsonValue::Object(Vec::new()),
        };
        match tool.parse_arguments(&input) {
            Ok(args) => {
                let (run, effect) = FeedbackRun::start(args);
                Dispatch::RunFeedback { id, run, effect }
            },
            Err(e) => {
                let ghost eg = e;
                let err = ToolError::ValidationError(e);
                let message = err.to_text();
                proof {
                    if ag is None {
                        reveal_strlit("Validation error: Missing required field: projectDirectory");
                        reveal_strlit("Validation error: ");
                        reveal_strlit("Missing required field: ");
                        reveal_strlit("projectDirectory");
                        assert(message@ =~= "Validation error: Missing required field: projectDirectory"@);
                    } else {
                        assert(validation_reply(message@, input));
                    }
                }
                Dispatch::Reply(MCPResponse::failure(Some(id), INVALID_PARAMS, message))
            },
        }
    }

    /// Answers `tools/call`.
    fn handle_tool_call(&self, id: JsonValue, params: Option<JsonValue>) -> (r: Dispatch)
        requires
            self.tools.wf(),
        ensures
            match tool_name_of(params) {
                None => replies_error(r, id, INVALID_PARAMS, "Missing tool name"@),
                Some(name) => match tool_index(self.tools.tools@, name) {
                    None => replies_error(r, id, INVALID_PARAMS, "Tool not found: "@ + name),
                    Some(i) => match self.tools.tools@[i] {
                        RegisteredTool::InteractiveFeedback(_) => feedback_call_spec(
                            r,
                            id,
                            call_arguments(params),
                        ),
                    },
                },
            },
    {
        let ghost pg = params;
        let name: String = match &params {
            Some(p) => match p.get("name") {
                Some(JsonValue::Str(s)) => s.clone(),
                _ => {
                    return Dispatch::Reply(
                        MCPResponse::failure(Some(id), INVALID_PARAMS, String::from_str("Missing tool name")),
                    );
                },
            },
            None => {
                return Dispatch::Reply(
                    MCPResponse::failure(Some(id), INVALID_PARAMS, String::from_str("Missing tool name")),
                );
            },
        };
        match self.tools.find(name.as_str()) {
            None => Dispatch::Reply(
                MCPResponse::failure(Some(id), INVALID_PARAMS, concat("Tool not found: ", name.as_str())),
            ),
            Some(i) => {
                proof {
                    let k = tool_index(self.tools.tools@, name@);
                    assert(k == Some(i as int));
                }
                let arguments = match params {
                    Some(JsonValue::Object(members)) => {
                        let mut members = members;
                        take_member(&mut members, "arguments")
                    },
                    _ => None,
                };
                match &self.tools.tools[i] {
                    RegisteredTool::InteractiveFeedback(t) => Self::start_feedback(t, id, arguments),
                }
            },
        }
    }

    /// What to do with the request `request`: reply, stay silent (for a
    /// notification), or start a tool call.
    pub fn handle_request(&self, request: MCPRequest) -> (r: Dispatch)
        requires
            self.tools.wf(),
        ensures
            dispatch_spec(self.tools.tools@, request, r),
    {
        let id = match request.id {
            None => {
                return Dispatch::Silent;
            },
            Some(id) => id,
        };
        if text_eq(request.method.as_str(), "initialize") {
            Dispatch::Reply(MCPResponse::success(id, self.handle_initialize()))
        } else if text_eq(request.method.as_str(), "tools/list") {
            Dispatch::Reply(MCPResponse::success(id, self.handle_tools_list()))
        } else if text_eq(request.method.as_str(), "tools/call") {
            self.handle_tool_call(id, request.params)
        } else {
            Dispatch::Reply(
                MCPResponse::failure(Some(id), METHOD_NOT_FOUND, String::from_str("Method not found")),
            )
        }
    }

    /// What to do with one input line, given as the JSON value it holds, or
    /// `None` where it is not JSON. A value that is not a well-formed request
    /// gets a parse error when it carries an id, and is dropped otherwise.
    pub fn handle_message(&self, message: Option<JsonValue>) -> (r: Dispatch)
        requires
            self.tools.wf(),
        ensures
            message_spec(self.tools.tools@, message, r),
    {
        match message {
            None => Dispatch::Dropped,
            Some(v) => match decode_request(v) {
                Ok(req) => {
                    let ghost rg = req;
                    let r = self.handle_request(req);
                    assert(crate::protocol::request_of(v, rg) && dispatch_spec(self.tools.tools@, rg, r));
                    r
                },
                Err(Some(id)) => Dispatch::Reply(
                    MCPResponse::failure(Some(id), PARSE_ERROR, String::from_str("Parse error")),
                ),
                Err(None) => Dispatch::Dropped,
            },
        }
    }

    /// The reply to the request `id` once its tool call is over: the result
    /// as a text item of compact JSON, or the error with its text.
    pub fn finish_tool_call(&self, id: JsonValue, result: Result<JsonValue, ToolError>) -> (r: MCPResponse)
        ensures
            finish_spec(id, result, r),
    {
        match result {
            Ok(p) => {
                let text = to_json_text(&p);
                MCPResponse::success(id, content_json(text))
            },
            Err(e) => {
                let code = match &e {
                    ToolError::ValidationError(_) => INVALID_PARAMS,
                    _ => INTERNAL_ERROR,
                };
                MCPResponse::failure(Some(id), code, e.to_text())
            },
        }
    }
}

/// A request that carries an id gets exactly one reply, with that id: the
/// dispatch is that reply, or it starts a tool call for that id whose end
/// gives the one reply (see `finish_spec`).
pub proof fn lemma_request_gets_one_reply(tools: Seq<RegisteredTool>, req: MCPRequest, d: Dispatch)
    requires
        dispatch_spec(tools, req, d),
        req.id is Some,
    ensures
        d matches Dispatch::Reply(r) ==> r.wf() && r.id == req.id,
        d matches Dispatch::RunFeedback { id, .. } ==> Some(id) == req.id,
        !(d is Silent),
        !(d is Dropped),
{
}

/// An input line that carries an id, well-formed request or not, gets
/// exactly one reply with that id: directly, or at the end of the tool call
/// it starts.
pub proof fn lemma_line_with_id_gets_one_reply(tools: Seq<RegisteredTool>, v: JsonValue, d: Dispatch)
    requires
        message_spec(tools, Some(v), d),
        id_of(v) is Some,
    ensures
        d matches Dispatch::Reply(r) ==> r.wf() && r.id == id_of(v),
        d matches Dispatch::RunFeedback { id, .. } ==> Some(id) == id_of(v),
        !(d is Silent),
        !(d is Dropped),
{
    if well_formed_request(v) {
        let req = choose|req: MCPRequest|
            crate::protocol::request_of(v, req) && dispatch_spec(tools, req, d);
        lemma_request_gets_one_reply(tools, req, d);
    }
}

/// A finished tool call gives one well-formed reply with the id of its
/// request, whatever its result.
pub proof fn lemma_finished_call_replies(id: JsonValue, result: Result<JsonValue, ToolError>, r: MCPResponse)
    requires
        finish_spec(id, result, r),
    ensures
        r.wf(),
        r.id == Some(id),
{
}

/// A notification, a request without an id, gets no reply, whatever its
/// method.
pub proof fn lemma_notification_is_silent(tools: Seq<RegisteredTool>, req: MCPRequest, d: Dispatch)
    requires
        dispatch_spec(tools, req, d),
        req.id is None,
    ensures
        d is Silent,
{
}

/// A well-formed line without an id is a notification and gets no reply.
pub proof fn lemma_notification_line_is_silent(tools: Seq<RegisteredTool>, v: JsonValue, d: Dispatch)
    requires
        message_spec(tools, Some(v), d),
        well_formed_request(v),
        id_of(v) is None,
    ensures
        d is Silent,
{
    let req = choose|req: MCPRequest|
        crate::protocol::request_of(v, req) && dispatch_spec(tools, req, d);
    lemma_notification_is_silent(tools, req, d);
}

/// Where the feedback tool is registered, `tools/list` lists it under the
/// name `interactive_feedback`, with a schema that marks `projectDirectory`,
/// `prompt` and `previousUserRequest` as required strings.
pub proof fn lemma_tools_list_offers_feedback(tools: Seq<RegisteredTool>, j: JsonValue, i: int)
    requires
        tools_list_result(j, tools),
        0 <= i < tools.len(),
        tools[i] is InteractiveFeedback,
    ensures
        j->Object_0@[0].1 matches JsonValue::Array(items) && ({
            let t = items@[i];
            &&& text_entry(t, 0, "name"@, "interactive_feedback"@)
            &&& t->Object_0@[2].0@ == "inputSchema"@
            &&& crate::feedback_tool::requires_member(t->Object_0@[2].1, "projectDirectory"@)
            &&& crate::feedback_tool::requires_member(t->Object_0@[2].1, "prompt"@)
            &&& crate::feedback_tool::requires_member(t->Object_0@[2].1, "previousUserRequest"@)
        }),
{
    let items = j->Object_0@[0].1->Array_0;
    assert(tool_entry(items@[i], tools[i]));
}

/// A `tools/call` whose arguments lack `prompt` gets an error reply: it never
/// starts the tool and never succeeds.
pub proof fn lemma_missing_prompt_is_an_error(tools: Seq<RegisteredTool>, req: MCPRequest, d: Dispatch)
    requires
        dispatch_spec(tools, req, d),
        req.id is Some,
        req.method@ == "tools/call"@,
        match call_arguments(req.params) {
            Some(a) => field(a, "prompt"@) is None,
            None => true,
        },
    ensures
        d matches Dispatch::Reply(r) && r.wf() && r.id == req.id && r.error is Some && r.result is None,
{
    reveal_strlit("tools/call");
    reveal_strlit("initialize");
    reveal_strlit("tools/list");
    assert("tools/call"@ != "initialize"@ ) by {
        assert("tools/call"@[0] != "initialize"@[0]);
    }
    assert("tools/call"@ != "tools/list"@) by {
        assert("tools/call"@[6] != "tools/list"@[6]);
    }
}

proof fn lemma_payload_text(p: JsonValue, feedback: Seq<char>, h: JsonValue)
    requires
        feedback_payload(p, feedback, h),
        plain_text(feedback),
    ensures
        occurs_in(json_text(p), "\"interactive_feedback\":\""@ + feedback + "\""@),
        occurs_in(json_text(p), "\"command_logs\":\"\""@),
{
    let ms = p->Object_0@;
    let m0 = member_text(ms[0]);
    let m1 = member_text(ms[1]);
    let m2 = member_text(ms[2]);
    let d1 = ms.drop_last();
    let d2 = d1.drop_last();
    assert(d2.len() == 1 && d2[0] == ms[0]);
    assert(d1.len() == 2 && d1.last() == ms[1]);
    assert(members_text(d2) == m0);
    assert(members_text(d1) == members_text(d2) + ","@ + member_text(d1.last()));
    assert(members_text(ms.drop_last()) == m0 + ","@ + m1);
    assert(json_text(p) == "{"@ + (m0 + ","@ + m1 + ","@ + m2) + "}"@);
    reveal_strlit("interactive_feedback");
    reveal_strlit("command_logs");
    reveal_with_fuel(plain_text, 21);
    lemma_plain_quoted("interactive_feedback"@);
    lemma_plain_quoted("command_logs"@);
    lemma_plain_quoted(feedback);
    lemma_plain_quoted(Seq::empty());
    let t1 = "\"interactive_feedback\":\""@ + feedback + "\""@;
    let t0 = "\"command_logs\":\"\""@;
    reveal_strlit("\"interactive_feedback\":\"");
    reveal_strlit("\"command_logs\":\"\"");
    reveal_strlit("\"");
    reveal_strlit(":");
    assert(m1 =~= t1);
    assert(m0 =~= t0);
    assert(json_text(p) =~= ("{"@ + m0 + ","@) + m1 + (","@ + m2 + "}"@));
    lemma_occurs_in_middle("{"@ + m0 + ","@, m1, ","@ + m2 + "}"@);
    assert(json_text(p) =~= "{"@ + m0 + (","@ + m1 + ","@ + m2 + "}"@));
    lemma_occurs_in_middle("{"@, m0, ","@ + m1 + ","@ + m2 + "}"@);
}

/// When the collector's trimmed output is plain text (no quote, backslash
/// or control character), the text item of the reply holds
/// `"interactive_feedback":"<output>"` and `"command_logs":""`.
pub proof fn lemma_feedback_reaches_reply(
    id: JsonValue,
    p: JsonValue,
    stdout: Seq<char>,
    args: FeedbackArgs,
    r: MCPResponse,
)
    requires
        feedback_reply(p, trimmed(stdout), args),
        finish_spec(id, Ok(p), r),
        plain_text(trimmed(stdout)),
    ensures
        r.result matches Some(j) && content_result(j, json_text(p)),
        occurs_in(json_text(p), "\"interactive_feedback\":\""@ + trimmed(stdout) + "\""@),
        occurs_in(json_text(p), "\"command_logs\":\"\""@),
{
    let h = choose|h: JsonValue|
        feedback_payload(p, trimmed(stdout), h) && crate::feedback_tool::history_snippet(
            h,
            args.previous_user_request@,
            args.prompt@,
        );
    lemma_payload_text(p, trimmed(stdout), h);
}

/// A collector that exits with a failure status ends the call with an error
/// reply, with no result, whose message holds what it wrote to standard
/// error.
pub proof fn lemma_collector_failure_is_reported(
    args: FeedbackArgs,
    stdout: String,
    stderr: String,
    next: Stage,
    effect: Effect,
    id: JsonValue,
    r: MCPResponse,
)
    requires
        advance_spec(
            args,
            Stage::RunCollector,
            StepOutcome::Exited { success: false, stdout, stderr },
            next,
            effect,
        ),
        effect matches Effect::Finish(result) && finish_spec(id, result, r),
    ensures
        r.result is None,
        r.error matches Some(x) && occurs_in(x.message@, stderr@),
{
    let m = "Execution error: "@ + "egui GUI failed: "@;
    assert(r.error->Some_0.message@ =~= m + stderr@ + Seq::<char>::empty());
    lemma_occurs_in_middle(m, stderr@, Seq::empty());
}

} // verus!
