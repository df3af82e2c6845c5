//! JSON-RPC 2.0 messages: requests decoded from JSON values, responses and
//! their error objects, and the response's line of text.

use vstd::prelude::*;
use vstd::string::StringExecFns;
use crate::json::{
    entry, field, integer, integer_text, is_object, object_of_len, pair, string_of,
    take_member, text_entry, to_json_text, json_text, JsonValue,
};

verus! {

/// A line that is not a well-formed request.
pub const PARSE_ERROR: i32 = -32700;

/// A method that the server does not know.
pub const METHOD_NOT_FOUND: i32 = -32601;

/// Parameters that do not fit the method.
pub const INVALID_PARAMS: i32 = -32602;

/// A tool that failed while it ran.
pub const INTERNAL_ERROR: i32 = -32603;

/// One inbound message. A request without an id is a notification.
pub struct MCPRequest {
    pub jsonrpc: String,
    pub id: Option<JsonValue>,
    pub method: String,
    pub params: Option<JsonValue>,
}

/// A failure reported to the client.
pub struct MCPError {
    pub code: i32,
    pub message: String,
}

/// One reply: it carries a result or an error, never both.
pub struct MCPResponse {
    pub jsonrpc: String,
    pub id: Option<JsonValue>,
    pub result: Option<JsonValue>,
    pub error: Option<MCPError>,
}

impl MCPResponse {
    /// The protocol tag is `2.0` and exactly one of result and error is set.
    pub open spec fn wf(&self) -> bool {
        &&& self.jsonrpc@ == "2.0"@
        &&& (self.result is Some) != (self.error is Some)
    }

    /// A successful reply.
    pub fn success(id: JsonValue, result: JsonValue) -> (r: MCPResponse)
        ensures
            r.wf(),
            r.id == Some(id),
            r.result == Some(result),
    {
        MCPResponse { jsonrpc: String::from_str("2.0"), id: Some(id), result: Some(result), error: None }
    }

    /// A failed reply.
    pub fn failure(id: Option<JsonValue>, code: i32, message: String) -> (r: MCPResponse)
        ensures
            r.wf(),
            r.id == id,
            r.error matches Some(e) && e.code == code && e.message == message,
    {
        MCPResponse {
            jsonrpc: String::from_str("2.0"),
            id,
            result: None,
            error: Some(MCPError { code, message }),
        }
    }

    /// The reply as a JSON object: `jsonrpc`, `id`, then `result` or `error`.
    pub fn to_json(self) -> (r: JsonValue)
        requires
            self.wf(),
        ensures
            response_json(r, self),
    {
        let id = match self.id {
            Some(v) => v,
            None => JsonValue::Null,
        };
        let last = match self.result {
            Some(v) => pair("result", v),
            None => match self.error {
                Some(e) => pair(
                    "error",
                    JsonValue::Object(
                        vec![pair("code", integer(e.code)), pair("message", JsonValue::Str(e.message))],
                    ),
                ),
                None => pair("error", JsonValue::Null),
            },
        };
        JsonValue::Object(vec![pair("jsonrpc", JsonValue::text("2.0")), pair("id", id), last])
    }

    /// The reply as one line of compact JSON text.
    pub fn to_line(self) -> (r: String)
        requires
            self.wf(),
        ensures
            exists|j: JsonValue| response_json(j, self) && r@ == json_text(j),
    {
        let j = self.to_json();
        let ghost jg = j;
        let r = to_json_text(&j);
        assert(response_json(jg, self) && r@ == json_text(jg));
        r
    }
}

/// Whether `j` is the error object of `e`.
pub open spec fn error_json(j: JsonValue, e: MCPError) -> bool {
    &&& object_of_len(j, 2)
    &&& j->Object_0@[0].0@ == "code"@
    &&& j->Object_0@[0].1 matches JsonValue::Number(t) && t@ == integer_text(e.code as int)
    &&& text_entry(j, 1, "message"@, e.message@)
}

/// Whether `j` is the JSON object of the reply `r`.
pub open spec fn response_json(j: JsonValue, r: MCPResponse) -> bool {
    &&& object_of_len(j, 3)
    &&& text_entry(j, 0, "jsonrpc"@, "2.0"@)
    &&& entry(j, 1, "id"@, match r.id { Some(v) => v, None => JsonValue::Null })
    &&& match r.result {
        Some(v) => entry(j, 2, "result"@, v),
        None => r.error matches Some(e) && j->Object_0@[2].0@ == "error"@ && error_json(
            j->Object_0@[2].1,
            e,
        ),
    }
}

/// The id of a request: a missing or `null` id counts as none.
pub open spec fn id_of(v: JsonValue) -> Option<JsonValue> {
    match field(v, "id"@) {
        Some(JsonValue::Null) => None,
        Some(x) => Some(x),
        None => None,
    }
}

/// The params of a request: missing or `null` params count as none.
pub open spec fn params_of(v: JsonValue) -> Option<JsonValue> {
    match field(v, "params"@) {
        Some(JsonValue::Null) => None,
        Some(x) => Some(x),
        None => None,
    }
}

/// Whether `v` is a well-formed request: an object with string members
/// `jsonrpc` and `method`.
pub open spec fn well_formed_request(v: JsonValue) -> bool {
    &&& is_object(v)
    &&& field(v, "jsonrpc"@) matches Some(j) && j is Str
    &&& field(v, "method"@) matches Some(m) && m is Str
}

/// Whether `r` is the request that `v` encodes.
pub open spec fn request_of(v: JsonValue, r: MCPRequest) -> bool {
    &&& field(v, "jsonrpc"@) matches Some(j) && string_of(j) == Some(r.jsonrpc@)
    &&& field(v, "method"@) matches Some(m) && string_of(m) == Some(r.method@)
    &&& r.id == id_of(v)
    &&& r.params == params_of(v)
}

fn non_null(v: Option<JsonValue>) -> (r: Option<JsonValue>)
    ensures
        r == (match v {
            Some(JsonValue::Null) => None,
            Some(x) => Some(x),
            None => None,
        }),
{
    match v {
        Some(JsonValue::Null) => None,
        other => other,
    }
}

/// Reads a request out of a JSON value. Where `v` is not a well-formed
/// request, the error holds the id that `v` carries, if any.
pub fn decode_request(v: JsonValue) -> (r: Result<MCPRequest, Option<JsonValue>>)
    ensures
        r is Ok <==> well_formed_request(v),
        r matches Ok(req) ==> request_of(v, req),
        r matches Err(id) ==> id == id_of(v),
{
    let ghost vg = v;
    match v {
        JsonValue::Object(members) => {
            let mut members = members;
            let id = non_null(take_member(&mut members, "id"));
            let jsonrpc = take_member(&mut members, "jsonrpc");
            let method = take_member(&mut members, "method");
            let params = non_null(take_member(&mut members, "params"));
            proof {
                reveal_strlit("id");
                reveal_strlit("jsonrpc");
                reveal_strlit("method");
                reveal_strlit("params");
                assert("id"@.len() != "jsonrpc"@.len());
                assert("id"@.len() != "method"@.len());
                assert("id"@.len() != "params"@.len());
                assert("jsonrpc"@.len() != "method"@.len());
                assert("jsonrpc"@.len() != "params"@.len());
                assert("method"@[0] != "params"@[0]);
            }
            match (jsonrpc, method) {
                (Some(JsonValue::Str(jsonrpc)), Some(JsonValue::Str(method))) => Ok(
                    MCPRequest { jsonrpc, id, method, params },
                ),
                _ => Err(id),
            }
        },
        _ => Err(None),
    }
}

} // verus!
