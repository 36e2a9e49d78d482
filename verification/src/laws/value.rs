//! What JSON values, errors and names of tools give.

use vstd::prelude::*;

use vstd::utf8::decode_utf8;

use crate::error::McpError;
use crate::json::{json_bytes, json_parsed, plain, Json, JsonView};
use crate::laws::client::asks;
use crate::protocol::{law_request_has_its_members, JsonRpcRequest};
use crate::record::Encode;
use crate::text::{i64_text, u64_text};
use crate::tool_name::{
    build_mcp_tool_name, law_parse_splits_the_name, law_sanitize_replaces_the_rest,
    parse_mcp_tool_name, sanitize, sanitized,
};
use crate::types::McpAnnotations;

verus! {

// ---------------------------------------------------------------------------
// JSON values
// ---------------------------------------------------------------------------

/// A field is given exactly if the value is an object that has it.
pub proof fn law_get(json: &Json, name: &str, value: Option<&Json>)
    requires
        call_ensures(Json::get, (json, name), value),
    ensures
        value is Some <==> json@ is Object && json@->Object_0.contains_key(name@),
        value is Some ==> value->0@ == json@->Object_0[name@],
{
}

/// A text is given by a string and by nothing else.
pub proof fn law_as_str(json: &Json, text: Option<&str>)
    requires
        call_ensures(Json::as_str, (json,), text),
    ensures
        text is Some <==> json@ is Str,
        text is Some ==> json@ == JsonView::Str(text->0@),
{
}

/// An unsigned number is given by an integer that is not negative, and by nothing else.
pub proof fn law_as_u64(json: &Json, number: Option<u64>)
    requires
        call_ensures(Json::as_u64, (json,), number),
    ensures
        number is Some <==> json@ is PosInt,
        number is Some ==> json@ == JsonView::PosInt(number->0),
{
}

/// A signed number is given by an integer of its range, and by nothing else.
pub proof fn law_as_i64(json: &Json, number: Option<i64>)
    requires
        call_ensures(Json::as_i64, (json,), number),
    ensures
        number is Some <==> json@ is NegInt || (json@ is PosInt && json@->PosInt_0 <= i64::MAX),
        number is Some ==> json@ == JsonView::NegInt(number->0) || (number->0 >= 0 && json@
            == JsonView::PosInt(number->0 as u64)),
{
}

/// A text is read as the value that it stands for, or refused with the reason.
pub proof fn law_from_text(text: &str, parsed: Result<Json, McpError>)
    requires
        call_ensures(Json::from_text, (text,), parsed),
    ensures
        parsed is Ok <==> json_parsed(text@) is Ok,
        parsed is Ok ==> json_parsed(text@)->Ok_0 == parsed->Ok_0@,
        parsed is Err ==> parsed->Err_0 is Serde && parsed->Err_0->Serde_0@ == json_parsed(
            text@,
        )->Err_0,
{
}

/// A value is written on one line, and a plain value is read back from what was written.
pub proof fn law_written_value_is_read_back(
    json: &Json,
    bytes: Vec<u8>,
    text: &str,
    parsed: Result<Json, McpError>,
    i: int,
)
    requires
        call_ensures(Json::to_bytes, (json,), bytes),
        call_ensures(Json::from_text, (text,), parsed),
        text@ == decode_utf8(bytes@),
    ensures
        bytes@ == json_bytes(json@),
        bytes@.len() > 0,
        0 <= i < bytes@.len() ==> bytes@[i] != 10,
        plain(json@) ==> parsed is Ok && parsed->Ok_0@ == json@,
{
}

/// A copy of a value means what the value means.
pub proof fn law_clone(json: &Json, copy: Json)
    requires
        call_ensures(<Json as Clone>::clone, (json,), copy),
    ensures
        copy@ == json@,
{
}

/// A request is written with its id, its method and its parameters.
pub proof fn law_request_to_json(request: &JsonRpcRequest, json: Json)
    requires
        call_ensures(<JsonRpcRequest as Encode>::to_json, (request,), json),
    ensures
        asks(json@, request.id, request.method@, request.params@),
{
    law_request_has_its_members(request.id, request.method@, request.params@);
}

/// Of a tool that has no hints nothing is promised.
pub proof fn law_no_hints(annotations: McpAnnotations)
    requires
        call_ensures(<McpAnnotations as Default>::default, (), annotations),
    ensures
        annotations.title is None,
        !annotations.read_only_hint,
        !annotations.destructive_hint,
        !annotations.idempotent_hint,
        !annotations.open_world_hint,
{
}

// ---------------------------------------------------------------------------
// Errors
// ---------------------------------------------------------------------------

/// An error of one's own says what it was given.
pub proof fn law_other(msg: String, error: McpError)
    requires
        call_ensures(McpError::other, (msg,), error),
    ensures
        error is Other,
        error->Other_0@ == msg@,
{
}

/// An error is reported with all that it tells, after words that say what it is.
pub proof fn law_message(error: &McpError, text: String)
    requires
        call_ensures(McpError::message, (error,), text),
    ensures
        match *error {
            McpError::Io(reason) => text@ == "transport I/O: "@ + reason@,
            McpError::Serde(reason) => text@ == "serde: "@ + reason@,
            McpError::Timeout { id, method } => text@ == "timeout waiting for response (id="@
                + u64_text(id as nat) + ", method="@ + method@ + ")"@,
            McpError::ConnectionLost => text@ == "connection lost"@,
            McpError::ServerError { code, message } => text@ == "server error: code="@ + i64_text(
                code as int,
            ) + " message="@ + message@,
            McpError::InvalidResponse(reason) => text@ == "invalid response: "@ + reason@,
            McpError::NeedsAuth => text@ == "needs auth"@,
            McpError::Cancelled => text@ == "cancelled"@,
            McpError::Other(reason) => text@ == reason@,
        },
{
}

// ---------------------------------------------------------------------------
// Names of tools
// ---------------------------------------------------------------------------

/// The segment is what sanitising makes of the text: each character that may not stand in a name
/// is a `_`, the others are as they were, and there is at least one.
pub open spec fn is_clean(raw: Seq<char>, segment: Seq<char>) -> bool {
    &&& raw.len() == 0 ==> segment == seq!['_']
    &&& raw.len() > 0 ==> segment.len() == raw.len()
    &&& forall|i: int|
        0 <= i < raw.len() ==> #[trigger] segment[i] == (if ('a' <= raw[i] <= 'z') || ('A' <= raw[i]
            <= 'Z') || ('0' <= raw[i] <= '9') || raw[i] == '_' || raw[i] == '-' {
            raw[i]
        } else {
            '_'
        })
}

/// Sanitising puts `_` for each character that may not stand in a name, and for no characters at
/// all.
pub proof fn law_sanitize(raw: &str, out: String)
    requires
        call_ensures(sanitize, (raw,), out),
    ensures
        is_clean(raw@, out@),
{
    law_sanitize_replaces_the_rest(raw@);
}

/// A name is built of `mcp__`, the sanitised server, `__` and the sanitised tool, as far as there
/// is room for 64 characters.
pub proof fn law_build(server: &str, tool: &str, name: String, s: Seq<char>, t: Seq<char>)
    requires
        call_ensures(build_mcp_tool_name, (server, tool), name),
        is_clean(server@, s),
        is_clean(tool@, t),
    ensures
        ({
            let full = "mcp__"@ + s + "__"@ + t;
            &&& full.len() <= 64 ==> name@ == full
            &&& full.len() > 64 ==> name@.len() == 64 && name@ == full.take(64)
        }),
{
    law_sanitize_replaces_the_rest(server@);
    law_sanitize_replaces_the_rest(tool@);
    assert(s =~= sanitized(server@));
    assert(t =~= sanitized(tool@));
}

/// A name is parsed exactly if it is `mcp__`, a server, `__` and a tool. The segments make up the
/// name, and the server is the shortest that there is.
pub proof fn law_parse<'a>(
    name: &'a str,
    segments: Option<(&'a str, &'a str)>,
    server: Seq<char>,
    tool: Seq<char>,
)
    requires
        call_ensures(parse_mcp_tool_name, (name,), segments),
    ensures
        segments matches Some((s, t)) ==> name@ == "mcp__"@ + s@ + "__"@ + t@,
        name@ == "mcp__"@ + server + "__"@ + tool ==> (segments matches Some((s, _))
            && s@.len() <= server.len()),
{
    law_parse_splits_the_name(name@, server, tool);
}

} // verus!
