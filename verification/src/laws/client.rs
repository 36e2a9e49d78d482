//! What a client sends, and what becomes of messages that arrive.

use vstd::prelude::*;

use crate::client::{
    call_params, call_tool_result, initialize_params, initialize_result,
    law_call_says_what_it_asks, law_handshake_tells_who_the_client_is,
    law_prompts_are_those_listed, law_resources_are_those_listed, law_tool_call_names_its_tool,
    law_tools_are_those_listed, list_prompts_result, list_resources_result, list_tools_result,
    no_params, prompts_in, read_params, read_resource_result, resources_in, Call, ClientView,
    Delivery, Dispatch, McpClient, WaitEnd,
};
use crate::error::{ErrorView, McpError};
use crate::json::{Json, JsonView};
use crate::protocol::{
    answer, brings, classify, law_notification_has_its_members, notification, Incoming,
};
use crate::record::{views, Decode, Encode};
use crate::types::{
    CallToolResult, ClientInfo, InitializeResult, McpNotification, McpPrompt, McpResource,
    McpTool, ReadResourceResult,
};

verus! {

// ---------------------------------------------------------------------------
// What a client sends
// ---------------------------------------------------------------------------

/// The message is a request of this method, under this id and with these parameters.
pub open spec fn asks(message: JsonView, id: u64, method: Seq<char>, params: JsonView) -> bool {
    &&& message is Object
    &&& forall|key: Seq<char>| #[trigger]
        message->Object_0.contains_key(key) <==> key == "jsonrpc"@ || key == "id"@ || key
            == "method"@ || key == "params"@
    &&& message->Object_0["jsonrpc"@] == JsonView::Str("2.0"@)
    &&& message->Object_0["id"@] == JsonView::PosInt(id)
    &&& message->Object_0["method"@] == JsonView::Str(method)
    &&& message->Object_0["params"@] == params
}

/// The message is a notification of this method, with these parameters.
pub open spec fn notifies(message: JsonView, method: Seq<char>, params: JsonView) -> bool {
    &&& message is Object
    &&& forall|key: Seq<char>| #[trigger]
        message->Object_0.contains_key(key) <==> key == "jsonrpc"@ || key == "method"@ || key
            == "params"@
    &&& message->Object_0["jsonrpc"@] == JsonView::Str("2.0"@)
    &&& message->Object_0["method"@] == JsonView::Str(method)
    &&& message->Object_0["params"@] == params
}

/// A client took down a further request: its waiter is kept under the id that was next, and the
/// id that is next is one more, or the first if there is no more.
pub open spec fn took_down<W>(before: ClientView<W>, after: ClientView<W>, waiter: W) -> bool {
    &&& after.pending == before.pending.insert(before.next_id, waiter)
    &&& before.next_id < u64::MAX ==> after.next_id == before.next_id + 1
    &&& before.next_id == u64::MAX ==> after.next_id == 0
}

/// A new client has no request under way, and begins with the id 1.
pub proof fn law_new_client<W>(client: McpClient<W>)
    requires
        call_ensures(McpClient::<W>::new, (), client),
    ensures
        client@.next_id == 1,
        forall|id: u64| !#[trigger] client@.pending.contains_key(id),
{
}

/// A request is sent with the method and the parameters that were given, under the next id, and
/// its waiter is taken down.
pub proof fn law_send_request<W>(
    client: &mut McpClient<W>,
    method: &str,
    params: Json,
    waiter: W,
    call: Call,
)
    requires
        call_ensures(McpClient::<W>::send_request, (client, method, params, waiter), call),
    ensures
        took_down(old(client)@, final(client)@, waiter),
        call.id == old(client)@.next_id,
        call.method@ == method@,
        asks(call.message@, call.id, method@, params@),
{
    law_call_says_what_it_asks(old(client)@, method@, params@);
}

/// A notification is sent with the method and the parameters that were given.
pub proof fn law_send_notification<W>(
    client: &McpClient<W>,
    method: &str,
    params: Json,
    message: Json,
)
    requires
        call_ensures(McpClient::<W>::send_notification, (client, method, params), message)
            || call_ensures(notification, (method, params), message),
    ensures
        notifies(message@, method@, params@),
{
    law_notification_has_its_members(method@, params@);
}

/// A tool is called by the name that was given, character by character, and with the arguments
/// that were given, whatever they are.
pub proof fn law_call_tool<W>(
    client: &mut McpClient<W>,
    name: &str,
    arguments: Json,
    waiter: W,
    call: Call,
)
    requires
        call_ensures(McpClient::<W>::call_tool, (client, name, arguments, waiter), call),
    ensures
        took_down(old(client)@, final(client)@, waiter),
        call.id == old(client)@.next_id,
        call.method@ == "tools/call"@,
        ({
            let params = call.message@->Object_0["params"@];
            &&& asks(call.message@, call.id, "tools/call"@, params)
            &&& params is Object
            &&& forall|key: Seq<char>| #[trigger]
                params->Object_0.contains_key(key) <==> key == "name"@ || key == "arguments"@
            &&& params->Object_0["name"@] == JsonView::Str(name@)
            &&& params->Object_0["arguments"@] == arguments@
        }),
{
    law_call_says_what_it_asks(old(client)@, "tools/call"@, call_params(name@, arguments@));
    law_tool_call_names_its_tool(old(client)@, name@, arguments@, name@, arguments@);
}

/// Calls of different tools send different messages, and so do calls with different arguments.
pub proof fn law_different_calls_differ<W>(
    client: &mut McpClient<W>,
    name: &str,
    arguments: Json,
    waiter: W,
    call: Call,
    other_client: &mut McpClient<W>,
    other_name: &str,
    other_arguments: Json,
    other_waiter: W,
    other_call: Call,
)
    requires
        call_ensures(McpClient::<W>::call_tool, (client, name, arguments, waiter), call),
        call_ensures(
            McpClient::<W>::call_tool,
            (other_client, other_name, other_arguments, other_waiter),
            other_call,
        ),
        name@ != other_name@ || arguments@ != other_arguments@,
    ensures
        call.message@ != other_call.message@,
{
    law_tool_call_names_its_tool(old(client)@, name@, arguments@, name@, arguments@);
    law_tool_call_names_its_tool(
        old(other_client)@,
        other_name@,
        other_arguments@,
        other_name@,
        other_arguments@,
    );
}

/// A resource is read by the address that was given, character by character.
pub proof fn law_read_resource<W>(client: &mut McpClient<W>, uri: &str, waiter: W, call: Call)
    requires
        call_ensures(McpClient::<W>::read_resource, (client, uri, waiter), call),
    ensures
        took_down(old(client)@, final(client)@, waiter),
        call.id == old(client)@.next_id,
        call.method@ == "resources/read"@,
        ({
            let params = call.message@->Object_0["params"@];
            &&& asks(call.message@, call.id, "resources/read"@, params)
            &&& params is Object
            &&& forall|key: Seq<char>| #[trigger]
                params->Object_0.contains_key(key) <==> key == "uri"@
            &&& params->Object_0["uri"@] == JsonView::Str(uri@)
        }),
{
    law_call_says_what_it_asks(old(client)@, "resources/read"@, read_params(uri@));
}

/// A server is greeted with the version of the protocol, what the client offers, and the client's
/// own name and version as they were given.
pub proof fn law_initialize<W>(
    client: &mut McpClient<W>,
    client_info: &ClientInfo,
    waiter: W,
    call: Call,
)
    requires
        call_ensures(McpClient::<W>::initialize, (client, client_info, waiter), call),
    ensures
        took_down(old(client)@, final(client)@, waiter),
        call.id == old(client)@.next_id,
        call.method@ == "initialize"@,
        ({
            let params = call.message@->Object_0["params"@];
            let p = params->Object_0;
            let offers = p["capabilities"@]->Object_0;
            let who = p["clientInfo"@]->Object_0;
            &&& asks(call.message@, call.id, "initialize"@, params)
            &&& params is Object
            &&& forall|key: Seq<char>| #[trigger]
                p.contains_key(key) <==> key == "protocolVersion"@ || key == "capabilities"@ || key
                    == "clientInfo"@
            &&& p["protocolVersion"@] == JsonView::Str("2024-11-05"@)
            &&& p["capabilities"@] is Object
            &&& forall|key: Seq<char>| #[trigger]
                offers.contains_key(key) <==> key == "roots"@ || key == "sampling"@
            &&& offers["roots"@] == JsonView::Object(
                map!["listChanged"@ => JsonView::Bool(false)],
            )
            &&& offers["sampling"@] == JsonView::Object(Map::empty())
            &&& p["clientInfo"@] is Object
            &&& forall|key: Seq<char>| #[trigger]
                who.contains_key(key) <==> key == "name"@ || key == "version"@
            &&& who["name"@] == JsonView::Str(client_info.name@)
            &&& who["version"@] == JsonView::Str(client_info.version@)
        }),
{
    law_call_says_what_it_asks(old(client)@, "initialize"@, initialize_params(client_info@));
    law_handshake_tells_who_the_client_is(old(client)@, client_info@);
}

/// A server is told in a notification that it is initialized.
pub proof fn law_notify_initialized<W>(client: &McpClient<W>, message: Json)
    requires
        call_ensures(McpClient::<W>::notify_initialized, (client,), message),
    ensures
        notifies(message@, "notifications/initialized"@, JsonView::Object(Map::empty())),
{
    law_notification_has_its_members("notifications/initialized"@, no_params());
}

/// Each list is asked for by its own method, without parameters.
pub proof fn law_lists_are_asked_for<W>(client: &mut McpClient<W>, waiter: W, call: Call)
    ensures
        call_ensures(McpClient::<W>::list_tools, (client, waiter), call) ==> {
            &&& took_down(old(client)@, final(client)@, waiter)
            &&& call.id == old(client)@.next_id
            &&& call.method@ == "tools/list"@
            &&& asks(call.message@, call.id, "tools/list"@, JsonView::Object(Map::empty()))
        },
        call_ensures(McpClient::<W>::list_resources, (client, waiter), call) ==> {
            &&& took_down(old(client)@, final(client)@, waiter)
            &&& call.id == old(client)@.next_id
            &&& call.method@ == "resources/list"@
            &&& asks(call.message@, call.id, "resources/list"@, JsonView::Object(Map::empty()))
        },
        call_ensures(McpClient::<W>::list_prompts, (client, waiter), call) ==> {
            &&& took_down(old(client)@, final(client)@, waiter)
            &&& call.id == old(client)@.next_id
            &&& call.method@ == "prompts/list"@
            &&& asks(call.message@, call.id, "prompts/list"@, JsonView::Object(Map::empty()))
        },
{
    law_call_says_what_it_asks(old(client)@, "tools/list"@, no_params());
    law_call_says_what_it_asks(old(client)@, "resources/list"@, no_params());
    law_call_says_what_it_asks(old(client)@, "prompts/list"@, no_params());
}

// ---------------------------------------------------------------------------
// What becomes of messages that arrive
// ---------------------------------------------------------------------------

/// The message makes sense: it is an object whose id, method and error, where it brings them, are
/// of the kinds that JSON-RPC has for them.
pub open spec fn makes_sense(raw: JsonView) -> bool {
    let m = raw->Object_0;
    let error = m["error"@]->Object_0;
    &&& raw is Object
    &&& brings(m, "id"@) ==> m["id"@] is PosInt
    &&& brings(m, "method"@) ==> m["method"@] is Str
    &&& brings(m, "error"@) ==> {
        &&& m["error"@] is Object
        &&& error.contains_key("code"@)
        &&& error["code"@] is NegInt || (error["code"@] is PosInt && error["code"@]->PosInt_0
            <= i64::MAX)
        &&& error.contains_key("message"@)
        &&& error["message"@] is Str
    }
}

/// The outcome is what the response brings: its error if it has one, by code and message, and else
/// its result, or null if it has none.
pub open spec fn is_outcome_of(
    m: Map<Seq<char>, JsonView>,
    outcome: Result<Json, McpError>,
) -> bool {
    let error = m["error"@]->Object_0;
    &&& brings(m, "error"@) ==> {
        &&& outcome is Err
        &&& outcome->Err_0 is ServerError
        &&& error["code"@] == JsonView::NegInt(outcome->Err_0->ServerError_code) || (
        outcome->Err_0->ServerError_code >= 0 && error["code"@] == JsonView::PosInt(
            outcome->Err_0->ServerError_code as u64,
        ))
        &&& error["message"@] == JsonView::Str(outcome->Err_0->ServerError_message@)
    }
    &&& !brings(m, "error"@) ==> outcome is Ok
    &&& !brings(m, "error"@) && brings(m, "result"@) ==> outcome->Ok_0@ == m["result"@]
    &&& !brings(m, "error"@) && !brings(m, "result"@) ==> outcome->Ok_0@ is Null
}

/// The notification tells what the message says: which list changed, how far something got, what
/// is to be logged, or else the method and the parameters as they are.
pub open spec fn tells_of(m: Map<Seq<char>, JsonView>, told: McpNotification) -> bool {
    let method = m["method"@];
    let given = m.contains_key("params"@);
    let p = m["params"@]->Object_0;
    let object = given && m["params"@] is Object;
    match told {
        McpNotification::ToolsListChanged => method == JsonView::Str(
            "notifications/tools/list_changed"@,
        ),
        McpNotification::ResourcesListChanged => method == JsonView::Str(
            "notifications/resources/list_changed"@,
        ),
        McpNotification::PromptsListChanged => method == JsonView::Str(
            "notifications/prompts/list_changed"@,
        ),
        McpNotification::Progress { token, progress } => {
            &&& method == JsonView::Str("notifications/progress"@)
            &&& given ==> progress@ == m["params"@]
            &&& !given ==> progress@ is Null
            &&& object && p.contains_key("progressToken"@) ==> token@ == p["progressToken"@]
            &&& !(object && p.contains_key("progressToken"@)) ==> token@ is Null
        },
        McpNotification::LogMessage { level, data } => {
            &&& method == JsonView::Str("notifications/message"@)
            &&& object && p.contains_key("level"@) && p["level"@] is Str ==> p["level"@]
                == JsonView::Str(level@)
            &&& !(object && p.contains_key("level"@) && p["level"@] is Str) ==> level@ == "info"@
            &&& object && p.contains_key("data"@) ==> data@ == p["data"@]
            &&& !(object && p.contains_key("data"@)) ==> data@ is Null
        },
        McpNotification::Other { method: name, params } => {
            &&& method == JsonView::Str(name@)
            &&& name@ != "notifications/tools/list_changed"@
            &&& name@ != "notifications/resources/list_changed"@
            &&& name@ != "notifications/prompts/list_changed"@
            &&& name@ != "notifications/progress"@
            &&& name@ != "notifications/message"@
            &&& given ==> params@ == m["params"@]
            &&& !given ==> params@ is Null
        },
    }
}

/// The message answers a request under this id: of the roots it says that there are none, and any
/// other method it refuses by its name.
pub open spec fn answers(message: JsonView, id: u64, method: Seq<char>) -> bool {
    let m = message->Object_0;
    let error = m["error"@]->Object_0;
    &&& message is Object
    &&& method == "roots/list"@ ==> forall|key: Seq<char>| #[trigger]
        m.contains_key(key) <==> key == "jsonrpc"@ || key == "id"@ || key == "result"@
    &&& method != "roots/list"@ ==> forall|key: Seq<char>| #[trigger]
        m.contains_key(key) <==> key == "jsonrpc"@ || key == "id"@ || key == "error"@
    &&& m["jsonrpc"@] == JsonView::Str("2.0"@)
    &&& m["id"@] == JsonView::PosInt(id)
    &&& method == "roots/list"@ ==> m["result"@] == JsonView::Object(
        map!["roots"@ => JsonView::Array(Seq::empty())],
    )
    &&& method != "roots/list"@ ==> {
        &&& m["error"@] is Object
        &&& forall|key: Seq<char>| #[trigger]
            error.contains_key(key) <==> key == "code"@ || key == "message"@
        &&& error["code"@] is NegInt
        &&& error["code"@]->NegInt_0 == -32601
        &&& error["message"@] == JsonView::Str("method not found: "@ + method)
    }
}

proof fn lemma_names()
    ensures
        "notifications/tools/list_changed"@.len() == 32,
        "notifications/resources/list_changed"@.len() == 36,
        "notifications/prompts/list_changed"@.len() == 34,
        "notifications/progress"@.len() == 22,
        "notifications/message"@.len() == 21,
        "jsonrpc"@.len() == 7,
        "id"@.len() == 2,
        "result"@.len() == 6,
        "error"@.len() == 5,
        "code"@.len() == 4,
        "message"@.len() == 7,
{
    reveal_strlit("notifications/tools/list_changed");
    reveal_strlit("notifications/resources/list_changed");
    reveal_strlit("notifications/prompts/list_changed");
    reveal_strlit("notifications/progress");
    reveal_strlit("notifications/message");
    reveal_strlit("jsonrpc");
    reveal_strlit("id");
    reveal_strlit("result");
    reveal_strlit("error");
    reveal_strlit("code");
    reveal_strlit("message");
}

/// A server's request is answered under its own id.
pub proof fn law_answer(id: u64, method: &str, message: Json)
    requires
        call_ensures(answer, (id, method), message),
    ensures
        answers(message@, id, method@),
{
    lemma_names();
}

/// A message is sorted by its members. It means nothing unless it makes sense. With an id it is a
/// request if it brings a method and neither result nor error, and else a response; without one
/// it is a notification if it brings a method.
pub proof fn law_classify(raw: &Json, about: Incoming)
    requires
        call_ensures(classify, (raw,), about),
    ensures
        about is Malformed <==> !makes_sense(raw@),
        makes_sense(raw@) ==> {
            let m = raw@->Object_0;
            let request = brings(m, "id"@) && brings(m, "method"@) && !brings(m, "result"@)
                && !brings(m, "error"@);
            &&& about is Request <==> request
            &&& about is Response <==> brings(m, "id"@) && !request
            &&& about is Notification <==> !brings(m, "id"@) && brings(m, "method"@)
            &&& about is Request ==> {
                &&& m["id"@] == JsonView::PosInt(about->Request_id)
                &&& m["method"@] == JsonView::Str(about->Request_method@)
            }
            &&& about is Response ==> {
                &&& m["id"@] == JsonView::PosInt(about->Response_id)
                &&& is_outcome_of(m, about->Response_outcome)
            }
            &&& about is Notification ==> tells_of(m, about->Notification_0)
        },
{
    lemma_names();
}

/// A message that arrives is passed on to whom it concerns, and takes a request off only if it is
/// the response to it.
pub proof fn law_dispatch<W>(client: &mut McpClient<W>, raw: &Json, action: Dispatch<W>)
    requires
        call_ensures(McpClient::<W>::dispatch, (client, raw), action),
    ensures
        action is Malformed <==> !makes_sense(raw@),
        !(action is Resolved) ==> final(client)@ == old(client)@,
        makes_sense(raw@) ==> {
            let m = raw@->Object_0;
            let id = m["id"@]->PosInt_0;
            let request = brings(m, "id"@) && brings(m, "method"@) && !brings(m, "result"@)
                && !brings(m, "error"@);
            let response = brings(m, "id"@) && !request;
            &&& action is Resolved <==> response && old(client)@.pending.contains_key(id)
            &&& action is Orphan <==> response && !old(client)@.pending.contains_key(id)
            &&& action is Reply <==> request
            &&& action is Notification <==> !brings(m, "id"@) && brings(m, "method"@)
            &&& action is Resolved ==> {
                &&& action->Resolved_id == id
                &&& action->Resolved_waiter == old(client)@.pending[id]
                &&& is_outcome_of(m, action->Resolved_outcome)
                &&& final(client)@.pending == old(client)@.pending.remove(id)
                &&& final(client)@.next_id == old(client)@.next_id
            }
            &&& action is Orphan ==> action->Orphan_id == id
            &&& action is Reply ==> answers(action->Reply_0@, id, m["method"@]->Str_0)
            &&& action is Notification ==> tells_of(m, action->Notification_0)
        },
{
    lemma_names();
}

/// A wait comes to what ended it. Where no answer can come any more, the request is taken off; the
/// others stay.
pub proof fn law_settle<W>(
    client: &mut McpClient<W>,
    call: &Call,
    end: WaitEnd,
    outcome: Result<Json, McpError>,
)
    requires
        call_ensures(McpClient::<W>::settle, (client, call, end), outcome),
    ensures
        final(client)@.next_id == old(client)@.next_id,
        end is SendFailed || end is TimedOut ==> final(client)@.pending == old(
            client,
        )@.pending.remove(call.id),
        end is Answered || end is Dropped ==> final(client)@.pending == old(client)@.pending,
        match end {
            WaitEnd::SendFailed(error) => outcome is Err && outcome->Err_0@ == error@,
            WaitEnd::Answered(Ok(value)) => outcome is Ok && outcome->Ok_0@ == value@,
            WaitEnd::Answered(Err(error)) => outcome is Err && outcome->Err_0@ == error@,
            WaitEnd::Dropped => outcome is Err && outcome->Err_0 is ConnectionLost,
            WaitEnd::TimedOut => {
                &&& outcome is Err
                &&& outcome->Err_0 is Timeout
                &&& outcome->Err_0->Timeout_id == call.id
                &&& outcome->Err_0->Timeout_method@ == call.method@
            },
        },
{
}

/// When all is given up, each waiter is woken once with the news that the connection is lost, no
/// other is, and none is left.
pub proof fn law_fail_all_pending<W>(
    client: &mut McpClient<W>,
    deliveries: Vec<Delivery<W>>,
    id: u64,
)
    requires
        call_ensures(McpClient::<W>::fail_all_pending, (client,), deliveries),
    ensures
        final(client)@.next_id == old(client)@.next_id,
        !final(client)@.pending.contains_key(id),
        old(client)@.pending.contains_key(id) <==> exists|i: int|
            0 <= i < deliveries@.len() && (#[trigger] deliveries@[i]).id == id,
        forall|i: int|
            0 <= i < deliveries@.len() ==> {
                &&& (#[trigger] deliveries@[i]).waiter == old(
                    client,
                )@.pending[deliveries@[i].id]
                &&& deliveries@[i].outcome is Err
                &&& deliveries@[i].outcome->Err_0 is ConnectionLost
            },
        forall|i: int, j: int|
            0 <= i < deliveries@.len() && 0 <= j < deliveries@.len() && i != j
                ==> (#[trigger] deliveries@[i]).id != (#[trigger] deliveries@[j]).id,
{
}

// ---------------------------------------------------------------------------
// What results stand for
// ---------------------------------------------------------------------------

/// A value is read from JSON exactly if the JSON stands for one, and it is that one.
pub proof fn law_from_json<T: Decode>(json: &Json, value: Option<T>)
    requires
        call_ensures(T::from_json, (json,), value),
    ensures
        value is Some <==> T::decoded(json@) is Some,
        value is Some ==> T::decoded(json@) == Some(value->0@),
{
}

/// A value is written as the JSON that stands for it.
pub proof fn law_to_json<T: Encode>(value: &T, json: Json)
    requires
        call_ensures(T::to_json, (value,), json),
    ensures
        json@ == T::encoded(value@),
{
}

/// A tool is read from an object by its members: its name, its description, its schema, its hints
/// and its further data, each from the member that bears that name.
pub proof fn law_tool_from_json(json: &Json, m: Map<Seq<char>, JsonView>, tool: Option<McpTool>)
    requires
        call_ensures(<McpTool as Decode>::from_json, (json,), tool),
        json@ == JsonView::Object(m),
    ensures
        tool is Some ==> {
            let annotations = m["annotations"@]->Object_0;
            &&& m.contains_key("name"@)
            &&& m["name"@] == JsonView::Str(tool->0.name@)
            &&& tool->0.description is Some <==> m.contains_key("description"@)
                && m["description"@] is Str
            &&& tool->0.description is Some ==> m["description"@] == JsonView::Str(
                tool->0.description->0@,
            )
            &&& m.contains_key("inputSchema"@) ==> tool->0.input_schema@ == m["inputSchema"@]
            &&& !m.contains_key("inputSchema"@) ==> tool->0.input_schema@ == JsonView::Object(
                map!["type"@ => JsonView::Str("object"@)],
            )
            &&& m.contains_key("_meta"@) ==> tool->0.meta@ == m["_meta"@]
            &&& !m.contains_key("_meta"@) ==> tool->0.meta@ is Null
            &&& m.contains_key("annotations"@) && m["annotations"@] is Object ==> {
                &&& tool->0.annotations.read_only_hint <==> annotations.contains_key(
                    "readOnlyHint"@,
                ) && annotations["readOnlyHint"@] == JsonView::Bool(true)
                &&& tool->0.annotations.destructive_hint <==> annotations.contains_key(
                    "destructiveHint"@,
                ) && annotations["destructiveHint"@] == JsonView::Bool(true)
                &&& tool->0.annotations.idempotent_hint <==> annotations.contains_key(
                    "idempotentHint"@,
                ) && annotations["idempotentHint"@] == JsonView::Bool(true)
                &&& tool->0.annotations.open_world_hint <==> annotations.contains_key(
                    "openWorldHint"@,
                ) && annotations["openWorldHint"@] == JsonView::Bool(true)
            }
        },
        m.contains_key("name"@) && m["name"@] is Str && !m.contains_key("description"@)
            && !m.contains_key("annotations"@) ==> tool is Some,
{
}

/// A request whose result must be of a certain form comes to what the result stands for. An error
/// is passed on, and a result that stands for nothing is an error.
pub proof fn law_results_are_read(
    outcome: Result<Json, McpError>,
    init: Result<InitializeResult, McpError>,
    called: Result<CallToolResult, McpError>,
    read: Result<ReadResourceResult, McpError>,
)
    ensures
        call_ensures(initialize_result, (outcome,), init) ==> match (outcome, init) {
            (Err(error), Err(told)) => told@ == error@,
            (Ok(json), Ok(value)) => InitializeResult::decoded(json@) == Some(value@),
            (Ok(json), Err(told)) => InitializeResult::decoded(json@) is None && told is Serde,
            (Err(_), Ok(_)) => false,
        },
        call_ensures(call_tool_result, (outcome,), called) ==> match (outcome, called) {
            (Err(error), Err(told)) => told@ == error@,
            (Ok(json), Ok(value)) => CallToolResult::decoded(json@) == Some(value@),
            (Ok(json), Err(told)) => CallToolResult::decoded(json@) is None && told is Serde,
            (Err(_), Ok(_)) => false,
        },
        call_ensures(read_resource_result, (outcome,), read) ==> match (outcome, read) {
            (Err(error), Err(told)) => told@ == error@,
            (Ok(json), Ok(value)) => ReadResourceResult::decoded(json@) == Some(value@),
            (Ok(json), Err(told)) => ReadResourceResult::decoded(json@) is None && told is Serde,
            (Err(_), Ok(_)) => false,
        },
{
}

/// The tools of a server are all those that its result lists, in their order, each with the name,
/// the schema and the further data of its item. An error is passed on.
pub proof fn law_list_tools_result(
    outcome: Result<Json, McpError>,
    m: Map<Seq<char>, JsonView>,
    items: Seq<JsonView>,
    result: Result<Vec<McpTool>, McpError>,
)
    requires
        call_ensures(list_tools_result, (outcome,), result),
    ensures
        outcome is Err ==> result is Err && result->Err_0@ == outcome->Err_0@,
        outcome is Ok && outcome->Ok_0@ == JsonView::Object(m) && m.contains_key("tools"@)
            && m["tools"@] == JsonView::Array(items) ==> {
            &&& result is Ok <==> forall|i: int|
                0 <= i < items.len() ==> McpTool::decoded(#[trigger] items[i]) is Some
            &&& result is Err ==> result->Err_0 is Serde
            &&& result is Ok ==> result->Ok_0@.len() == items.len() && forall|i: int|
                0 <= i < items.len() ==> {
                    let t = items[i]->Object_0;
                    let tool = #[trigger] result->Ok_0@[i];
                    &&& McpTool::decoded(items[i]) == Some(tool@)
                    &&& items[i] is Object ==> {
                        &&& t["name"@] == JsonView::Str(tool.name@)
                        &&& t.contains_key("inputSchema"@) ==> tool.input_schema@
                            == t["inputSchema"@]
                        &&& t.contains_key("_meta"@) ==> tool.meta@ == t["_meta"@]
                    }
                }
        },
{
    if outcome is Ok && outcome->Ok_0@ == JsonView::Object(m) && m.contains_key("tools"@)
        && m["tools"@] == JsonView::Array(items) {
        law_tools_are_those_listed(m, items, ErrorView::Cancelled);
    }
}

/// The resources of a server are all those that its result lists, in their order. Whatever goes
/// wrong, there are none.
pub proof fn law_list_resources_result(
    outcome: Result<Json, McpError>,
    m: Map<Seq<char>, JsonView>,
    items: Seq<JsonView>,
    resources: Vec<McpResource>,
)
    requires
        call_ensures(list_resources_result, (outcome,), resources),
    ensures
        outcome is Err ==> resources@.len() == 0,
        outcome is Ok && outcome->Ok_0@ == JsonView::Object(m) && m.contains_key("resources"@)
            && m["resources"@] == JsonView::Array(items) ==> {
            let fine = forall|i: int|
                0 <= i < items.len() ==> McpResource::decoded(#[trigger] items[i]) is Some;
            &&& fine ==> resources@.len() == items.len() && forall|i: int|
                0 <= i < items.len() ==> McpResource::decoded(items[i]) == Some(
                    (#[trigger] resources@[i])@,
                )
            &&& !fine ==> resources@.len() == 0
        },
{
    assert(views(resources@).len() == resources@.len());
    if outcome is Ok && outcome->Ok_0@ == JsonView::Object(m) && m.contains_key("resources"@)
        && m["resources"@] == JsonView::Array(items) {
        law_resources_are_those_listed(m, items, ErrorView::Cancelled);
        assert(views(resources@) == resources_in(Ok(JsonView::Object(m))));
        assert forall|i: int| 0 <= i < resources@.len() implies views(resources@)[i] == (
        #[trigger] resources@[i])@ by {}
    }
}

/// The prompts of a server are all those that its result lists, in their order. Whatever goes
/// wrong, there are none.
pub proof fn law_list_prompts_result(
    outcome: Result<Json, McpError>,
    m: Map<Seq<char>, JsonView>,
    items: Seq<JsonView>,
    prompts: Vec<McpPrompt>,
)
    requires
        call_ensures(list_prompts_result, (outcome,), prompts),
    ensures
        outcome is Err ==> prompts@.len() == 0,
        outcome is Ok && outcome->Ok_0@ == JsonView::Object(m) && m.contains_key("prompts"@)
            && m["prompts"@] == JsonView::Array(items) ==> {
            let fine = forall|i: int|
                0 <= i < items.len() ==> McpPrompt::decoded(#[trigger] items[i]) is Some;
            &&& fine ==> prompts@.len() == items.len() && forall|i: int|
                0 <= i < items.len() ==> McpPrompt::decoded(items[i]) == Some(
                    (#[trigger] prompts@[i])@,
                )
            &&& !fine ==> prompts@.len() == 0
        },
{
    assert(views(prompts@).len() == prompts@.len());
    if outcome is Ok && outcome->Ok_0@ == JsonView::Object(m) && m.contains_key("prompts"@)
        && m["prompts"@] == JsonView::Array(items) {
        law_prompts_are_those_listed(m, items, ErrorView::Cancelled);
        assert(views(prompts@) == prompts_in(Ok(JsonView::Object(m))));
        assert forall|i: int| 0 <= i < prompts@.len() implies views(prompts@)[i] == (
        #[trigger] prompts@[i])@ by {}
    }
}

} // verus!
