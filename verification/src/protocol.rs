//! JSON-RPC 2.0 messages: how the client's are written and how a server's are understood.

use vstd::prelude::*;

use crate::error::{ErrorView, McpError};
use crate::json::{as_signed, member, option_view, Json, JsonView};
use crate::record::{
    no_fields, optional_text_of, read_optional_text, read_text, read_value, set_field, text_of,
    value_of, Decode, Encode,
};
use crate::text::same_text;
use crate::types::{McpNotification, NotificationView};

verus! {

pub const JSON_RPC_VERSION: &'static str = "2.0";

/// The version of the protocol that the client asks for.
pub const MCP_PROTOCOL_VERSION: &'static str = "2024-11-05";

/// The JSON-RPC error code for a method that the receiver does not offer.
pub const METHOD_NOT_FOUND: i64 = -32601;

// ---------------------------------------------------------------------------
// Messages that are sent
// ---------------------------------------------------------------------------

/// A request: it has an id, and expects a response that bears it.
pub open spec fn request_message(id: u64, method: Seq<char>, params: JsonView) -> JsonView {
    JsonView::Object(
        map![
            "jsonrpc"@ => JsonView::Str("2.0"@),
            "id"@ => JsonView::PosInt(id),
            "method"@ => JsonView::Str(method),
            "params"@ => params,
        ],
    )
}

/// A notification: it has no id, and expects nothing.
pub open spec fn notification_message(method: Seq<char>, params: JsonView) -> JsonView {
    JsonView::Object(
        map![
            "jsonrpc"@ => JsonView::Str("2.0"@),
            "method"@ => JsonView::Str(method),
            "params"@ => params,
        ],
    )
}

/// The response that gives a request's result.
pub open spec fn result_message(id: u64, result: JsonView) -> JsonView {
    JsonView::Object(
        map![
            "jsonrpc"@ => JsonView::Str("2.0"@),
            "id"@ => JsonView::PosInt(id),
            "result"@ => result,
        ],
    )
}

/// The response that says why a request failed.
pub open spec fn error_message(id: u64, code: i64, message: Seq<char>) -> JsonView {
    JsonView::Object(
        map![
            "jsonrpc"@ => JsonView::Str("2.0"@),
            "id"@ => JsonView::PosInt(id),
            "error"@ => JsonView::Object(
                map![
                    "code"@ => crate::json::signed(code),
                    "message"@ => JsonView::Str(message),
                ],
            ),
        ],
    )
}

/// A request of the client.
pub struct JsonRpcRequest<'a> {
    pub id: u64,
    pub method: &'a str,
    pub params: Json,
}

/// [`JsonRpcRequest`] as mathematics.
pub struct RequestView {
    pub id: u64,
    pub method: Seq<char>,
    pub params: JsonView,
}

impl<'a> View for JsonRpcRequest<'a> {
    type V = RequestView;

    open spec fn view(&self) -> RequestView {
        RequestView { id: self.id, method: self.method@, params: self.params@ }
    }
}

impl<'a> Encode for JsonRpcRequest<'a> {
    open spec fn encoded(value: RequestView) -> JsonView {
        request_message(value.id, value.method, value.params)
    }

    fn to_json(&self) -> (json: Json) {
        let mut fields = no_fields();
        set_field(&mut fields, "jsonrpc", Json::Str(JSON_RPC_VERSION.to_owned()));
        set_field(&mut fields, "id", Json::PosInt(self.id));
        set_field(&mut fields, "method", Json::Str(self.method.to_owned()));
        set_field(&mut fields, "params", self.params.clone());
        Json::Object(fields)
    }
}

/// Writes a notification.
pub fn notification(method: &str, params: Json) -> (message: Json)
    ensures
        message@ == notification_message(method@, params@),
{
    let mut fields = no_fields();
    set_field(&mut fields, "jsonrpc", Json::Str(JSON_RPC_VERSION.to_owned()));
    set_field(&mut fields, "method", Json::Str(method.to_owned()));
    set_field(&mut fields, "params", params);
    Json::Object(fields)
}

// ---------------------------------------------------------------------------
// Messages that are received
// ---------------------------------------------------------------------------

/// A field that is null or left out for nothing.
pub open spec fn optional_value_of(field: Option<JsonView>) -> Option<JsonView> {
    match field {
        Some(JsonView::Null) => None,
        _ => field,
    }
}

/// A field that holds an id, or is null or left out.
pub open spec fn optional_id_of(field: Option<JsonView>) -> Option<Option<u64>> {
    match field {
        None => Some(None),
        Some(JsonView::Null) => Some(None),
        Some(JsonView::PosInt(id)) => Some(Some(id)),
        _ => None,
    }
}

/// The error in a response.
#[derive(Debug, Clone)]
pub struct JsonRpcError {
    pub code: i64,
    pub message: String,
}

/// [`JsonRpcError`] as mathematics.
pub struct RpcErrorView {
    pub code: i64,
    pub message: Seq<char>,
}

impl View for JsonRpcError {
    type V = RpcErrorView;

    open spec fn view(&self) -> RpcErrorView {
        RpcErrorView { code: self.code, message: self.message@ }
    }
}

impl Decode for JsonRpcError {
    open spec fn decoded(json: JsonView) -> Option<RpcErrorView> {
        match (member(json, "code"@), text_of(member(json, "message"@))) {
            (Some(code), Some(message)) => match as_signed(code) {
                Some(code) => Some(RpcErrorView { code, message }),
                None => None,
            },
            _ => None,
        }
    }

    fn from_json(json: &Json) -> (value: Option<JsonRpcError>) {
        match (json.get("code"), read_text(json.get("message"))) {
            (Some(code), Some(message)) => match code.as_i64() {
                Some(code) => Some(JsonRpcError { code, message }),
                None => None,
            },
            _ => None,
        }
    }
}

/// A field that holds an error, or is null or left out.
pub open spec fn optional_error_of(field: Option<JsonView>) -> Option<Option<RpcErrorView>> {
    match optional_value_of(field) {
        None => Some(None),
        Some(json) => match JsonRpcError::decoded(json) {
            Some(error) => Some(Some(error)),
            None => None,
        },
    }
}

/// Any message of a server. Which of the fields are there tells what kind of message it is.
#[derive(Debug, Clone)]
pub struct JsonRpcResponse {
    pub id: Option<u64>,
    pub result: Option<Json>,
    pub error: Option<JsonRpcError>,
    pub method: Option<String>,
    pub params: Option<Json>,
}

/// [`JsonRpcResponse`] as mathematics.
#[verifier::ext_equal]
pub struct ResponseView {
    pub id: Option<u64>,
    pub result: Option<JsonView>,
    pub error: Option<RpcErrorView>,
    pub method: Option<Seq<char>>,
    pub params: Option<JsonView>,
}

impl View for JsonRpcResponse {
    type V = ResponseView;

    open spec fn view(&self) -> ResponseView {
        ResponseView {
            id: self.id,
            result: option_view(self.result),
            error: option_view(self.error),
            method: option_view(self.method),
            params: option_view(self.params),
        }
    }
}

fn read_optional_value(field: Option<&Json>) -> (value: Option<Json>)
    ensures
        option_view(value) == optional_value_of(option_view(field)),
{
    match field {
        None => None,
        Some(Json::Null) => None,
        Some(value) => Some(value.clone()),
    }
}

fn read_optional_id(field: Option<&Json>) -> (id: Option<Option<u64>>)
    ensures
        id == optional_id_of(option_view(field)),
{
    match field {
        None => Some(None),
        Some(Json::Null) => Some(None),
        Some(value) => match value.as_u64() {
            Some(id) => Some(Some(id)),
            None => None,
        },
    }
}

fn read_optional_error(field: Option<&Json>) -> (error: Option<Option<JsonRpcError>>)
    ensures
        optional_error_of(option_view(field)) == (match error {
            Some(error) => Some(option_view(error)),
            None => None,
        }),
{
    match field {
        None => Some(None),
        Some(Json::Null) => Some(None),
        Some(json) => match JsonRpcError::from_json(json) {
            Some(error) => Some(Some(error)),
            None => None,
        },
    }
}

impl Decode for JsonRpcResponse {
    open spec fn decoded(json: JsonView) -> Option<ResponseView> {
        let id = optional_id_of(member(json, "id"@));
        let error = optional_error_of(member(json, "error"@));
        let method = optional_text_of(member(json, "method"@));
        if json is Object && id is Some && error is Some && method is Some {
            Some(
                ResponseView {
                    id: id->0,
                    result: optional_value_of(member(json, "result"@)),
                    error: error->0,
                    method: method->0,
                    params: optional_value_of(member(json, "params"@)),
                },
            )
        } else {
            None
        }
    }

    fn from_json(json: &Json) -> (value: Option<JsonRpcResponse>) {
        let id = read_optional_id(json.get("id"));
        let error = read_optional_error(json.get("error"));
        let method = read_optional_text(json.get("method"));
        let result = read_optional_value(json.get("result"));
        let params = read_optional_value(json.get("params"));
        match (json, id, error, method) {
            (Json::Object(_), Some(id), Some(error), Some(method)) => Some(
                JsonRpcResponse { id, result, error, method, params },
            ),
            _ => None,
        }
    }
}

// ---------------------------------------------------------------------------
// What a message is about
// ---------------------------------------------------------------------------

/// What a server's message is about.
#[derive(Debug)]
pub enum Incoming {
    /// It is no JSON-RPC message.
    Malformed,
    /// It responds to the client's request of that id.
    Response { id: u64, outcome: Result<Json, McpError> },
    /// It asks the client for something.
    Request { id: u64, method: String },
    /// It tells the client something.
    Notification(McpNotification),
    /// It is about nothing.
    Ignored,
}

/// [`Incoming`] as mathematics.
#[verifier::ext_equal]
pub enum IncomingView {
    Malformed,
    Response { id: u64, outcome: Result<JsonView, ErrorView> },
    Request { id: u64, method: Seq<char> },
    Notification(NotificationView),
    Ignored,
}

/// The view of an outcome.
pub open spec fn outcome_view<T: View>(outcome: Result<T, McpError>) -> Result<T::V, ErrorView> {
    match outcome {
        Ok(value) => Ok(value@),
        Err(error) => Err(error@),
    }
}

impl View for Incoming {
    type V = IncomingView;

    open spec fn view(&self) -> IncomingView {
        match *self {
            Incoming::Malformed => IncomingView::Malformed,
            Incoming::Response { id, outcome } => IncomingView::Response {
                id,
                outcome: outcome_view(outcome),
            },
            Incoming::Request { id, method } => IncomingView::Request { id, method: method@ },
            Incoming::Notification(notification) => IncomingView::Notification(notification@),
            Incoming::Ignored => IncomingView::Ignored,
        }
    }
}

/// What a request came to: the error if there is one, and else the result, which may be null.
pub open spec fn outcome_of(result: Option<JsonView>, error: Option<RpcErrorView>) -> Result<
    JsonView,
    ErrorView,
> {
    match error {
        Some(error) => Err(ErrorView::ServerError { code: error.code, message: error.message }),
        None => Ok(value_of(result)),
    }
}

/// The notification that a method and its parameters stand for.
pub open spec fn notification_of(method: Seq<char>, params: JsonView) -> NotificationView {
    if method == "notifications/tools/list_changed"@ {
        NotificationView::ToolsListChanged
    } else if method == "notifications/resources/list_changed"@ {
        NotificationView::ResourcesListChanged
    } else if method == "notifications/prompts/list_changed"@ {
        NotificationView::PromptsListChanged
    } else if method == "notifications/progress"@ {
        NotificationView::Progress {
            token: value_of(member(params, "progressToken"@)),
            progress: params,
        }
    } else if method == "notifications/message"@ {
        NotificationView::LogMessage {
            level: match text_of(member(params, "level"@)) {
                Some(level) => level,
                None => "info"@,
            },
            data: value_of(member(params, "data"@)),
        }
    } else {
        NotificationView::Other { method, params }
    }
}

/// What a server's message is about.
///
/// A message with an id is a request if it names a method and brings neither a result nor an
/// error, and else a response. Without an id it is a notification if it names a method.
pub open spec fn incoming(raw: JsonView) -> IncomingView {
    match JsonRpcResponse::decoded(raw) {
        None => IncomingView::Malformed,
        Some(message) => match (message.id, message.method) {
            (Some(id), Some(method)) if message.result is None && message.error is None =>
                IncomingView::Request { id, method },
            (Some(id), _) => IncomingView::Response {
                id,
                outcome: outcome_of(message.result, message.error),
            },
            (None, Some(method)) => IncomingView::Notification(
                notification_of(method, value_of(message.params)),
            ),
            (None, None) => IncomingView::Ignored,
        },
    }
}

fn read_notification(method: String, params: Json) -> (notification: McpNotification)
    ensures
        notification@ == notification_of(method@, params@),
{
    if same_text(method.as_str(), "notifications/tools/list_changed") {
        McpNotification::ToolsListChanged
    } else if same_text(method.as_str(), "notifications/resources/list_changed") {
        McpNotification::ResourcesListChanged
    } else if same_text(method.as_str(), "notifications/prompts/list_changed") {
        McpNotification::PromptsListChanged
    } else if same_text(method.as_str(), "notifications/progress") {
        let token = read_value(params.get("progressToken"));
        McpNotification::Progress { token, progress: params }
    } else if same_text(method.as_str(), "notifications/message") {
        let level = match read_text(params.get("level")) {
            Some(level) => level,
            None => "info".to_owned(),
        };
        McpNotification::LogMessage { level, data: read_value(params.get("data")) }
    } else {
        McpNotification::Other { method, params }
    }
}

/// Tells what a server's message is about.
pub fn classify(raw: &Json) -> (about: Incoming)
    ensures
        about@ == incoming(raw@),
{
    let message = match JsonRpcResponse::from_json(raw) {
        Some(message) => message,
        None => {
            return Incoming::Malformed;
        },
    };
    match (message.id, message.method) {
        (Some(id), Some(method)) if message.result.is_none() && message.error.is_none() =>
            Incoming::Request { id, method },
        (Some(id), _) => Incoming::Response {
            id,
            outcome: match message.error {
                Some(error) => Err(
                    McpError::ServerError { code: error.code, message: error.message },
                ),
                None => Ok(
                    match message.result {
                        Some(result) => result,
                        None => Json::Null,
                    },
                ),
            },
        },
        (None, Some(method)) => Incoming::Notification(
            read_notification(
                method,
                match message.params {
                    Some(params) => params,
                    None => Json::Null,
                },
            ),
        ),
        (None, None) => Incoming::Ignored,
    }
}

// ---------------------------------------------------------------------------
// Answering the server
// ---------------------------------------------------------------------------

/// The roots that the client offers: none.
pub open spec fn no_roots() -> JsonView {
    JsonView::Object(map!["roots"@ => JsonView::Array(Seq::empty())])
}

/// The client's answer to a server's request. The only thing that it offers is the list of its
/// roots, which is empty; of any other method it says that it does not offer it.
pub open spec fn answer_message(id: u64, method: Seq<char>) -> JsonView {
    if method == "roots/list"@ {
        result_message(id, no_roots())
    } else {
        error_message(id, METHOD_NOT_FOUND, "method not found: "@ + method)
    }
}

/// Answers a server's request.
pub fn answer(id: u64, method: &str) -> (message: Json)
    ensures
        message@ == answer_message(id, method@),
{
    let mut fields = no_fields();
    set_field(&mut fields, "jsonrpc", Json::Str(JSON_RPC_VERSION.to_owned()));
    set_field(&mut fields, "id", Json::PosInt(id));
    if same_text(method, "roots/list") {
        let mut result = no_fields();
        set_field(&mut result, "roots", Json::Array(Vec::new()));
        set_field(&mut fields, "result", Json::Object(result));
    } else {
        let mut text = "method not found: ".to_owned();
        text.append(method);
        let mut error = no_fields();
        set_field(&mut error, "code", Json::NegInt(METHOD_NOT_FOUND));
        set_field(&mut error, "message", Json::Str(text));
        set_field(&mut fields, "error", Json::Object(error));
    }
    Json::Object(fields)
}

// ---------------------------------------------------------------------------
// Laws
// ---------------------------------------------------------------------------

/// The names of a message's fields, told apart by their lengths and first letters.
proof fn lemma_field_names()
    ensures
        "jsonrpc"@.len() == 7,
        "id"@.len() == 2,
        "method"@.len() == 6 && "method"@[0] == 'm',
        "params"@.len() == 6 && "params"@[0] == 'p',
        "result"@.len() == 6 && "result"@[0] == 'r',
        "error"@.len() == 5,
{
    reveal_strlit("jsonrpc");
    reveal_strlit("id");
    reveal_strlit("method");
    reveal_strlit("params");
    reveal_strlit("result");
    reveal_strlit("error");
}

/// A response that gives a result is understood as just that, whatever the result.
pub proof fn law_result_is_understood(id: u64, result: JsonView)
    ensures
        incoming(result_message(id, result)) == (IncomingView::Response {
            id,
            outcome: Ok(result),
        }),
{
    lemma_field_names();
}

/// A response that gives an error is understood as just that.
pub proof fn law_error_is_understood(id: u64, code: i64, message: Seq<char>)
    ensures
        incoming(error_message(id, code, message)) == (IncomingView::Response {
            id,
            outcome: Err(ErrorView::ServerError { code, message }),
        }),
{
    lemma_field_names();
    reveal_strlit("code");
    reveal_strlit("message");
    assert("code"@.len() == 4);
    assert("message"@.len() == 7);
    let error = JsonView::Object(
        map!["code"@ => crate::json::signed(code), "message"@ => JsonView::Str(message)],
    );
    assert(JsonRpcError::decoded(error) == Some(RpcErrorView { code, message }));
}

/// A request is never taken for a response, a notification or noise.
pub proof fn law_request_is_understood(id: u64, method: Seq<char>, params: JsonView)
    ensures
        incoming(request_message(id, method, params)) == (IncomingView::Request { id, method }),
{
    lemma_field_names();
}

/// A notification is understood as what its method and parameters stand for.
pub proof fn law_notification_is_understood(method: Seq<char>, params: JsonView)
    ensures
        incoming(notification_message(method, params)) == IncomingView::Notification(
            notification_of(method, params),
        ),
{
    lemma_field_names();
}

/// Every request of a server is answered with a response that bears the request's id. To
/// `roots/list` it is that there are no roots.
pub proof fn law_request_is_answered(raw: JsonView)
    requires
        incoming(raw) is Request,
    ensures
        ({
            let id = incoming(raw)->Request_id;
            let method = incoming(raw)->Request_method;
            &&& incoming(answer_message(id, method)) is Response
            &&& incoming(answer_message(id, method))->Response_id == id
            &&& method == "roots/list"@ ==> incoming(answer_message(id, method))->Response_outcome
                == Ok::<JsonView, ErrorView>(no_roots())
        }),
{
    let id = incoming(raw)->Request_id;
    let method = incoming(raw)->Request_method;
    law_result_is_understood(id, no_roots());
    law_error_is_understood(id, METHOD_NOT_FOUND, "method not found: "@ + method);
}

/// A request is an object that has these members and no others.
pub proof fn law_request_has_its_members(id: u64, method: Seq<char>, params: JsonView)
    ensures
        request_message(id, method, params) is Object,
        ({
            let m = request_message(id, method, params)->Object_0;
            &&& forall|key: Seq<char>| #[trigger]
                m.contains_key(key) <==> key == "jsonrpc"@ || key == "id"@ || key == "method"@
                    || key == "params"@
            &&& m["jsonrpc"@] == JsonView::Str("2.0"@)
            &&& m["id"@] == JsonView::PosInt(id)
            &&& m["method"@] == JsonView::Str(method)
            &&& m["params"@] == params
        }),
{
    lemma_field_names();
}

/// A notification is an object that has these members and no others; an id is not among them.
pub proof fn law_notification_has_its_members(method: Seq<char>, params: JsonView)
    ensures
        notification_message(method, params) is Object,
        ({
            let m = notification_message(method, params)->Object_0;
            &&& forall|key: Seq<char>| #[trigger]
                m.contains_key(key) <==> key == "jsonrpc"@ || key == "method"@ || key == "params"@
            &&& m["jsonrpc"@] == JsonView::Str("2.0"@)
            &&& m["method"@] == JsonView::Str(method)
            &&& m["params"@] == params
        }),
{
    lemma_field_names();
}

/// The answer to `roots/list` is a response that bears the request's id and gives an empty list
/// of roots. Any other method is refused with the code of JSON-RPC for that, and by its name.
pub proof fn law_answer_has_its_members(id: u64, method: Seq<char>)
    ensures
        answer_message(id, method) is Object,
        ({
            let m = answer_message(id, method)->Object_0;
            &&& m.contains_key("jsonrpc"@) && m["jsonrpc"@] == JsonView::Str("2.0"@)
            &&& m.contains_key("id"@) && m["id"@] == JsonView::PosInt(id)
            &&& !m.contains_key("method"@)
            &&& method == "roots/list"@ ==> {
                &&& !m.contains_key("error"@)
                &&& m.contains_key("result"@)
                &&& m["result"@] == JsonView::Object(
                    map!["roots"@ => JsonView::Array(Seq::empty())],
                )
            }
            &&& method != "roots/list"@ ==> {
                &&& !m.contains_key("result"@)
                &&& m.contains_key("error"@)
                &&& m["error"@] is Object
                &&& m["error"@]->Object_0.contains_key("code"@)
                &&& m["error"@]->Object_0["code"@] is NegInt
                &&& m["error"@]->Object_0["code"@]->NegInt_0 == -32601
                &&& m["error"@]->Object_0.contains_key("message"@)
                &&& m["error"@]->Object_0["message"@] == JsonView::Str(
                    "method not found: "@ + method,
                )
            }
        }),
{
    lemma_field_names();
    reveal_strlit("code");
    reveal_strlit("message");
    assert("code"@.len() == 4);
    assert("message"@.len() == 7);
}

/// A message makes sense exactly if it is an object whose id, method and error, where it has them
/// and they are not null, are an integer that is not negative, a string, and an object with a
/// code and a message.
pub proof fn law_message_makes_sense(raw: JsonView)
    ensures
        incoming(raw) is Malformed <==> !({
            let m = raw->Object_0;
            let error = m["error"@]->Object_0;
            &&& raw is Object
            &&& m.contains_key("id"@) ==> m["id"@] is Null || m["id"@] is PosInt
            &&& m.contains_key("method"@) ==> m["method"@] is Null || m["method"@] is Str
            &&& m.contains_key("error"@) && !(m["error"@] is Null) ==> {
                &&& m["error"@] is Object
                &&& error.contains_key("code"@)
                &&& error["code"@] is NegInt || (error["code"@] is PosInt
                    && error["code"@]->PosInt_0 <= i64::MAX)
                &&& error.contains_key("message"@)
                &&& error["message"@] is Str
            }
        }),
{
}

/// The message has this member, and it is not null.
pub open spec fn brings(m: Map<Seq<char>, JsonView>, name: Seq<char>) -> bool {
    m.contains_key(name) && !(m[name] is Null)
}

/// What a message that makes sense is about is told by its members. With an id it is a request if
/// it brings a method and neither result nor error, and else a response. Without an id it is a
/// notification if it brings a method.
pub proof fn law_message_is_told_by_its_members(m: Map<Seq<char>, JsonView>)
    requires
        !(incoming(JsonView::Object(m)) is Malformed),
    ensures
        ({
            let about = incoming(JsonView::Object(m));
            if brings(m, "id"@) && brings(m, "method"@) && !brings(m, "result"@) && !brings(
                m,
                "error"@,
            ) {
                &&& about is Request
                &&& m["id"@] == JsonView::PosInt(about->Request_id)
                &&& m["method"@] == JsonView::Str(about->Request_method)
            } else if brings(m, "id"@) {
                &&& about is Response
                &&& m["id"@] == JsonView::PosInt(about->Response_id)
            } else if brings(m, "method"@) {
                about is Notification
            } else {
                about is Ignored
            }
        }),
{
}

/// A response gives the error that it brings, by its code and message, and else the result that
/// it brings, which is null if it brings none.
pub proof fn law_response_gives_error_or_result(m: Map<Seq<char>, JsonView>)
    requires
        incoming(JsonView::Object(m)) is Response,
    ensures
        ({
            let outcome = incoming(JsonView::Object(m))->Response_outcome;
            if brings(m, "error"@) {
                let error = m["error"@]->Object_0;
                &&& outcome is Err
                &&& outcome->Err_0 is ServerError
                &&& error["code"@] == JsonView::NegInt(outcome->Err_0->ServerError_code) || (
                outcome->Err_0->ServerError_code >= 0 && error["code"@] == JsonView::PosInt(
                    outcome->Err_0->ServerError_code as u64,
                ))
                &&& error["message"@] == JsonView::Str(outcome->Err_0->ServerError_message)
            } else if brings(m, "result"@) {
                outcome == Ok::<JsonView, ErrorView>(m["result"@])
            } else {
                outcome == Ok::<JsonView, ErrorView>(JsonView::Null)
            }
        }),
{
}

/// The names of the notifications that are known, told apart by their lengths.
proof fn lemma_notification_names()
    ensures
        "notifications/tools/list_changed"@.len() == 32,
        "notifications/resources/list_changed"@.len() == 36,
        "notifications/prompts/list_changed"@.len() == 34,
        "notifications/progress"@.len() == 22,
        "notifications/message"@.len() == 21,
{
    reveal_strlit("notifications/tools/list_changed");
    reveal_strlit("notifications/resources/list_changed");
    reveal_strlit("notifications/prompts/list_changed");
    reveal_strlit("notifications/progress");
    reveal_strlit("notifications/message");
}

/// A notification that a list changed says which list, whatever its parameters.
pub proof fn law_list_changes_are_told(m: Map<Seq<char>, JsonView>)
    requires
        incoming(JsonView::Object(m)) is Notification,
    ensures
        ({
            let told = incoming(JsonView::Object(m))->Notification_0;
            &&& told is ToolsListChanged <==> m["method"@] == JsonView::Str(
                "notifications/tools/list_changed"@,
            )
            &&& told is ResourcesListChanged <==> m["method"@] == JsonView::Str(
                "notifications/resources/list_changed"@,
            )
            &&& told is PromptsListChanged <==> m["method"@] == JsonView::Str(
                "notifications/prompts/list_changed"@,
            )
        }),
{
    lemma_notification_names();
}

/// A log message gives its level, which is `info` if it names none, and whatever value it has for
/// data, which is null if it has none.
pub proof fn law_log_message_gives_its_data(
    m: Map<Seq<char>, JsonView>,
    p: Map<Seq<char>, JsonView>,
)
    requires
        incoming(JsonView::Object(m)) is Notification,
        m["method"@] == JsonView::Str("notifications/message"@),
        m.contains_key("params"@),
        m["params"@] == JsonView::Object(p),
    ensures
        ({
            let told = incoming(JsonView::Object(m))->Notification_0;
            &&& told is LogMessage
            &&& p.contains_key("level"@) && p["level"@] is Str ==> p["level"@] == JsonView::Str(
                told->LogMessage_level,
            )
            &&& !(p.contains_key("level"@) && p["level"@] is Str) ==> told->LogMessage_level
                == "info"@
            &&& p.contains_key("data"@) ==> told->LogMessage_data == p["data"@]
            &&& !p.contains_key("data"@) ==> told->LogMessage_data is Null
        }),
{
    lemma_notification_names();
}

/// A notification of progress gives its token, which is null if it has none, and all of its
/// parameters.
pub proof fn law_progress_gives_its_token(
    m: Map<Seq<char>, JsonView>,
    p: Map<Seq<char>, JsonView>,
)
    requires
        incoming(JsonView::Object(m)) is Notification,
        m["method"@] == JsonView::Str("notifications/progress"@),
        m.contains_key("params"@),
        m["params"@] == JsonView::Object(p),
    ensures
        ({
            let told = incoming(JsonView::Object(m))->Notification_0;
            &&& told is Progress
            &&& told->Progress_progress == JsonView::Object(p)
            &&& p.contains_key("progressToken"@) ==> told->Progress_token == p["progressToken"@]
            &&& !p.contains_key("progressToken"@) ==> told->Progress_token is Null
        }),
{
    lemma_notification_names();
}

/// A log message or progress whose parameters are no object has nothing to give.
pub proof fn law_notification_without_an_object(m: Map<Seq<char>, JsonView>)
    requires
        incoming(JsonView::Object(m)) is Notification,
        m.contains_key("params"@) ==> !(m["params"@] is Object),
    ensures
        ({
            let told = incoming(JsonView::Object(m))->Notification_0;
            let params = if m.contains_key("params"@) {
                m["params"@]
            } else {
                JsonView::Null
            };
            &&& m["method"@] == JsonView::Str("notifications/message"@) ==> told == (
            NotificationView::LogMessage { level: "info"@, data: JsonView::Null })
            &&& m["method"@] == JsonView::Str("notifications/progress"@) ==> told == (
            NotificationView::Progress { token: JsonView::Null, progress: params })
        }),
{
    lemma_notification_names();
}

/// A notification that is not known is passed on by its method and parameters, which are null if
/// it has none.
pub proof fn law_other_notifications_are_passed_on(m: Map<Seq<char>, JsonView>)
    requires
        incoming(JsonView::Object(m)) is Notification,
        m["method"@] != JsonView::Str("notifications/tools/list_changed"@),
        m["method"@] != JsonView::Str("notifications/resources/list_changed"@),
        m["method"@] != JsonView::Str("notifications/prompts/list_changed"@),
        m["method"@] != JsonView::Str("notifications/progress"@),
        m["method"@] != JsonView::Str("notifications/message"@),
    ensures
        ({
            let told = incoming(JsonView::Object(m))->Notification_0;
            &&& told is Other
            &&& m["method"@] == JsonView::Str(told->Other_method)
            &&& m.contains_key("params"@) ==> told->Other_params == m["params"@]
            &&& !m.contains_key("params"@) ==> told->Other_params is Null
        }),
{
}

/// An outcome shows its value or its error.
pub proof fn law_outcome_shows_what_it_holds<T: View>(outcome: Result<T, McpError>)
    ensures
        outcome is Ok ==> outcome_view(outcome) is Ok && outcome_view(outcome)->Ok_0
            == outcome->Ok_0@,
        outcome is Err ==> outcome_view(outcome) is Err && outcome_view(outcome)->Err_0
            == outcome->Err_0@,
{
}

/// What a message is about shows what it holds.
pub proof fn law_incoming_shows_what_it_holds(about: Incoming)
    ensures
        match about {
            Incoming::Malformed => about@ is Malformed,
            Incoming::Response { id, outcome } => {
                &&& about@ is Response
                &&& about@->Response_id == id
                &&& outcome is Ok ==> about@->Response_outcome == Ok::<JsonView, ErrorView>(
                    outcome->Ok_0@,
                )
                &&& outcome is Err ==> about@->Response_outcome == Err::<JsonView, ErrorView>(
                    outcome->Err_0@,
                )
            },
            Incoming::Request { id, method } => {
                &&& about@ is Request
                &&& about@->Request_id == id
                &&& about@->Request_method == method@
            },
            Incoming::Notification(told) => about@ == IncomingView::Notification(told@),
            Incoming::Ignored => about@ is Ignored,
        },
{
}

/// A request, a server's message and its error show each of their fields.
pub proof fn law_messages_show_their_fields(
    request: JsonRpcRequest,
    response: JsonRpcResponse,
    error: JsonRpcError,
)
    ensures
        request@.id == request.id,
        request@.method == request.method@,
        request@.params == request.params@,
        response@.id == response.id,
        response@.result is Some <==> response.result is Some,
        response.result is Some ==> response@.result->0 == response.result->0@,
        response@.error is Some <==> response.error is Some,
        response.error is Some ==> response@.error->0 == response.error->0@,
        response@.method is Some <==> response.method is Some,
        response.method is Some ==> response@.method->0 == response.method->0@,
        response@.params is Some <==> response.params is Some,
        response.params is Some ==> response@.params->0 == response.params->0@,
        error@.code == error.code,
        error@.message == error.message@,
{
}

} // verus!
