use tokimo_package_mcp::protocol::{answer, classify, notification, Incoming, JsonRpcRequest};
use tokimo_package_mcp::record::Encode;
use tokimo_package_mcp::{Json, McpError, McpNotification};

fn json(text: &str) -> Json {
    Json::from_text(text).unwrap()
}

fn text(json: &Json) -> String {
    String::from_utf8(json.to_bytes()).unwrap()
}

fn about(source: &str) -> Incoming {
    classify(&json(source))
}

#[test]
fn a_request_has_an_id() {
    let request = JsonRpcRequest { id: 3, method: "tools/list", params: json("{}") };
    assert_eq!(text(&request.to_json()), r#"{"id":3,"jsonrpc":"2.0","method":"tools/list","params":{}}"#);
}

#[test]
fn a_notification_has_none() {
    assert_eq!(
        text(&notification("notifications/initialized", json("{}"))),
        r#"{"jsonrpc":"2.0","method":"notifications/initialized","params":{}}"#
    );
}

#[test]
fn a_result_is_a_response() {
    let Incoming::Response { id: 4, outcome: Ok(result) } = about(r#"{"jsonrpc":"2.0","id":4,"result":{"a":1}}"#) else {
        panic!("no response")
    };
    assert_eq!(text(&result), r#"{"a":1}"#);
    assert!(matches!(
        about(r#"{"id":4,"result":null}"#),
        Incoming::Response { id: 4, outcome: Ok(Json::Null) }
    ));
    assert!(matches!(about(r#"{"id":4}"#), Incoming::Response { id: 4, outcome: Ok(Json::Null) }));
}

#[test]
fn an_error_is_a_response() {
    let Incoming::Response { id: 5, outcome: Err(error) } =
        about(r#"{"id":5,"result":1,"error":{"code":-32000,"message":"no","data":[]}}"#)
    else {
        panic!("no response")
    };
    assert_eq!(error.message(), "server error: code=-32000 message=no");
    assert!(matches!(error, McpError::ServerError { code: -32000, .. }));
}

#[test]
fn a_method_with_an_id_is_a_request_of_the_server() {
    assert!(matches!(
        about(r#"{"id":7,"method":"roots/list"}"#),
        Incoming::Request { id: 7, method } if method == "roots/list"
    ));
    assert!(matches!(
        about(r#"{"id":7,"method":"x","result":2}"#),
        Incoming::Response { id: 7, outcome: Ok(Json::PosInt(2)) }
    ));
}

#[test]
fn a_method_without_an_id_is_a_notification() {
    let of = |method: &str, params: &str| match about(&format!(r#"{{"method":"{method}","params":{params}}}"#)) {
        Incoming::Notification(notification) => notification,
        other => panic!("{other:?}"),
    };
    assert!(matches!(of("notifications/tools/list_changed", "null"), McpNotification::ToolsListChanged));
    assert!(matches!(of("notifications/resources/list_changed", "{}"), McpNotification::ResourcesListChanged));
    assert!(matches!(of("notifications/prompts/list_changed", "{}"), McpNotification::PromptsListChanged));
    let McpNotification::Progress { token, progress } =
        of("notifications/progress", r#"{"progressToken":9,"progress":1}"#)
    else {
        panic!("no progress")
    };
    assert_eq!(token.as_u64(), Some(9));
    assert_eq!(text(&progress), r#"{"progress":1,"progressToken":9}"#);
    assert!(matches!(
        of("notifications/progress", "{}"),
        McpNotification::Progress { token: Json::Null, .. }
    ));
    assert!(matches!(
        of("notifications/message", r#"{"level":"error","data":"x"}"#),
        McpNotification::LogMessage { level, data: Json::Str(data) } if level == "error" && data == "x"
    ));
    assert!(matches!(
        of("notifications/message", r#"{"level":3}"#),
        McpNotification::LogMessage { level, data: Json::Null } if level == "info"
    ));
    assert!(matches!(
        of("custom", "[1]"),
        McpNotification::Other { method, params: Json::Array(_) } if method == "custom"
    ));
}

#[test]
fn noise_is_told_from_nonsense() {
    assert!(matches!(about("{}"), Incoming::Ignored));
    assert!(matches!(about(r#"{"id":null,"result":1}"#), Incoming::Ignored));
    assert!(matches!(about("[]"), Incoming::Malformed));
    assert!(matches!(about("3"), Incoming::Malformed));
    assert!(matches!(about(r#"{"id":"a"}"#), Incoming::Malformed));
    assert!(matches!(about(r#"{"id":-1}"#), Incoming::Malformed));
    assert!(matches!(about(r#"{"id":1,"error":{"code":1}}"#), Incoming::Malformed));
    assert!(matches!(about(r#"{"id":1,"error":{"code":1.5,"message":"m"}}"#), Incoming::Malformed));
    assert!(matches!(about(r#"{"method":1}"#), Incoming::Malformed));
}

#[test]
fn the_server_is_told_that_there_are_no_roots() {
    assert_eq!(text(&answer(7, "roots/list")), r#"{"id":7,"jsonrpc":"2.0","result":{"roots":[]}}"#);
}

#[test]
fn the_server_is_told_what_is_not_offered() {
    assert_eq!(
        text(&answer(8, "sampling/createMessage")),
        r#"{"error":{"code":-32601,"message":"method not found: sampling/createMessage"},"id":8,"jsonrpc":"2.0"}"#
    );
}

#[test]
fn messages_of_the_client_are_understood_by_the_client() {
    let request = JsonRpcRequest { id: 3, method: "m", params: json("1") };
    assert!(matches!(classify(&request.to_json()), Incoming::Request { id: 3, method } if method == "m"));
    assert!(matches!(classify(&answer(3, "roots/list")), Incoming::Response { id: 3, outcome: Ok(_) }));
    assert!(matches!(classify(&answer(3, "m")), Incoming::Response { id: 3, outcome: Err(_) }));
}
