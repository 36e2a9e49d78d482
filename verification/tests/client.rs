use tokimo_package_mcp::client::{
    call_tool_result, initialize_result, list_prompts_result, list_resources_result,
    list_tools_result, read_resource_result, Dispatch, WaitEnd, DEFAULT_TIMEOUT_SECS,
    UNEXPECTED_RESULT,
};
use tokimo_package_mcp::{ClientInfo, Json, McpClient, McpContent, McpError, McpNotification};

fn json(text: &str) -> Json {
    Json::from_text(text).unwrap()
}

fn text(json: &Json) -> String {
    String::from_utf8(json.to_bytes()).unwrap()
}

fn info() -> ClientInfo {
    ClientInfo { name: "tokimo-test".to_string(), version: "0.0.0".to_string() }
}

#[test]
fn requests_say_what_they_ask_for() {
    let mut client: McpClient<()> = McpClient::new();
    assert_eq!(
        text(&client.initialize(&info(), ()).message),
        r#"{"id":1,"jsonrpc":"2.0","method":"initialize","params":{"capabilities":{"roots":{"listChanged":false},"sampling":{}},"clientInfo":{"name":"tokimo-test","version":"0.0.0"},"protocolVersion":"2024-11-05"}}"#
    );
    assert_eq!(text(&client.list_tools(()).message), r#"{"id":2,"jsonrpc":"2.0","method":"tools/list","params":{}}"#);
    assert_eq!(
        text(&client.list_resources(()).message),
        r#"{"id":3,"jsonrpc":"2.0","method":"resources/list","params":{}}"#
    );
    assert_eq!(
        text(&client.list_prompts(()).message),
        r#"{"id":4,"jsonrpc":"2.0","method":"prompts/list","params":{}}"#
    );
    assert_eq!(
        text(&client.call_tool("echo", json(r#"{"x":1}"#), ()).message),
        r#"{"id":5,"jsonrpc":"2.0","method":"tools/call","params":{"arguments":{"x":1},"name":"echo"}}"#
    );
    let call = client.read_resource("file:///a", ());
    assert_eq!(
        text(&call.message),
        r#"{"id":6,"jsonrpc":"2.0","method":"resources/read","params":{"uri":"file:///a"}}"#
    );
    assert_eq!(call.id, 6);
    assert_eq!(call.method, "resources/read");
    assert_eq!(
        text(&client.send_notification("notifications/initialized", json("{}"))),
        r#"{"jsonrpc":"2.0","method":"notifications/initialized","params":{}}"#
    );
    assert_eq!(
        text(&client.notify_initialized()),
        r#"{"jsonrpc":"2.0","method":"notifications/initialized","params":{}}"#
    );
}

#[test]
fn responses_reach_their_callers_in_any_order() {
    let mut client = McpClient::new();
    let first = client.list_tools("first");
    let second = client.list_tools("second");
    assert!(matches!(
        client.dispatch(&json(&format!(r#"{{"id":{},"result":2}}"#, second.id))),
        Dispatch::Resolved { id: 2, waiter: "second", outcome: Ok(Json::PosInt(2)) }
    ));
    assert!(matches!(
        client.dispatch(&json(r#"{"method":"notifications/tools/list_changed"}"#)),
        Dispatch::Notification(McpNotification::ToolsListChanged)
    ));
    assert!(matches!(
        client.dispatch(&json(&format!(r#"{{"id":{},"error":{{"code":3,"message":"m"}}}}"#, first.id))),
        Dispatch::Resolved {
            id: 1,
            waiter: "first",
            outcome: Err(McpError::ServerError { code: 3, .. })
        }
    ));
}

#[test]
fn a_second_response_is_an_orphan() {
    let mut client = McpClient::new();
    client.list_tools(());
    let response = json(r#"{"id":1,"result":{}}"#);
    assert!(matches!(client.dispatch(&response), Dispatch::Resolved { .. }));
    assert!(matches!(client.dispatch(&response), Dispatch::Orphan { id: 1 }));
}

#[test]
fn a_late_response_is_an_orphan() {
    let mut client = McpClient::new();
    let call = client.list_tools(());
    let outcome = client.settle(&call, WaitEnd::TimedOut);
    assert_eq!(
        outcome.unwrap_err().message(),
        "timeout waiting for response (id=1, method=tools/list)"
    );
    assert!(matches!(client.dispatch(&json(r#"{"id":1,"result":{}}"#)), Dispatch::Orphan { id: 1 }));
    assert_eq!(DEFAULT_TIMEOUT_SECS, 60);
}

#[test]
fn a_request_that_is_not_sent_is_forgotten() {
    let mut client = McpClient::new();
    let call = client.list_tools(());
    let outcome = client.settle(&call, WaitEnd::SendFailed(McpError::Io("gone".to_string())));
    assert_eq!(outcome.unwrap_err().message(), "transport I/O: gone");
    assert!(client.fail_all_pending().is_empty());
}

#[test]
fn the_end_of_a_wait_decides() {
    let mut client = McpClient::new();
    let call = client.list_tools(());
    assert!(matches!(client.settle(&call, WaitEnd::Dropped), Err(McpError::ConnectionLost)));
    assert!(matches!(
        client.settle(&call, WaitEnd::Answered(Ok(Json::Bool(true)))),
        Ok(Json::Bool(true))
    ));
    assert!(matches!(
        client.settle(&call, WaitEnd::Answered(Err(McpError::NeedsAuth))),
        Err(McpError::NeedsAuth)
    ));
}

#[test]
fn a_closed_transport_fails_every_request() {
    let mut client = McpClient::new();
    for name in ["a", "b", "c"] {
        client.list_tools(name);
    }
    client.dispatch(&json(r#"{"id":2,"result":null}"#));
    let mut failed: Vec<(u64, &str)> = Vec::new();
    for delivery in client.fail_all_pending() {
        assert!(matches!(delivery.outcome, Err(McpError::ConnectionLost)));
        failed.push((delivery.id, delivery.waiter));
    }
    failed.sort();
    assert_eq!(failed, vec![(1, "a"), (3, "c")]);
    assert!(client.fail_all_pending().is_empty());
    assert!(matches!(client.dispatch(&json(r#"{"id":1,"result":null}"#)), Dispatch::Orphan { id: 1 }));
    assert_eq!(client.list_tools("d").id, 4);
}

#[test]
fn requests_of_the_server_are_answered() {
    let mut client = McpClient::new();
    client.list_tools(());
    let Dispatch::Reply(reply) = client.dispatch(&json(r#"{"jsonrpc":"2.0","id":1,"method":"roots/list"}"#)) else {
        panic!("no reply")
    };
    assert_eq!(text(&reply), r#"{"id":1,"jsonrpc":"2.0","result":{"roots":[]}}"#);
    assert!(matches!(client.dispatch(&json(r#"{"id":1,"result":5}"#)), Dispatch::Resolved { .. }));
}

#[test]
fn noise_changes_nothing() {
    let mut client = McpClient::new();
    client.list_tools(());
    assert!(matches!(client.dispatch(&json("[]")), Dispatch::Malformed));
    assert!(matches!(client.dispatch(&json("{}")), Dispatch::Ignored));
    assert!(matches!(client.dispatch(&json(r#"{"id":9}"#)), Dispatch::Orphan { id: 9 }));
    assert_eq!(client.fail_all_pending().len(), 1);
}

#[test]
fn results_must_be_of_the_expected_form() {
    let init = initialize_result(Ok(json(r#"{"protocolVersion":"v"}"#))).unwrap();
    assert_eq!(init.protocol_version, "v");
    let wrong = initialize_result(Ok(Json::Null)).unwrap_err();
    assert_eq!(wrong.message(), format!("serde: {UNEXPECTED_RESULT}"));
    assert!(matches!(initialize_result(Err(McpError::NeedsAuth)), Err(McpError::NeedsAuth)));
    let call = call_tool_result(Ok(json(r#"{"content":[{"type":"text","text":"t"}]}"#))).unwrap();
    assert!(matches!(&call.content[0], McpContent::Text { text } if text == "t"));
    assert!(call_tool_result(Ok(json("1"))).is_err());
    assert_eq!(read_resource_result(Ok(json(r#"{"contents":[1]}"#))).unwrap().contents.len(), 1);
    assert!(read_resource_result(Err(McpError::ConnectionLost)).is_err());
    assert_eq!(list_tools_result(Ok(json(r#"{"tools":[{"name":"a"}]}"#))).unwrap()[0].name, "a");
    assert!(list_tools_result(Ok(Json::Null)).is_err());
    assert!(matches!(list_tools_result(Err(McpError::Cancelled)), Err(McpError::Cancelled)));
}

#[test]
fn what_a_server_does_not_list_it_does_not_have() {
    assert_eq!(list_resources_result(Ok(json(r#"{"resources":[{"uri":"u"}]}"#)))[0].uri, "u");
    assert!(list_resources_result(Ok(Json::Null)).is_empty());
    assert!(list_resources_result(Ok(json(r#"{"resources":[{}]}"#))).is_empty());
    assert!(list_resources_result(Err(McpError::ConnectionLost)).is_empty());
    assert_eq!(list_prompts_result(Ok(json(r#"{"prompts":[{"name":"p"}]}"#)))[0].name, "p");
    assert!(list_prompts_result(Ok(json("[[1]]"))).is_empty());
    assert!(list_prompts_result(Err(McpError::NeedsAuth)).is_empty());
}
