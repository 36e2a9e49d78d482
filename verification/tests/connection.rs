use tokimo_package_mcp::connection::{Action, Handshake, Outgoing, Progress};
use tokimo_package_mcp::{
    ClientInfo, Json, McpClient, McpConnection, McpConnectionState, McpError,
};

fn json(text: &str) -> Json {
    Json::from_text(text).unwrap()
}

/// Carries a handshake on with what each action comes to, and tells which actions it took.
fn carry_on(
    mut handshake: Handshake,
    mut perform: impl FnMut(Action) -> Result<Json, McpError>,
) -> (Vec<Action>, Result<McpConnection, McpError>) {
    let mut actions: Vec<Action> = Vec::new();
    loop {
        let action = handshake.action();
        actions.push(action);
        match handshake.step(perform(action)) {
            Progress::Next(next) => handshake = next,
            Progress::Connected(connection) => return (actions, Ok(connection)),
            Progress::Failed(error) => return (actions, Err(error)),
        }
    }
}

fn stub(action: Action) -> Result<Json, McpError> {
    Ok(match action {
        Action::Initialize => json(
            r#"{"protocolVersion":"2024-11-05","capabilities":{"tools":{}},"serverInfo":{"name":"stub"}}"#,
        ),
        Action::NotifyInitialized => Json::Null,
        Action::ListTools => json(r#"{"tools":[{"name":"echo"}]}"#),
        Action::ListResources => json(r#"{"resources":[{"uri":"u"}]}"#),
        Action::ListPrompts => json(r#"{"prompts":[{"name":"p"}]}"#),
    })
}

fn connected() -> McpConnection {
    carry_on(McpConnection::connect("stub".to_string()), stub).1.unwrap()
}

#[test]
fn a_handshake_makes_a_connection() {
    let (actions, result) = carry_on(McpConnection::connect("stub".to_string()), stub);
    assert_eq!(
        actions,
        vec![
            Action::Initialize,
            Action::NotifyInitialized,
            Action::ListTools,
            Action::ListResources,
            Action::ListPrompts,
        ]
    );
    let connection = result.unwrap();
    assert_eq!(connection.server_name, "stub");
    assert_eq!(connection.init.protocol_version, "2024-11-05");
    assert_eq!(connection.tools().len(), 1);
    assert_eq!(connection.tools()[0].name, "echo");
    assert_eq!(connection.resources()[0].uri, "u");
    assert_eq!(connection.prompts()[0].name, "p");
    assert!(matches!(connection.state(), McpConnectionState::Connected));
}

#[test]
fn a_server_need_not_list_anything() {
    let (actions, result) = carry_on(McpConnection::connect("s".to_string()), |action| match action {
        Action::Initialize => Ok(json("{}")),
        Action::NotifyInitialized => Ok(Json::Null),
        _ => Err(McpError::ServerError { code: -32601, message: "no".to_string() }),
    });
    assert_eq!(actions.len(), 5);
    let connection = result.unwrap();
    assert!(connection.tools().is_empty());
    assert!(connection.resources().is_empty());
    assert!(connection.prompts().is_empty());
}

#[test]
fn a_handshake_fails_with_the_server() {
    let (actions, result) =
        carry_on(McpConnection::connect("s".to_string()), |_| Err(McpError::NeedsAuth));
    assert_eq!(actions, vec![Action::Initialize]);
    assert!(matches!(result, Err(McpError::NeedsAuth)));
    let (_, result) = carry_on(McpConnection::connect("s".to_string()), |_| Ok(json("7")));
    assert!(matches!(result, Err(McpError::Serde(_))));
    let (actions, result) = carry_on(McpConnection::connect("s".to_string()), |action| match action {
        Action::Initialize => Ok(json("{}")),
        _ => Err(McpError::ConnectionLost),
    });
    assert_eq!(actions, vec![Action::Initialize, Action::NotifyInitialized]);
    assert!(matches!(result, Err(McpError::ConnectionLost)));
}

#[test]
fn tools_are_refreshed_or_kept() {
    let mut connection = connected();
    assert!(connection.refresh_tools(Err(McpError::ConnectionLost)).is_err());
    assert!(matches!(connection.refresh_tools(Ok(Json::Null)), Err(McpError::Serde(_))));
    assert_eq!(connection.tools()[0].name, "echo");
    assert!(connection.refresh_tools(Ok(json(r#"{"tools":[{"name":"a"},{"name":"b"}]}"#))).is_ok());
    assert_eq!(connection.tools().len(), 2);
    assert_eq!(connection.resources().len(), 1);
}

#[test]
fn the_state_is_what_was_set() {
    let mut connection = connected();
    connection.set_state(McpConnectionState::Failed("why".to_string()));
    assert!(matches!(connection.state(), McpConnectionState::Failed(why) if why == "why"));
    connection.set_state(McpConnectionState::NeedsAuth);
    assert!(matches!(connection.state(), McpConnectionState::NeedsAuth));
    assert_eq!(connection.tools().len(), 1);
}

#[test]
fn a_handshake_says_what_to_send() {
    let info = ClientInfo { name: "n".to_string(), version: "1".to_string() };
    let mut client: McpClient<u8> = McpClient::new();
    let handshake = McpConnection::connect("s".to_string());
    let Outgoing::Request(call) = handshake.act(&mut client, &info, 0) else { panic!("no request") };
    assert_eq!(call.id, 1);
    assert_eq!(
        String::from_utf8(call.message.to_bytes()).unwrap(),
        r#"{"id":1,"jsonrpc":"2.0","method":"initialize","params":{"capabilities":{"roots":{"listChanged":false},"sampling":{}},"clientInfo":{"name":"n","version":"1"},"protocolVersion":"2024-11-05"}}"#
    );
    assert!(handshake.init().is_none());
    let Progress::Next(handshake) = handshake.step(Ok(json(r#"{"protocolVersion":"2024-11-05"}"#))) else {
        panic!("not on")
    };
    assert!(handshake.init().is_none());
    let Outgoing::Notification(message) = handshake.act(&mut client, &info, 1) else { panic!("no notice") };
    assert_eq!(
        String::from_utf8(message.to_bytes()).unwrap(),
        r#"{"jsonrpc":"2.0","method":"notifications/initialized","params":{}}"#
    );
    let Progress::Next(handshake) = handshake.step(Ok(Json::Null)) else { panic!("not on") };
    let init = handshake.init().unwrap();
    assert_eq!(init.protocol_version, "2024-11-05");
    assert!(matches!(init.capabilities, Json::Null));
    assert!(matches!(init.server_info, Json::Null));
    assert_eq!(init.instructions, None);
    let Outgoing::Request(call) = handshake.act(&mut client, &info, 2) else { panic!("no request") };
    assert_eq!((call.id, call.method.as_str()), (2, "tools/list"));
    assert_eq!(client.fail_all_pending().len(), 2);
}

#[test]
fn a_lost_connection_is_no_longer_connected() {
    let mut connection = connected();
    connection.lost();
    assert!(matches!(connection.state(), McpConnectionState::Failed(why) if why == "connection lost"));
    assert_eq!(connection.tools().len(), 1);
}

#[test]
fn a_connection_is_made_anew() {
    let mut connection = connected();
    let handshake = connection.reconnect();
    assert!(matches!(connection.state(), McpConnectionState::Connecting));
    assert_eq!(connection.tools().len(), 1);
    let (_, result) = carry_on(handshake, |action| match action {
        Action::Initialize => Ok(json(r#"{"instructions":"new"}"#)),
        _ => Ok(Json::Null),
    });
    connection.reconnected(result);
    assert_eq!(connection.server_name, "stub");
    assert_eq!(connection.init.instructions.as_deref(), Some("new"));
    assert!(connection.tools().is_empty());
    assert!(matches!(connection.state(), McpConnectionState::Connected));
}

#[test]
fn a_connection_that_is_not_made_anew_says_why() {
    let mut connection = connected();
    connection.reconnect();
    connection.reconnected(Err(McpError::NeedsAuth));
    assert!(matches!(connection.state(), McpConnectionState::NeedsAuth));
    connection.reconnect();
    connection.reconnected(Err(McpError::ConnectionLost));
    assert!(matches!(connection.state(), McpConnectionState::Failed(why) if why == "connection lost"));
    assert_eq!(connection.tools().len(), 1);
}
