use tokimo_package_mcp::client::{call_tool_result, Call, Dispatch, McpClient, WaitEnd};
use tokimo_package_mcp::connection::{Outgoing, Progress};
use tokimo_package_mcp::transport::read_message;
use tokimo_package_mcp::transport::stdio::StdioTransport;
use tokimo_package_mcp::{ClientInfo, Json, McpConnection, McpContent, McpError};

/// A server that answers line by line, and may ask for the client's roots after `initialize`.
struct Stub {
    asks_for_roots: bool,
    roots: Option<serde_json::Value>,
}

impl Stub {
    fn answer(&mut self, line: &str) -> Vec<String> {
        let message: serde_json::Value = serde_json::from_str(line).unwrap();
        if message["id"] == 100 && (message.get("result").is_some() || message.get("error").is_some()) {
            self.roots = Some(message["result"]["roots"].clone());
            return Vec::new();
        }
        if message.get("id").is_none() {
            return Vec::new();
        }
        let id = &message["id"];
        let method = message["method"].as_str().unwrap();
        let roots = match &self.roots {
            Some(roots) => roots.to_string(),
            None => "null".to_string(),
        };
        let result = match method {
            "initialize" => {
                r#"{"protocolVersion":"2024-11-05","capabilities":{"tools":{}},"serverInfo":{"name":"stub","version":"0.0.1"}}"#.to_string()
            }
            "tools/list" => r#"{"tools":[{"name":"whoami","inputSchema":{"type":"object"}}]}"#.to_string(),
            "resources/list" => r#"{"resources":[]}"#.to_string(),
            "tools/call" => {
                let text = serde_json::Value::String(format!("{{\"roots\":{roots}}}"));
                format!(r#"{{"content":[{{"type":"text","text":{text}}}],"isError":false}}"#)
            }
            _ => {
                return vec![format!(
                    r#"{{"jsonrpc":"2.0","id":{id},"error":{{"code":-32601,"message":"method not found: {method}"}}}}"#
                )];
            }
        };
        let mut lines = vec![format!(r#"{{"jsonrpc":"2.0","id":{id},"result":{result}}}"#)];
        if method == "initialize" && self.asks_for_roots {
            lines.push(r#"{"jsonrpc":"2.0","id":100,"method":"roots/list"}"#.to_string());
        }
        lines
    }
}

/// A client whose lines go to a stub and back until there is nothing left to say.
struct Pair {
    client: McpClient<()>,
    transport: StdioTransport,
    stub: Stub,
    n_replies: usize,
}

impl Pair {
    fn new(asks_for_roots: bool) -> Pair {
        Pair {
            client: McpClient::new(),
            transport: StdioTransport::new(),
            stub: Stub { asks_for_roots, roots: None },
            n_replies: 0,
        }
    }

    fn send(&mut self, message: &Json) -> Vec<(u64, Result<Json, McpError>)> {
        let mut outcomes = Vec::new();
        let mut waiting = vec![String::from_utf8(self.transport.send(message).unwrap()).unwrap()];
        while !waiting.is_empty() {
            let line = waiting.remove(0);
            for reply in self.stub.answer(&line) {
                let message = read_message(&reply).unwrap().unwrap();
                match self.client.dispatch(&message) {
                    Dispatch::Resolved { id, outcome, .. } => outcomes.push((id, outcome)),
                    Dispatch::Reply(answer) => {
                        self.n_replies += 1;
                        waiting.push(String::from_utf8(self.transport.send(&answer).unwrap()).unwrap());
                    }
                    _ => panic!("unexpected: {reply}"),
                }
            }
        }
        outcomes
    }

    fn request(&mut self, call: Call) -> Result<Json, McpError> {
        let mut outcomes = self.send(&call.message);
        assert_eq!(outcomes.len(), 1);
        let (id, outcome) = outcomes.remove(0);
        assert_eq!(id, call.id);
        self.client.settle(&call, WaitEnd::Answered(outcome))
    }

    fn connect(&mut self) -> McpConnection {
        let info = ClientInfo { name: "tokimo-test".to_string(), version: "0.0.0".to_string() };
        let mut handshake = McpConnection::connect("stub".to_string());
        loop {
            let outcome = match handshake.act(&mut self.client, &info, ()) {
                Outgoing::Request(call) => self.request(call),
                Outgoing::Notification(message) => {
                    assert!(self.send(&message).is_empty());
                    Ok(Json::Null)
                }
            };
            match handshake.step(outcome) {
                Progress::Next(next) => handshake = next,
                Progress::Connected(connection) => return connection,
                Progress::Failed(error) => panic!("{error:?}"),
            }
        }
    }
}

#[test]
fn a_whole_handshake_goes_through() {
    let mut pair = Pair::new(false);
    let connection = pair.connect();
    assert_eq!(connection.server_name, "stub");
    assert_eq!(connection.tools().len(), 1, "expected 1 tool from stub");
    assert_eq!(connection.tools()[0].name, "whoami");
    assert!(connection.prompts().is_empty());
    assert_eq!(pair.n_replies, 0);
    assert!(pair.client.fail_all_pending().is_empty());
}

#[test]
fn server_initiated_roots_list_is_answered() {
    let mut pair = Pair::new(true);
    pair.connect();
    assert_eq!(pair.n_replies, 1);
    let call = pair.client.call_tool("whoami", Json::Object(Vec::new()), ());
    let result = call_tool_result(pair.request(call)).unwrap();
    let McpContent::Text { text } = &result.content[0] else { panic!("expected text content") };
    assert!(
        text.contains("\"roots\":[]") || text.contains("\"roots\": []"),
        "stub did not record correct roots reply; got: {text}"
    );
}
