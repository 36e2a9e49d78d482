use tokimo_package_mcp::transport::http::{HttpTransport, Method, Reply};
use tokimo_package_mcp::Json;

fn header(name: &str, value: &str) -> (String, String) {
    (name.to_string(), value.to_string())
}

fn transport() -> HttpTransport {
    HttpTransport::new("http://localhost/mcp".to_string(), vec![header("authorization", "Bearer x")])
}

#[test]
fn a_message_is_posted() {
    let request = transport().send(&Json::from_text(r#"{"id":1}"#).unwrap()).unwrap();
    assert_eq!(request.method, Method::Post);
    assert_eq!(request.url, "http://localhost/mcp");
    assert_eq!(
        request.headers,
        vec![
            header("content-type", "application/json"),
            header("accept", "application/json, text/event-stream"),
            header("authorization", "Bearer x"),
        ]
    );
    assert_eq!(request.body, b"{\"id\":1}");
}

#[test]
fn the_first_session_is_kept() {
    let mut transport = transport();
    assert!(transport.close().is_none());
    transport.receive(200, None, None);
    assert_eq!(transport.send(&Json::Null).unwrap().headers.len(), 3);
    transport.receive(202, Some("one".to_string()), None);
    transport.receive(200, Some("two".to_string()), None);
    transport.receive(500, None, None);
    assert_eq!(transport.send(&Json::Null).unwrap().headers.last(), Some(&header("mcp-session-id", "one")));
}

#[test]
fn a_rejected_request_may_still_give_a_session() {
    let mut transport = transport();
    assert_eq!(transport.receive(404, Some("one".to_string()), None), Reply::Rejected);
    assert_eq!(transport.send(&Json::Null).unwrap().headers.last(), Some(&header("mcp-session-id", "one")));
}

#[test]
fn the_session_is_ended() {
    let mut transport = transport();
    transport.receive(200, Some("one".to_string()), None);
    for _ in 0..2 {
        let request = transport.close().unwrap();
        assert_eq!(request.method, Method::Delete);
        assert_eq!(request.url, "http://localhost/mcp");
        assert_eq!(request.headers, vec![header("mcp-session-id", "one")]);
        assert!(request.body.is_empty());
    }
}

#[test]
fn the_head_tells_how_to_read_the_body() {
    let mut transport = transport();
    assert_eq!(transport.receive(202, None, Some("text/event-stream")), Reply::Nothing);
    assert_eq!(transport.receive(204, None, None), Reply::Nothing);
    assert_eq!(transport.receive(199, None, None), Reply::Rejected);
    assert_eq!(transport.receive(300, None, Some("application/json")), Reply::Rejected);
    assert_eq!(transport.receive(401, None, Some("text/event-stream")), Reply::Rejected);
    assert_eq!(transport.receive(200, None, Some("Text/Event-Stream; charset=utf-8")), Reply::Events);
    assert_eq!(transport.receive(299, None, Some("application/json")), Reply::Message);
    assert_eq!(transport.receive(200, None, None), Reply::Message);
}

#[test]
fn an_address_that_makes_no_sense_is_seen_at_once() {
    for url in ["not a url", "", "http://", "/mcp", "data:text/plain,x"] {
        let transport = HttpTransport::new(url.to_string(), Vec::new());
        let error = transport.send(&Json::Null).unwrap_err();
        assert_eq!(error.message(), format!("invalid URL: {url}"));
    }
    assert!(HttpTransport::new("https://example.net:8080/mcp?x=1".to_string(), Vec::new()).send(&Json::Null).is_ok());
}
