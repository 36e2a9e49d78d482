use tokimo_package_mcp::transport::read_message;
use tokimo_package_mcp::transport::stdio::{
    command_found_message, command_not_found_message, resolve_command, resolved, LookupError, StdioTransport,
};
use tokimo_package_mcp::{Json, McpError};

fn text(json: &Json) -> String {
    String::from_utf8(json.to_bytes()).unwrap()
}

#[test]
fn resolve_command_reports_not_found_clearly() {
    let err = resolve_command("definitely-not-a-real-binary-xyz", false).expect_err("missing binary should error");
    let msg = err.message();
    assert!(msg.contains("not found in PATH"), "got: {msg}");
}

#[test]
fn a_program_that_is_there_is_found() {
    let path = resolve_command("/bin/sh", false).unwrap();
    assert_eq!(path.to_str(), Some("/bin/sh"));
    let path = resolve_command("/bin/../bin/sh", false).unwrap();
    assert_eq!(path.to_str(), Some("/bin/../bin/sh"));
    let path = resolve_command("sh", false).unwrap();
    assert!(path.to_string_lossy().ends_with("/sh"));
    let message = command_found_message("sh", &path);
    assert_eq!(message, format!("resolved 'sh' to {}", path.to_str().unwrap()));
}

#[test]
fn a_missing_program_is_named() {
    assert_eq!(command_not_found_message("npx", false), "program 'npx' not found in PATH");
    assert_eq!(
        command_not_found_message("npx", true),
        "program 'npx' not found in PATH (looked for npx, npx.cmd, npx.bat, npx.exe on Windows)"
    );
}

#[test]
fn a_lookup_is_passed_on() {
    assert_eq!(resolved("npx", false, Ok(7)).unwrap(), 7);
    assert_eq!(
        resolved::<u8>("npx", true, Err(LookupError::NotFound)).unwrap_err().message(),
        command_not_found_message("npx", true)
    );
    let error = resolved::<u8>("npx", false, Err(LookupError::Failed("cannot canonicalize path".to_string())));
    assert_eq!(
        error.unwrap_err().message(),
        "failed to resolve MCP server command 'npx' from PATH: cannot canonicalize path"
    );
}

#[test]
fn a_message_is_one_line() {
    let transport = StdioTransport::new();
    let message = Json::from_text(r#"{"hello":"two\nlines"}"#).unwrap();
    let line = transport.send(&message).unwrap();
    assert_eq!(line, b"{\"hello\":\"two\\nlines\"}\n");
}

#[test]
fn a_line_is_read_back() {
    let transport = StdioTransport::new();
    let message = Json::from_text(r#"{"hello":["world",null,-1,{"ü":true}]}"#).unwrap();
    let line = String::from_utf8(transport.send(&message).unwrap()).unwrap();
    assert_eq!(text(&read_message(&line).unwrap().unwrap()), text(&message));
}

#[test]
fn a_closed_pipe_takes_nothing() {
    let mut transport = StdioTransport::new();
    assert!(transport.close());
    assert!(!transport.close());
    assert!(matches!(transport.send(&Json::Null), Err(McpError::ConnectionLost)));
}

#[test]
fn blank_lines_hold_no_message() {
    for blank in ["", "   ", "\t\r\n", "\u{a0}\u{2003}\u{3000}"] {
        assert!(matches!(read_message(blank), Ok(None)));
    }
    assert!(matches!(read_message(" \u{2028} 7 \r\n"), Ok(Some(Json::PosInt(7)))));
    assert!(matches!(read_message("\u{200b}7"), Err(McpError::Serde(_))));
    assert!(matches!(read_message("hello"), Err(McpError::Serde(_))));
}
