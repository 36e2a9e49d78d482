use tokimo_package_mcp::McpError;

#[test]
fn every_error_has_its_sentence() {
    assert_eq!(McpError::Io("broken pipe".to_string()).message(), "transport I/O: broken pipe");
    assert_eq!(McpError::Serde("bad".to_string()).message(), "serde: bad");
    assert_eq!(
        McpError::Timeout { id: 12, method: "tools/list".to_string() }.message(),
        "timeout waiting for response (id=12, method=tools/list)"
    );
    assert_eq!(McpError::ConnectionLost.message(), "connection lost");
    assert_eq!(
        McpError::ServerError { code: -32601, message: "no".to_string() }.message(),
        "server error: code=-32601 message=no"
    );
    assert_eq!(McpError::InvalidResponse("odd".to_string()).message(), "invalid response: odd");
    assert_eq!(McpError::NeedsAuth.message(), "needs auth");
    assert_eq!(McpError::Cancelled.message(), "cancelled");
    assert_eq!(McpError::other("anything".to_string()).message(), "anything");
}

#[test]
fn numbers_in_sentences_are_decimal() {
    assert_eq!(
        McpError::Timeout { id: u64::MAX, method: String::new() }.message(),
        "timeout waiting for response (id=18446744073709551615, method=)"
    );
    assert_eq!(
        McpError::ServerError { code: i64::MIN, message: String::new() }.message(),
        "server error: code=-9223372036854775808 message="
    );
    assert_eq!(
        McpError::ServerError { code: 0, message: String::new() }.message(),
        "server error: code=0 message="
    );
}
