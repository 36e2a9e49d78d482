use tokimo_package_mcp::tool_name::{build_mcp_tool_name, parse_mcp_tool_name, sanitize, MAX_TOOL_NAME_LEN};

#[test]
fn basic() {
    assert_eq!(build_mcp_tool_name("fs", "read"), "mcp__fs__read");
}

#[test]
fn sanitises_special_chars() {
    assert_eq!(build_mcp_tool_name("my server", "call/it"), "mcp__my_server__call_it");
}

#[test]
fn parses_back() {
    let n = build_mcp_tool_name("fs", "read_file");
    assert_eq!(parse_mcp_tool_name(&n), Some(("fs", "read_file")));
}

#[test]
fn truncates_long() {
    let n = build_mcp_tool_name("shortsrv", &"x".repeat(200));
    assert!(n.len() <= MAX_TOOL_NAME_LEN);
    assert!(n.starts_with("mcp__shortsrv__"));
}

#[test]
fn empty_segments_become_underscores() {
    assert_eq!(sanitize(""), "_");
    assert_eq!(build_mcp_tool_name("", ""), "mcp______");
}

#[test]
fn names_without_the_prefix_do_not_parse() {
    assert_eq!(parse_mcp_tool_name("fs__read"), None);
    assert_eq!(parse_mcp_tool_name("mcp__fs"), None);
    assert_eq!(parse_mcp_tool_name("mcp__fs__a__b"), Some(("fs", "a__b")));
    assert_eq!(parse_mcp_tool_name(""), None);
}

#[test]
fn names_hold_letters_digits_and_joints_only() {
    assert_eq!(sanitize("a-b_C9"), "a-b_C9");
    assert_eq!(sanitize("ü/ .:"), "_____");
    assert_eq!(sanitize(&sanitize("ü x")), sanitize("ü x"));
}

#[test]
fn long_names_keep_the_server() {
    let name = build_mcp_tool_name("srv", &"y".repeat(100));
    assert_eq!(name.len(), MAX_TOOL_NAME_LEN);
    assert_eq!(name, format!("mcp__srv__{}", "y".repeat(MAX_TOOL_NAME_LEN - 10)));
}
