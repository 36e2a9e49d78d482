use tokimo_package_mcp::record::{Decode, Encode};
use tokimo_package_mcp::types::{ListPromptsResult, ListResourcesResult, ListToolsResult};
use tokimo_package_mcp::{
    CallToolResult, ClientInfo, InitializeResult, Json, McpAnnotations, McpContent, McpPrompt,
    McpResource, McpTool, ReadResourceResult,
};

fn json(text: &str) -> Json {
    Json::from_text(text).unwrap()
}

fn text(json: &Json) -> String {
    String::from_utf8(json.to_bytes()).unwrap()
}

fn read<T: Decode>(source: &str) -> Option<T> {
    T::from_json(&json(source))
}

#[test]
fn a_client_is_written_by_name_and_version() {
    let info = ClientInfo { name: "tokimo".to_string(), version: "1.2".to_string() };
    assert_eq!(text(&info.to_json()), r#"{"name":"tokimo","version":"1.2"}"#);
}

#[test]
fn the_handshake_may_leave_everything_out() {
    let init: InitializeResult = read("{}").unwrap();
    assert_eq!(init.protocol_version, "");
    assert!(matches!(init.capabilities, Json::Null));
    assert!(matches!(init.server_info, Json::Null));
    assert_eq!(init.instructions, None);
    let full: InitializeResult = read(
        r#"{"protocolVersion":"2024-11-05","capabilities":{"tools":{}},"serverInfo":{"name":"s"},"instructions":"go"}"#,
    )
    .unwrap();
    assert_eq!(full.protocol_version, "2024-11-05");
    assert_eq!(text(&full.capabilities), r#"{"tools":{}}"#);
    assert_eq!(text(&full.server_info), r#"{"name":"s"}"#);
    assert_eq!(full.instructions.as_deref(), Some("go"));
    assert!(read::<InitializeResult>(r#"{"protocolVersion":null}"#).is_none());
    assert!(read::<InitializeResult>("null").is_none());
}

#[test]
fn a_tool_needs_only_a_name() {
    let tool: McpTool = read(r#"{"name":"echo"}"#).unwrap();
    assert_eq!(tool.name, "echo");
    assert_eq!(tool.description, None);
    assert_eq!(text(&tool.input_schema), r#"{"type":"object"}"#);
    assert!(!tool.annotations.read_only_hint);
    assert!(matches!(tool.meta, Json::Null));
    assert!(read::<McpTool>(r#"{"description":"x"}"#).is_none());
    assert!(read::<McpTool>(r#"{"name":7}"#).is_none());
    assert!(read::<McpTool>(r#"{"name":"x","annotations":null}"#).is_none());
}

#[test]
fn a_tool_is_read_back_as_it_was_written() {
    let source = r#"{"_meta":{"k":1},"annotations":{"destructiveHint":false,"idempotentHint":true,"openWorldHint":false,"readOnlyHint":true,"title":"T"},"description":null,"inputSchema":{"type":"object"},"name":"echo"}"#;
    let tool: McpTool = read(source).unwrap();
    assert_eq!(text(&tool.to_json()), source);
    assert_eq!(tool.annotations.title.as_deref(), Some("T"));
    assert!(tool.annotations.read_only_hint && tool.annotations.idempotent_hint);
}

#[test]
fn hints_are_off_by_default() {
    let hints = McpAnnotations::default();
    assert_eq!(
        text(&hints.to_json()),
        r#"{"destructiveHint":false,"idempotentHint":false,"openWorldHint":false,"readOnlyHint":false,"title":null}"#
    );
    let some: McpAnnotations = read(r#"{"destructiveHint":true}"#).unwrap();
    assert!(some.destructive_hint && !some.open_world_hint);
    assert!(read::<McpAnnotations>(r#"{"destructiveHint":null}"#).is_none());
    assert!(read::<McpAnnotations>(r#"{"destructiveHint":1}"#).is_none());
}

#[test]
fn records_may_be_listed_by_position() {
    let resource: McpResource = read(r#"["file:///a", "a", null, "text/plain"]"#).unwrap();
    assert_eq!(resource.uri, "file:///a");
    assert_eq!(resource.name.as_deref(), Some("a"));
    assert_eq!(resource.description, None);
    assert_eq!(resource.mime_type.as_deref(), Some("text/plain"));
    assert!(read::<McpResource>(r#"["file:///a"]"#).is_some());
    assert!(read::<McpResource>(r#"["a", "b", "c", "d", "e"]"#).is_none());
    assert!(read::<McpResource>("[]").is_none());
}

#[test]
fn content_is_told_by_its_type() {
    assert!(matches!(
        read(r#"{"type":"text","text":"hi"}"#),
        Some(McpContent::Text { text }) if text == "hi"
    ));
    assert!(matches!(
        read(r#"{"type":"image","data":"AA==","mimeType":"image/png"}"#),
        Some(McpContent::Image { data, mime_type }) if data == "AA==" && mime_type == "image/png"
    ));
    assert!(matches!(
        read(r#"{"type":"resource","resource":{"uri":"u"}}"#),
        Some(McpContent::Resource { .. })
    ));
    assert!(matches!(
        read(r#"{"type":"resource_link","uri":"u"}"#),
        Some(McpContent::ResourceLink { name: None, mime_type: None, .. })
    ));
    assert!(matches!(read(r#"{"type":"audio","data":"AA=="}"#), Some(McpContent::Other)));
    assert!(read::<McpContent>(r#"{"type":"text"}"#).is_none());
    assert!(read::<McpContent>(r#"{"text":"hi"}"#).is_none());
    assert!(read::<McpContent>(r#"{"type":"image","data":"AA=="}"#).is_none());
}

#[test]
fn content_is_read_back_as_it_was_written() {
    for source in [
        r#"{"text":"hi","type":"text"}"#,
        r#"{"data":"AA==","mimeType":"image/png","type":"image"}"#,
        r#"{"resource":{"uri":"u"},"type":"resource"}"#,
        r#"{"mimeType":null,"name":"n","type":"resource_link","uri":"u"}"#,
        r#"{"type":"other"}"#,
    ] {
        assert_eq!(text(&read::<McpContent>(source).unwrap().to_json()), source);
    }
}

#[test]
fn a_call_may_come_to_nothing() {
    let result: CallToolResult = read("{}").unwrap();
    assert!(result.content.is_empty());
    assert!(!result.is_error);
    let failed: CallToolResult =
        read(r#"{"content":[{"type":"text","text":"no"}],"isError":true,"_meta":1,"structuredContent":[2]}"#).unwrap();
    assert!(failed.is_error);
    assert_eq!(failed.content.len(), 1);
    assert_eq!(text(&failed.meta), "1");
    assert_eq!(text(&failed.structured_content), "[2]");
    assert!(read::<CallToolResult>(r#"{"content":null}"#).is_none());
    assert!(read::<CallToolResult>(r#"{"content":[{"type":"text"}]}"#).is_none());
}

#[test]
fn lists_may_be_left_out_but_not_be_wrong() {
    assert!(read::<ListToolsResult>("{}").unwrap().tools.is_empty());
    assert!(read::<ListResourcesResult>("{}").unwrap().resources.is_empty());
    assert!(read::<ListPromptsResult>("{}").unwrap().prompts.is_empty());
    assert!(read::<ReadResourceResult>("{}").unwrap().contents.is_empty());
    let tools: ListToolsResult = read(r#"{"tools":[{"name":"a"},{"name":"b"}],"nextCursor":"x"}"#).unwrap();
    assert_eq!(tools.tools[1].name, "b");
    assert!(read::<ListToolsResult>(r#"{"tools":[{"name":"a"},{}]}"#).is_none());
    assert!(read::<ListToolsResult>(r#"{"tools":{}}"#).is_none());
    let read_back: ReadResourceResult = read(r#"{"contents":[1,"x",null]}"#).unwrap();
    assert_eq!(read_back.contents.len(), 3);
}

#[test]
fn resources_and_prompts_are_read_back_as_written() {
    let resource = r#"{"description":null,"mimeType":"text/plain","name":"a","uri":"file:///a"}"#;
    assert_eq!(text(&read::<McpResource>(resource).unwrap().to_json()), resource);
    let prompt = r#"{"arguments":[{"name":"x"}],"description":"d","name":"p"}"#;
    assert_eq!(text(&read::<McpPrompt>(prompt).unwrap().to_json()), prompt);
    assert!(read::<McpPrompt>("{}").is_none());
}
