//! The protocol's data: what a client tells about itself, and what servers answer.
//!
//! Each type has a view, in which text is a sequence of characters, and says which JSON value
//! stands for which view.

use vstd::prelude::*;

use crate::json::{option_view, Json, JsonView};
use crate::record::{
    field, flag_of, is_record, list_of, no_fields, optional_text, optional_text_of, read_flag,
    read_list, read_optional_text, read_text, read_text_or_empty, read_value, set_field, text_of,
    text_or_empty_of, value_of, views, write_optional_text, write_text, Decode, Encode,
};
use crate::text::same_text;

verus! {

// ---------------------------------------------------------------------------
// Initialize
// ---------------------------------------------------------------------------

/// Who the client is.
#[derive(Debug, Clone)]
pub struct ClientInfo {
    pub name: String,
    pub version: String,
}

/// [`ClientInfo`] as mathematics.
#[verifier::ext_equal]
pub struct ClientInfoView {
    pub name: Seq<char>,
    pub version: Seq<char>,
}

impl View for ClientInfo {
    type V = ClientInfoView;

    open spec fn view(&self) -> ClientInfoView {
        ClientInfoView {
            name: self.name@,
            version: self.version@,
        }
    }
}

impl Encode for ClientInfo {
    open spec fn encoded(value: ClientInfoView) -> JsonView {
        JsonView::Object(
            map![
                "name"@ => JsonView::Str(value.name),
                "version"@ => JsonView::Str(value.version),
            ],
        )
    }

    fn to_json(&self) -> (json: Json) {
        let mut fields = no_fields();
        set_field(&mut fields, "name", write_text(&self.name));
        set_field(&mut fields, "version", write_text(&self.version));
        Json::Object(fields)
    }
}

/// What a server answers to the handshake.
#[derive(Debug, Clone)]
pub struct InitializeResult {
    pub protocol_version: String,
    pub capabilities: Json,
    pub server_info: Json,
    pub instructions: Option<String>,
}

/// [`InitializeResult`] as mathematics.
#[verifier::ext_equal]
pub struct InitializeView {
    pub protocol_version: Seq<char>,
    pub capabilities: JsonView,
    pub server_info: JsonView,
    pub instructions: Option<Seq<char>>,
}

impl View for InitializeResult {
    type V = InitializeView;

    open spec fn view(&self) -> InitializeView {
        InitializeView {
            protocol_version: self.protocol_version@,
            capabilities: self.capabilities@,
            server_info: self.server_info@,
            instructions: option_view(self.instructions),
        }
    }
}

impl Decode for InitializeResult {
    open spec fn decoded(json: JsonView) -> Option<InitializeView> {
        let protocol_version = text_or_empty_of(field(json, 0, "protocolVersion"@));
        let capabilities = value_of(field(json, 1, "capabilities"@));
        let server_info = value_of(field(json, 2, "serverInfo"@));
        let instructions = optional_text_of(field(json, 3, "instructions"@));
        if is_record(json, 4) && protocol_version is Some && instructions is Some {
            Some(
                InitializeView {
                    protocol_version: protocol_version->0,
                    capabilities,
                    server_info,
                    instructions: instructions->0,
                },
            )
        } else {
            None
        }
    }

    fn from_json(json: &Json) -> (value: Option<InitializeResult>) {
        if !json.is_record(4) {
            return None;
        }
        let protocol_version = read_text_or_empty(json.field(0, "protocolVersion"));
        let capabilities = read_value(json.field(1, "capabilities"));
        let server_info = read_value(json.field(2, "serverInfo"));
        let instructions = read_optional_text(json.field(3, "instructions"));
        match (protocol_version, instructions) {
            (Some(protocol_version), Some(instructions)) => Some(
                InitializeResult { protocol_version, capabilities, server_info, instructions },
            ),
            _ => None,
        }
    }
}

// ---------------------------------------------------------------------------
// Tools
// ---------------------------------------------------------------------------

/// Hints that a server gives about a tool.
#[derive(Debug, Clone)]
pub struct McpAnnotations {
    pub title: Option<String>,
    pub read_only_hint: bool,
    pub destructive_hint: bool,
    pub idempotent_hint: bool,
    pub open_world_hint: bool,
}

/// [`McpAnnotations`] as mathematics.
#[verifier::ext_equal]
pub struct AnnotationsView {
    pub title: Option<Seq<char>>,
    pub read_only_hint: bool,
    pub destructive_hint: bool,
    pub idempotent_hint: bool,
    pub open_world_hint: bool,
}

impl View for McpAnnotations {
    type V = AnnotationsView;

    open spec fn view(&self) -> AnnotationsView {
        AnnotationsView {
            title: option_view(self.title),
            read_only_hint: self.read_only_hint,
            destructive_hint: self.destructive_hint,
            idempotent_hint: self.idempotent_hint,
            open_world_hint: self.open_world_hint,
        }
    }
}

/// No title, and no hint.
pub open spec fn no_annotations() -> AnnotationsView {
    AnnotationsView {
        title: None,
        read_only_hint: false,
        destructive_hint: false,
        idempotent_hint: false,
        open_world_hint: false,
    }
}

impl Default for McpAnnotations {
    fn default() -> (annotations: Self)
        ensures
            annotations@ == no_annotations(),
    {
        McpAnnotations {
            title: None,
            read_only_hint: false,
            destructive_hint: false,
            idempotent_hint: false,
            open_world_hint: false,
        }
    }
}

impl Decode for McpAnnotations {
    open spec fn decoded(json: JsonView) -> Option<AnnotationsView> {
        let title = optional_text_of(field(json, 0, "title"@));
        let read_only_hint = flag_of(field(json, 1, "readOnlyHint"@));
        let destructive_hint = flag_of(field(json, 2, "destructiveHint"@));
        let idempotent_hint = flag_of(field(json, 3, "idempotentHint"@));
        let open_world_hint = flag_of(field(json, 4, "openWorldHint"@));
        if is_record(json, 5) && title is Some && read_only_hint is Some && destructive_hint is Some
            && idempotent_hint is Some && open_world_hint is Some {
            Some(
                AnnotationsView {
                    title: title->0,
                    read_only_hint: read_only_hint->0,
                    destructive_hint: destructive_hint->0,
                    idempotent_hint: idempotent_hint->0,
                    open_world_hint: open_world_hint->0,
                },
            )
        } else {
            None
        }
    }

    fn from_json(json: &Json) -> (value: Option<McpAnnotations>) {
        if !json.is_record(5) {
            return None;
        }
        let title = read_optional_text(json.field(0, "title"));
        let read_only_hint = read_flag(json.field(1, "readOnlyHint"));
        let destructive_hint = read_flag(json.field(2, "destructiveHint"));
        let idempotent_hint = read_flag(json.field(3, "idempotentHint"));
        let open_world_hint = read_flag(json.field(4, "openWorldHint"));
        match (title, read_only_hint, destructive_hint, idempotent_hint, open_world_hint) {
            (
                Some(title),
                Some(read_only_hint),
                Some(destructive_hint),
                Some(idempotent_hint),
                Some(open_world_hint),
            ) => Some(
                McpAnnotations {
                    title,
                    read_only_hint,
                    destructive_hint,
                    idempotent_hint,
                    open_world_hint,
                },
            ),
            _ => None,
        }
    }
}

impl Encode for McpAnnotations {
    open spec fn encoded(value: AnnotationsView) -> JsonView {
        JsonView::Object(
            map![
                "title"@ => optional_text(value.title),
                "readOnlyHint"@ => JsonView::Bool(value.read_only_hint),
                "destructiveHint"@ => JsonView::Bool(value.destructive_hint),
                "idempotentHint"@ => JsonView::Bool(value.idempotent_hint),
                "openWorldHint"@ => JsonView::Bool(value.open_world_hint),
            ],
        )
    }

    fn to_json(&self) -> (json: Json) {
        let mut fields = no_fields();
        set_field(&mut fields, "title", write_optional_text(&self.title));
        set_field(&mut fields, "readOnlyHint", Json::Bool(self.read_only_hint));
        set_field(&mut fields, "destructiveHint", Json::Bool(self.destructive_hint));
        set_field(&mut fields, "idempotentHint", Json::Bool(self.idempotent_hint));
        set_field(&mut fields, "openWorldHint", Json::Bool(self.open_world_hint));
        Json::Object(fields)
    }
}

/// The hints in a field, or none if the field is left out.
pub open spec fn annotations_of(field: Option<JsonView>) -> Option<AnnotationsView> {
    match field {
        None => Some(no_annotations()),
        Some(json) => McpAnnotations::decoded(json),
    }
}

fn read_annotations(field: Option<&Json>) -> (annotations: Option<McpAnnotations>)
    ensures
        option_view(annotations) == annotations_of(option_view(field)),
{
    match field {
        None => Some(McpAnnotations::default()),
        Some(json) => McpAnnotations::from_json(json),
    }
}

/// The schema of a tool that takes just any object.
pub open spec fn any_object() -> JsonView {
    JsonView::Object(map!["type"@ => JsonView::Str("object"@)])
}

/// The schema in a field, or that of any object if the field is left out.
pub open spec fn schema_of(field: Option<JsonView>) -> JsonView {
    match field {
        None => any_object(),
        Some(schema) => schema,
    }
}

fn empty_schema() -> (schema: Json)
    ensures
        schema@ == any_object(),
{
    let mut fields = no_fields();
    set_field(&mut fields, "type", Json::Str("object".to_owned()));
    Json::Object(fields)
}

fn read_schema(field: Option<&Json>) -> (schema: Json)
    ensures
        schema@ == schema_of(option_view(field)),
{
    match field {
        None => empty_schema(),
        Some(schema) => schema.clone(),
    }
}

/// A tool that a server offers.
#[derive(Debug, Clone)]
pub struct McpTool {
    pub name: String,
    pub description: Option<String>,
    pub input_schema: Json,
    pub annotations: McpAnnotations,
    pub meta: Json,
}

/// [`McpTool`] as mathematics.
#[verifier::ext_equal]
pub struct ToolView {
    pub name: Seq<char>,
    pub description: Option<Seq<char>>,
    pub input_schema: JsonView,
    pub annotations: AnnotationsView,
    pub meta: JsonView,
}

impl View for McpTool {
    type V = ToolView;

    open spec fn view(&self) -> ToolView {
        ToolView {
            name: self.name@,
            description: option_view(self.description),
            input_schema: self.input_schema@,
            annotations: self.annotations@,
            meta: self.meta@,
        }
    }
}

impl Decode for McpTool {
    open spec fn decoded(json: JsonView) -> Option<ToolView> {
        let name = text_of(field(json, 0, "name"@));
        let description = optional_text_of(field(json, 1, "description"@));
        let input_schema = schema_of(field(json, 2, "inputSchema"@));
        let annotations = annotations_of(field(json, 3, "annotations"@));
        let meta = value_of(field(json, 4, "_meta"@));
        if is_record(json, 5) && name is Some && description is Some && annotations is Some {
            Some(
                ToolView {
                    name: name->0,
                    description: description->0,
                    input_schema,
                    annotations: annotations->0,
                    meta,
                },
            )
        } else {
            None
        }
    }

    fn from_json(json: &Json) -> (value: Option<McpTool>) {
        if !json.is_record(5) {
            return None;
        }
        let name = read_text(json.field(0, "name"));
        let description = read_optional_text(json.field(1, "description"));
        let input_schema = read_schema(json.field(2, "inputSchema"));
        let annotations = read_annotations(json.field(3, "annotations"));
        let meta = read_value(json.field(4, "_meta"));
        match (name, description, annotations) {
            (Some(name), Some(description), Some(annotations)) => Some(
                McpTool { name, description, input_schema, annotations, meta },
            ),
            _ => None,
        }
    }
}

impl Encode for McpTool {
    open spec fn encoded(value: ToolView) -> JsonView {
        JsonView::Object(
            map![
                "name"@ => JsonView::Str(value.name),
                "description"@ => optional_text(value.description),
                "inputSchema"@ => value.input_schema,
                "annotations"@ => McpAnnotations::encoded(value.annotations),
                "_meta"@ => value.meta,
            ],
        )
    }

    fn to_json(&self) -> (json: Json) {
        let mut fields = no_fields();
        set_field(&mut fields, "name", write_text(&self.name));
        set_field(&mut fields, "description", write_optional_text(&self.description));
        set_field(&mut fields, "inputSchema", self.input_schema.clone());
        set_field(&mut fields, "annotations", self.annotations.to_json());
        set_field(&mut fields, "_meta", self.meta.clone());
        Json::Object(fields)
    }
}

/// What a server answers when asked for its tools.
#[derive(Debug, Clone)]
pub struct ListToolsResult {
    pub tools: Vec<McpTool>,
}

/// [`ListToolsResult`] as mathematics.
#[verifier::ext_equal]
pub struct ListToolsView {
    pub tools: Seq<ToolView>,
}

impl View for ListToolsResult {
    type V = ListToolsView;

    open spec fn view(&self) -> ListToolsView {
        ListToolsView {
            tools: views(self.tools@),
        }
    }
}

impl Decode for ListToolsResult {
    open spec fn decoded(json: JsonView) -> Option<ListToolsView> {
        let tools = list_of(field(json, 0, "tools"@), |item: JsonView| McpTool::decoded(item));
        if is_record(json, 1) && tools is Some {
            Some(
                ListToolsView {
                    tools: tools->0,
                },
            )
        } else {
            None
        }
    }

    fn from_json(json: &Json) -> (value: Option<ListToolsResult>) {
        if !json.is_record(1) {
            return None;
        }
        let tools = read_list::<McpTool>(json.field(0, "tools"));
        match tools {
            Some(tools) => Some(
                ListToolsResult { tools },
            ),
            _ => None,
        }
    }
}

// ---------------------------------------------------------------------------
// Tool calls
// ---------------------------------------------------------------------------

/// A piece of what a tool gives back.
#[derive(Debug, Clone)]
pub enum McpContent {
    Text { text: String },
    Image { data: String, mime_type: String },
    Resource { resource: Json },
    ResourceLink { uri: String, name: Option<String>, mime_type: Option<String> },
    /// A kind of content that this client does not know.
    Other,
}

/// [`McpContent`] as mathematics.
#[verifier::ext_equal]
pub enum ContentView {
    Text { text: Seq<char> },
    Image { data: Seq<char>, mime_type: Seq<char> },
    Resource { resource: JsonView },
    ResourceLink {
        uri: Seq<char>,
        name: Option<Seq<char>>,
        mime_type: Option<Seq<char>>,
    },
    Other,
}

impl View for McpContent {
    type V = ContentView;

    open spec fn view(&self) -> ContentView {
        match *self {
            McpContent::Text { text } => ContentView::Text { text: text@ },
            McpContent::Image { data, mime_type } => ContentView::Image {
                data: data@,
                mime_type: mime_type@,
            },
            McpContent::Resource { resource } => ContentView::Resource { resource: resource@ },
            McpContent::ResourceLink { uri, name, mime_type } => ContentView::ResourceLink {
                uri: uri@,
                name: option_view(name),
                mime_type: option_view(mime_type),
            },
            McpContent::Other => ContentView::Other,
        }
    }
}

/// The content of the kind `tag` that a record describes. The tag is the record's first field.
pub open spec fn tagged_content(tag: Seq<char>, json: JsonView) -> Option<ContentView> {
    if tag == "text"@ {
        match text_of(field(json, 1, "text"@)) {
            Some(text) if is_record(json, 2) => Some(ContentView::Text { text }),
            _ => None,
        }
    } else if tag == "image"@ {
        match (text_of(field(json, 1, "data"@)), text_of(field(json, 2, "mimeType"@))) {
            (Some(data), Some(mime_type)) if is_record(json, 3) => Some(
                ContentView::Image { data, mime_type },
            ),
            _ => None,
        }
    } else if tag == "resource"@ {
        match field(json, 1, "resource"@) {
            Some(resource) if is_record(json, 2) => Some(ContentView::Resource { resource }),
            _ => None,
        }
    } else if tag == "resource_link"@ {
        match (
            text_of(field(json, 1, "uri"@)),
            optional_text_of(field(json, 2, "name"@)),
            optional_text_of(field(json, 3, "mimeType"@)),
        ) {
            (Some(uri), Some(name), Some(mime_type)) if is_record(json, 4) => Some(
                ContentView::ResourceLink { uri, name, mime_type },
            ),
            _ => None,
        }
    } else if is_record(json, 1) {
        Some(ContentView::Other)
    } else {
        None
    }
}

impl Decode for McpContent {
    open spec fn decoded(json: JsonView) -> Option<ContentView> {
        match text_of(field(json, 0, "type"@)) {
            Some(tag) => tagged_content(tag, json),
            None => None,
        }
    }

    fn from_json(json: &Json) -> (value: Option<McpContent>) {
        let tag = match read_text(json.field(0, "type")) {
            Some(tag) => tag,
            None => {
                return None;
            },
        };
        if same_text(tag.as_str(), "text") {
            match read_text(json.field(1, "text")) {
                Some(text) if json.is_record(2) => Some(McpContent::Text { text }),
                _ => None,
            }
        } else if same_text(tag.as_str(), "image") {
            match (read_text(json.field(1, "data")), read_text(json.field(2, "mimeType"))) {
                (Some(data), Some(mime_type)) if json.is_record(3) => Some(
                    McpContent::Image { data, mime_type },
                ),
                _ => None,
            }
        } else if same_text(tag.as_str(), "resource") {
            match json.field(1, "resource") {
                Some(resource) if json.is_record(2) => Some(
                    McpContent::Resource { resource: resource.clone() },
                ),
                _ => None,
            }
        } else if same_text(tag.as_str(), "resource_link") {
            match (
                read_text(json.field(1, "uri")),
                read_optional_text(json.field(2, "name")),
                read_optional_text(json.field(3, "mimeType")),
            ) {
                (Some(uri), Some(name), Some(mime_type)) if json.is_record(4) => Some(
                    McpContent::ResourceLink { uri, name, mime_type },
                ),
                _ => None,
            }
        } else if json.is_record(1) {
            Some(McpContent::Other)
        } else {
            None
        }
    }
}

impl Encode for McpContent {
    open spec fn encoded(value: ContentView) -> JsonView {
        JsonView::Object(
            match value {
                ContentView::Text { text } => map![
                    "type"@ => JsonView::Str("text"@),
                    "text"@ => JsonView::Str(text),
                ],
                ContentView::Image { data, mime_type } => map![
                    "type"@ => JsonView::Str("image"@),
                    "data"@ => JsonView::Str(data),
                    "mimeType"@ => JsonView::Str(mime_type),
                ],
                ContentView::Resource { resource } => map![
                    "type"@ => JsonView::Str("resource"@),
                    "resource"@ => resource,
                ],
                ContentView::ResourceLink { uri, name, mime_type } => map![
                    "type"@ => JsonView::Str("resource_link"@),
                    "uri"@ => JsonView::Str(uri),
                    "name"@ => optional_text(name),
                    "mimeType"@ => optional_text(mime_type),
                ],
                ContentView::Other => map!["type"@ => JsonView::Str("other"@)],
            },
        )
    }

    fn to_json(&self) -> (json: Json) {
        let mut fields = no_fields();
        match self {
            McpContent::Text { text } => {
                set_field(&mut fields, "type", Json::Str("text".to_owned()));
                set_field(&mut fields, "text", write_text(text));
            },
            McpContent::Image { data, mime_type } => {
                set_field(&mut fields, "type", Json::Str("image".to_owned()));
                set_field(&mut fields, "data", write_text(data));
                set_field(&mut fields, "mimeType", write_text(mime_type));
            },
            McpContent::Resource { resource } => {
                set_field(&mut fields, "type", Json::Str("resource".to_owned()));
                set_field(&mut fields, "resource", resource.clone());
            },
            McpContent::ResourceLink { uri, name, mime_type } => {
                set_field(&mut fields, "type", Json::Str("resource_link".to_owned()));
                set_field(&mut fields, "uri", write_text(uri));
                set_field(&mut fields, "name", write_optional_text(name));
                set_field(&mut fields, "mimeType", write_optional_text(mime_type));
            },
            McpContent::Other => {
                set_field(&mut fields, "type", Json::Str("other".to_owned()));
            },
        }
        Json::Object(fields)
    }
}

/// What a tool call came to.
#[derive(Debug, Clone)]
pub struct CallToolResult {
    pub content: Vec<McpContent>,
    pub is_error: bool,
    pub meta: Json,
    pub structured_content: Json,
}

/// [`CallToolResult`] as mathematics.
#[verifier::ext_equal]
pub struct CallToolView {
    pub content: Seq<ContentView>,
    pub is_error: bool,
    pub meta: JsonView,
    pub structured_content: JsonView,
}

impl View for CallToolResult {
    type V = CallToolView;

    open spec fn view(&self) -> CallToolView {
        CallToolView {
            content: views(self.content@),
            is_error: self.is_error,
            meta: self.meta@,
            structured_content: self.structured_content@,
        }
    }
}

impl Decode for CallToolResult {
    open spec fn decoded(json: JsonView) -> Option<CallToolView> {
        let content = list_of(
            field(json, 0, "content"@),
            |item: JsonView| McpContent::decoded(item),
        );
        let is_error = flag_of(field(json, 1, "isError"@));
        let meta = value_of(field(json, 2, "_meta"@));
        let structured_content = value_of(field(json, 3, "structuredContent"@));
        if is_record(json, 4) && content is Some && is_error is Some {
            Some(
                CallToolView {
                    content: content->0,
                    is_error: is_error->0,
                    meta,
                    structured_content,
                },
            )
        } else {
            None
        }
    }

    fn from_json(json: &Json) -> (value: Option<CallToolResult>) {
        if !json.is_record(4) {
            return None;
        }
        let content = read_list::<McpContent>(json.field(0, "content"));
        let is_error = read_flag(json.field(1, "isError"));
        let meta = read_value(json.field(2, "_meta"));
        let structured_content = read_value(json.field(3, "structuredContent"));
        match (content, is_error) {
            (Some(content), Some(is_error)) => Some(
                CallToolResult { content, is_error, meta, structured_content },
            ),
            _ => None,
        }
    }
}

// ---------------------------------------------------------------------------
// Resources
// ---------------------------------------------------------------------------

/// A resource that a server offers.
#[derive(Debug, Clone)]
pub struct McpResource {
    pub uri: String,
    pub name: Option<String>,
    pub description: Option<String>,
    pub mime_type: Option<String>,
}

/// [`McpResource`] as mathematics.
#[verifier::ext_equal]
pub struct ResourceView {
    pub uri: Seq<char>,
    pub name: Option<Seq<char>>,
    pub description: Option<Seq<char>>,
    pub mime_type: Option<Seq<char>>,
}

impl View for McpResource {
    type V = ResourceView;

    open spec fn view(&self) -> ResourceView {
        ResourceView {
            uri: self.uri@,
            name: option_view(self.name),
            description: option_view(self.description),
            mime_type: option_view(self.mime_type),
        }
    }
}

impl Decode for McpResource {
    open spec fn decoded(json: JsonView) -> Option<ResourceView> {
        let uri = text_of(field(json, 0, "uri"@));
        let name = optional_text_of(field(json, 1, "name"@));
        let description = optional_text_of(field(json, 2, "description"@));
        let mime_type = optional_text_of(field(json, 3, "mimeType"@));
        if is_record(json, 4) && uri is Some && name is Some && description is Some
            && mime_type is Some {
            Some(
                ResourceView {
                    uri: uri->0,
                    name: name->0,
                    description: description->0,
                    mime_type: mime_type->0,
                },
            )
        } else {
            None
        }
    }

    fn from_json(json: &Json) -> (value: Option<McpResource>) {
        if !json.is_record(4) {
            return None;
        }
        let uri = read_text(json.field(0, "uri"));
        let name = read_optional_text(json.field(1, "name"));
        let description = read_optional_text(json.field(2, "description"));
        let mime_type = read_optional_text(json.field(3, "mimeType"));
        match (uri, name, description, mime_type) {
            (Some(uri), Some(name), Some(description), Some(mime_type)) => Some(
                McpResource { uri, name, description, mime_type },
            ),
            _ => None,
        }
    }
}

impl Encode for McpResource {
    open spec fn encoded(value: ResourceView) -> JsonView {
        JsonView::Object(
            map![
                "uri"@ => JsonView::Str(value.uri),
                "name"@ => optional_text(value.name),
                "description"@ => optional_text(value.description),
                "mimeType"@ => optional_text(value.mime_type),
            ],
        )
    }

    fn to_json(&self) -> (json: Json) {
        let mut fields = no_fields();
        set_field(&mut fields, "uri", write_text(&self.uri));
        set_field(&mut fields, "name", write_optional_text(&self.name));
        set_field(&mut fields, "description", write_optional_text(&self.description));
        set_field(&mut fields, "mimeType", write_optional_text(&self.mime_type));
        Json::Object(fields)
    }
}

/// What a server answers when asked for its resources.
#[derive(Debug, Clone)]
pub struct ListResourcesResult {
    pub resources: Vec<McpResource>,
}

/// [`ListResourcesResult`] as mathematics.
#[verifier::ext_equal]
pub struct ListResourcesView {
    pub resources: Seq<ResourceView>,
}

impl View for ListResourcesResult {
    type V = ListResourcesView;

    open spec fn view(&self) -> ListResourcesView {
        ListResourcesView {
            resources: views(self.resources@),
        }
    }
}

impl Decode for ListResourcesResult {
    open spec fn decoded(json: JsonView) -> Option<ListResourcesView> {
        let resources = list_of(
            field(json, 0, "resources"@),
            |item: JsonView| McpResource::decoded(item),
        );
        if is_record(json, 1) && resources is Some {
            Some(
                ListResourcesView {
                    resources: resources->0,
                },
            )
        } else {
            None
        }
    }

    fn from_json(json: &Json) -> (value: Option<ListResourcesResult>) {
        if !json.is_record(1) {
            return None;
        }
        let resources = read_list::<McpResource>(json.field(0, "resources"));
        match resources {
            Some(resources) => Some(
                ListResourcesResult { resources },
            ),
            _ => None,
        }
    }
}

/// What a resource holds.
#[derive(Debug, Clone)]
pub struct ReadResourceResult {
    pub contents: Vec<Json>,
}

/// [`ReadResourceResult`] as mathematics.
#[verifier::ext_equal]
pub struct ReadResourceView {
    pub contents: Seq<JsonView>,
}

impl View for ReadResourceResult {
    type V = ReadResourceView;

    open spec fn view(&self) -> ReadResourceView {
        ReadResourceView {
            contents: views(self.contents@),
        }
    }
}

impl Decode for ReadResourceResult {
    open spec fn decoded(json: JsonView) -> Option<ReadResourceView> {
        let contents = list_of(field(json, 0, "contents"@), |item: JsonView| Json::decoded(item));
        if is_record(json, 1) && contents is Some {
            Some(
                ReadResourceView {
                    contents: contents->0,
                },
            )
        } else {
            None
        }
    }

    fn from_json(json: &Json) -> (value: Option<ReadResourceResult>) {
        if !json.is_record(1) {
            return None;
        }
        let contents = read_list::<Json>(json.field(0, "contents"));
        match contents {
            Some(contents) => Some(
                ReadResourceResult { contents },
            ),
            _ => None,
        }
    }
}

// ---------------------------------------------------------------------------
// Prompts
// ---------------------------------------------------------------------------

/// A prompt that a server offers.
#[derive(Debug, Clone)]
pub struct McpPrompt {
    pub name: String,
    pub description: Option<String>,
    pub arguments: Json,
}

/// [`McpPrompt`] as mathematics.
#[verifier::ext_equal]
pub struct PromptView {
    pub name: Seq<char>,
    pub description: Option<Seq<char>>,
    pub arguments: JsonView,
}

impl View for McpPrompt {
    type V = PromptView;

    open spec fn view(&self) -> PromptView {
        PromptView {
            name: self.name@,
            description: option_view(self.description),
            arguments: self.arguments@,
        }
    }
}

impl Decode for McpPrompt {
    open spec fn decoded(json: JsonView) -> Option<PromptView> {
        let name = text_of(field(json, 0, "name"@));
        let description = optional_text_of(field(json, 1, "description"@));
        let arguments = value_of(field(json, 2, "arguments"@));
        if is_record(json, 3) && name is Some && description is Some {
            Some(
                PromptView {
                    name: name->0,
                    description: description->0,
                    arguments,
                },
            )
        } else {
            None
        }
    }

    fn from_json(json: &Json) -> (value: Option<McpPrompt>) {
        if !json.is_record(3) {
            return None;
        }
        let name = read_text(json.field(0, "name"));
        let description = read_optional_text(json.field(1, "description"));
        let arguments = read_value(json.field(2, "arguments"));
        match (name, description) {
            (Some(name), Some(description)) => Some(
                McpPrompt { name, description, arguments },
            ),
            _ => None,
        }
    }
}

impl Encode for McpPrompt {
    open spec fn encoded(value: PromptView) -> JsonView {
        JsonView::Object(
            map![
                "name"@ => JsonView::Str(value.name),
                "description"@ => optional_text(value.description),
                "arguments"@ => value.arguments,
            ],
        )
    }

    fn to_json(&self) -> (json: Json) {
        let mut fields = no_fields();
        set_field(&mut fields, "name", write_text(&self.name));
        set_field(&mut fields, "description", write_optional_text(&self.description));
        set_field(&mut fields, "arguments", self.arguments.clone());
        Json::Object(fields)
    }
}

/// What a server answers when asked for its prompts.
#[derive(Debug, Clone)]
pub struct ListPromptsResult {
    pub prompts: Vec<McpPrompt>,
}

/// [`ListPromptsResult`] as mathematics.
#[verifier::ext_equal]
pub struct ListPromptsView {
    pub prompts: Seq<PromptView>,
}

impl View for ListPromptsResult {
    type V = ListPromptsView;

    open spec fn view(&self) -> ListPromptsView {
        ListPromptsView {
            prompts: views(self.prompts@),
        }
    }
}

impl Decode for ListPromptsResult {
    open spec fn decoded(json: JsonView) -> Option<ListPromptsView> {
        let prompts = list_of(
            field(json, 0, "prompts"@),
            |item: JsonView| McpPrompt::decoded(item),
        );
        if is_record(json, 1) && prompts is Some {
            Some(
                ListPromptsView {
                    prompts: prompts->0,
                },
            )
        } else {
            None
        }
    }

    fn from_json(json: &Json) -> (value: Option<ListPromptsResult>) {
        if !json.is_record(1) {
            return None;
        }
        let prompts = read_list::<McpPrompt>(json.field(0, "prompts"));
        match prompts {
            Some(prompts) => Some(
                ListPromptsResult { prompts },
            ),
            _ => None,
        }
    }
}

// ---------------------------------------------------------------------------
// Notifications
// ---------------------------------------------------------------------------

/// Something that a server says of its own accord.
#[derive(Debug, Clone)]
pub enum McpNotification {
    ToolsListChanged,
    ResourcesListChanged,
    PromptsListChanged,
    Progress { token: Json, progress: Json },
    LogMessage { level: String, data: Json },
    Other { method: String, params: Json },
}

/// [`McpNotification`] as mathematics.
#[verifier::ext_equal]
pub enum NotificationView {
    ToolsListChanged,
    ResourcesListChanged,
    PromptsListChanged,
    Progress { token: JsonView, progress: JsonView },
    LogMessage { level: Seq<char>, data: JsonView },
    Other { method: Seq<char>, params: JsonView },
}

impl View for McpNotification {
    type V = NotificationView;

    open spec fn view(&self) -> NotificationView {
        match *self {
            McpNotification::ToolsListChanged => NotificationView::ToolsListChanged,
            McpNotification::ResourcesListChanged => NotificationView::ResourcesListChanged,
            McpNotification::PromptsListChanged => NotificationView::PromptsListChanged,
            McpNotification::Progress { token, progress } => NotificationView::Progress {
                token: token@,
                progress: progress@,
            },
            McpNotification::LogMessage { level, data } => NotificationView::LogMessage {
                level: level@,
                data: data@,
            },
            McpNotification::Other { method, params } => NotificationView::Other {
                method: method@,
                params: params@,
            },
        }
    }
}

// ---------------------------------------------------------------------------
// Laws: what is written is read back
// ---------------------------------------------------------------------------

/// Hints that were written are read back.
pub proof fn law_annotations_read_back(value: AnnotationsView)
    ensures
        McpAnnotations::decoded(McpAnnotations::encoded(value)) == Some(value),
{
    reveal_strlit("title");
    reveal_strlit("readOnlyHint");
    reveal_strlit("destructiveHint");
    reveal_strlit("idempotentHint");
    reveal_strlit("openWorldHint");
    assert("title"@.len() == 5);
    assert("readOnlyHint"@.len() == 12);
    assert("destructiveHint"@.len() == 15);
    assert("idempotentHint"@.len() == 14);
    assert("openWorldHint"@.len() == 13);
}

/// A tool that was written is read back.
pub proof fn law_tool_reads_back(value: ToolView)
    ensures
        McpTool::decoded(McpTool::encoded(value)) == Some(value),
{
    reveal_strlit("name");
    reveal_strlit("description");
    reveal_strlit("inputSchema");
    reveal_strlit("annotations");
    reveal_strlit("_meta");
    assert("name"@.len() == 4);
    assert("description"@.len() == 11 && "description"@[0] == 'd');
    assert("inputSchema"@.len() == 11 && "inputSchema"@[0] == 'i');
    assert("annotations"@.len() == 11 && "annotations"@[0] == 'a');
    assert("_meta"@.len() == 5);
    law_annotations_read_back(value.annotations);
}

/// A piece of content that was written is read back.
pub proof fn law_content_reads_back(value: ContentView)
    ensures
        McpContent::decoded(McpContent::encoded(value)) == Some(value),
{
    reveal_strlit("type");
    reveal_strlit("text");
    reveal_strlit("image");
    reveal_strlit("resource");
    reveal_strlit("resource_link");
    reveal_strlit("other");
    reveal_strlit("data");
    reveal_strlit("mimeType");
    reveal_strlit("uri");
    reveal_strlit("name");
    assert("type"@.len() == 4 && "type"@[2] == 'p');
    assert("text"@.len() == 4 && "text"@[2] == 'x');
    assert("image"@.len() == 5 && "image"@[0] == 'i');
    assert("resource"@.len() == 8 && "resource"@[0] == 'r');
    assert("resource_link"@.len() == 13);
    assert("other"@.len() == 5 && "other"@[0] == 'o');
    assert("data"@.len() == 4 && "data"@[2] == 't');
    assert("mimeType"@.len() == 8 && "mimeType"@[0] == 'm');
    assert("uri"@.len() == 3);
    assert("name"@.len() == 4 && "name"@[2] == 'm');
}

/// A resource that was written is read back.
pub proof fn law_resource_reads_back(value: ResourceView)
    ensures
        McpResource::decoded(McpResource::encoded(value)) == Some(value),
{
    reveal_strlit("uri");
    reveal_strlit("name");
    reveal_strlit("description");
    reveal_strlit("mimeType");
    assert("uri"@.len() == 3);
    assert("name"@.len() == 4);
    assert("description"@.len() == 11);
    assert("mimeType"@.len() == 8);
}

/// A prompt that was written is read back.
pub proof fn law_prompt_reads_back(value: PromptView)
    ensures
        McpPrompt::decoded(McpPrompt::encoded(value)) == Some(value),
{
    reveal_strlit("name");
    reveal_strlit("description");
    reveal_strlit("arguments");
    assert("name"@.len() == 4);
    assert("description"@.len() == 11);
    assert("arguments"@.len() == 9);
}

// ---------------------------------------------------------------------------
// Laws: which members of a JSON value mean what
// ---------------------------------------------------------------------------

/// What a server says of itself is read from an object exactly if the members that it knows are of
/// the right kinds. Each field is the member of its name, whatever else the object holds.
pub proof fn law_init_is_read_from_members(m: Map<Seq<char>, JsonView>)
    ensures
        InitializeResult::decoded(JsonView::Object(m)) is Some <==> {
            &&& m.contains_key("protocolVersion"@) ==> m["protocolVersion"@] is Str
            &&& m.contains_key("instructions"@) ==>
                m["instructions"@] is Null || m["instructions"@] is Str
        },
        InitializeResult::decoded(JsonView::Object(m)) matches Some(value) ==> {
            &&& m.contains_key("protocolVersion"@) ==>
                m["protocolVersion"@] == JsonView::Str(value.protocol_version)
            &&& !(m.contains_key("protocolVersion"@)) ==> value.protocol_version.len() == 0
            &&& m.contains_key("capabilities"@) ==> value.capabilities == m["capabilities"@]
            &&& !(m.contains_key("capabilities"@)) ==> value.capabilities is Null
            &&& m.contains_key("serverInfo"@) ==> value.server_info == m["serverInfo"@]
            &&& !(m.contains_key("serverInfo"@)) ==> value.server_info is Null
            &&& value.instructions is Some ==>
                m.contains_key("instructions"@)
                && m["instructions"@] == JsonView::Str(value.instructions->0)
            &&& value.instructions is None ==>
                m.contains_key("instructions"@) ==> m["instructions"@] is Null
        },
{
}

/// What a server says of itself may also be listed by position, with fields left out at the end.
pub proof fn law_init_is_read_by_position(items: Seq<JsonView>)
    ensures
        InitializeResult::decoded(JsonView::Array(items)) is Some <==> {
            &&& items.len() <= 4
            &&& 0 < items.len() ==> items[0] is Str
            &&& 3 < items.len() ==> items[3] is Null || items[3] is Str
        },
        InitializeResult::decoded(JsonView::Array(items)) matches Some(value) ==> {
            &&& 0 < items.len() ==> items[0] == JsonView::Str(value.protocol_version)
            &&& !(0 < items.len()) ==> value.protocol_version.len() == 0
            &&& 1 < items.len() ==> value.capabilities == items[1]
            &&& !(1 < items.len()) ==> value.capabilities is Null
            &&& 2 < items.len() ==> value.server_info == items[2]
            &&& !(2 < items.len()) ==> value.server_info is Null
            &&& value.instructions is Some ==>
                3 < items.len() && items[3] == JsonView::Str(value.instructions->0)
            &&& value.instructions is None ==> 3 < items.len() ==> items[3] is Null
        },
{
}

/// What a server says of itself is read from nothing but an object or an array.
pub proof fn law_init_is_a_record(json: JsonView)
    requires
        !(json is Object),
        !(json is Array),
    ensures
        InitializeResult::decoded(json) is None,
{
}

/// What a server says of itself shows each of its fields.
pub proof fn law_init_shows_its_fields(value: InitializeResult)
    ensures
        value@.protocol_version == value.protocol_version@,
        value@.capabilities == value.capabilities@,
        value@.server_info == value.server_info@,
        value@.instructions is Some <==> value.instructions is Some,
        value.instructions is Some ==> value@.instructions->0 == value.instructions->0@,
{
}

/// A set of hints is read from an object exactly if the members that it knows are of the right
/// kinds. Each field is the member of its name, whatever else the object holds.
pub proof fn law_annotations_are_read_from_members(m: Map<Seq<char>, JsonView>)
    ensures
        McpAnnotations::decoded(JsonView::Object(m)) is Some <==> {
            &&& m.contains_key("title"@) ==> m["title"@] is Null || m["title"@] is Str
            &&& m.contains_key("readOnlyHint"@) ==> m["readOnlyHint"@] is Bool
            &&& m.contains_key("destructiveHint"@) ==> m["destructiveHint"@] is Bool
            &&& m.contains_key("idempotentHint"@) ==> m["idempotentHint"@] is Bool
            &&& m.contains_key("openWorldHint"@) ==> m["openWorldHint"@] is Bool
        },
        McpAnnotations::decoded(JsonView::Object(m)) matches Some(value) ==> {
            &&& value.title is Some ==>
                m.contains_key("title"@) && m["title"@] == JsonView::Str(value.title->0)
            &&& value.title is None ==> m.contains_key("title"@) ==> m["title"@] is Null
            &&& m.contains_key("readOnlyHint"@) ==>
                m["readOnlyHint"@] == JsonView::Bool(value.read_only_hint)
            &&& !(m.contains_key("readOnlyHint"@)) ==> !value.read_only_hint
            &&& m.contains_key("destructiveHint"@) ==>
                m["destructiveHint"@] == JsonView::Bool(value.destructive_hint)
            &&& !(m.contains_key("destructiveHint"@)) ==> !value.destructive_hint
            &&& m.contains_key("idempotentHint"@) ==>
                m["idempotentHint"@] == JsonView::Bool(value.idempotent_hint)
            &&& !(m.contains_key("idempotentHint"@)) ==> !value.idempotent_hint
            &&& m.contains_key("openWorldHint"@) ==>
                m["openWorldHint"@] == JsonView::Bool(value.open_world_hint)
            &&& !(m.contains_key("openWorldHint"@)) ==> !value.open_world_hint
        },
{
}

/// A set of hints may also be listed by position, with fields left out at the end.
pub proof fn law_annotations_are_read_by_position(items: Seq<JsonView>)
    ensures
        McpAnnotations::decoded(JsonView::Array(items)) is Some <==> {
            &&& items.len() <= 5
            &&& 0 < items.len() ==> items[0] is Null || items[0] is Str
            &&& 1 < items.len() ==> items[1] is Bool
            &&& 2 < items.len() ==> items[2] is Bool
            &&& 3 < items.len() ==> items[3] is Bool
            &&& 4 < items.len() ==> items[4] is Bool
        },
        McpAnnotations::decoded(JsonView::Array(items)) matches Some(value) ==> {
            &&& value.title is Some ==> 0 < items.len() && items[0] == JsonView::Str(value.title->0)
            &&& value.title is None ==> 0 < items.len() ==> items[0] is Null
            &&& 1 < items.len() ==> items[1] == JsonView::Bool(value.read_only_hint)
            &&& !(1 < items.len()) ==> !value.read_only_hint
            &&& 2 < items.len() ==> items[2] == JsonView::Bool(value.destructive_hint)
            &&& !(2 < items.len()) ==> !value.destructive_hint
            &&& 3 < items.len() ==> items[3] == JsonView::Bool(value.idempotent_hint)
            &&& !(3 < items.len()) ==> !value.idempotent_hint
            &&& 4 < items.len() ==> items[4] == JsonView::Bool(value.open_world_hint)
            &&& !(4 < items.len()) ==> !value.open_world_hint
        },
{
}

/// A set of hints is read from nothing but an object or an array.
pub proof fn law_annotations_is_a_record(json: JsonView)
    requires
        !(json is Object),
        !(json is Array),
    ensures
        McpAnnotations::decoded(json) is None,
{
}

/// A set of hints is written as an object that has these members and no others.
pub proof fn law_annotations_are_written_as_members(value: AnnotationsView)
    ensures
        McpAnnotations::encoded(value) is Object,
        ({
            let m = McpAnnotations::encoded(value)->Object_0;
            &&& forall|key: Seq<char>| #[trigger]
                m.contains_key(key) <==>
                    key == "title"@ || key == "readOnlyHint"@ || key == "destructiveHint"@
                    || key == "idempotentHint"@ || key == "openWorldHint"@
            &&& value.title is Some ==> m["title"@] == JsonView::Str(value.title->0)
            &&& value.title is None ==> m["title"@] is Null
            &&& m["readOnlyHint"@] == JsonView::Bool(value.read_only_hint)
            &&& m["destructiveHint"@] == JsonView::Bool(value.destructive_hint)
            &&& m["idempotentHint"@] == JsonView::Bool(value.idempotent_hint)
            &&& m["openWorldHint"@] == JsonView::Bool(value.open_world_hint)
        }),
{
    reveal_strlit("title");
    reveal_strlit("readOnlyHint");
    reveal_strlit("destructiveHint");
    reveal_strlit("idempotentHint");
    reveal_strlit("openWorldHint");
    assert("title"@.len() == 5);
    assert("readOnlyHint"@.len() == 12);
    assert("destructiveHint"@.len() == 15);
    assert("idempotentHint"@.len() == 14);
    assert("openWorldHint"@.len() == 13);
}

/// A set of hints shows each of its fields.
pub proof fn law_annotations_show_their_fields(value: McpAnnotations)
    ensures
        value@.title is Some <==> value.title is Some,
        value.title is Some ==> value@.title->0 == value.title->0@,
        value@.read_only_hint == value.read_only_hint,
        value@.destructive_hint == value.destructive_hint,
        value@.idempotent_hint == value.idempotent_hint,
        value@.open_world_hint == value.open_world_hint,
{
}

/// A tool is read from an object exactly if the members that it knows are of the right kinds. Each
/// field is the member of its name, whatever else the object holds.
pub proof fn law_tool_is_read_from_members(m: Map<Seq<char>, JsonView>)
    ensures
        McpTool::decoded(JsonView::Object(m)) is Some <==> {
            &&& m.contains_key("name"@) && m["name"@] is Str
            &&& m.contains_key("description"@) ==>
                m["description"@] is Null || m["description"@] is Str
            &&& m.contains_key("annotations"@) ==>
                McpAnnotations::decoded(m["annotations"@]) is Some
        },
        McpTool::decoded(JsonView::Object(m)) matches Some(value) ==> {
            &&& m["name"@] == JsonView::Str(value.name)
            &&& value.description is Some ==>
                m.contains_key("description"@)
                && m["description"@] == JsonView::Str(value.description->0)
            &&& value.description is None ==>
                m.contains_key("description"@) ==> m["description"@] is Null
            &&& m.contains_key("inputSchema"@) ==> value.input_schema == m["inputSchema"@]
            &&& !(m.contains_key("inputSchema"@)) ==> value.input_schema == JsonView::Object(
                map!["type"@ => JsonView::Str("object"@)],
            )
            &&& m.contains_key("annotations"@) ==>
                McpAnnotations::decoded(m["annotations"@]) == Some(value.annotations)
            &&& !(m.contains_key("annotations"@)) ==>
                value.annotations.title is None && !value.annotations.read_only_hint
                && !value.annotations.destructive_hint
            && !value.annotations.idempotent_hint && !value.annotations.open_world_hint
            &&& m.contains_key("_meta"@) ==> value.meta == m["_meta"@]
            &&& !(m.contains_key("_meta"@)) ==> value.meta is Null
        },
{
}

/// A tool may also be listed by position, with fields left out at the end.
pub proof fn law_tool_is_read_by_position(items: Seq<JsonView>)
    ensures
        McpTool::decoded(JsonView::Array(items)) is Some <==> {
            &&& items.len() <= 5
            &&& 0 < items.len() && items[0] is Str
            &&& 1 < items.len() ==> items[1] is Null || items[1] is Str
            &&& 3 < items.len() ==> McpAnnotations::decoded(items[3]) is Some
        },
        McpTool::decoded(JsonView::Array(items)) matches Some(value) ==> {
            &&& items[0] == JsonView::Str(value.name)
            &&& value.description is Some ==>
                1 < items.len() && items[1] == JsonView::Str(value.description->0)
            &&& value.description is None ==> 1 < items.len() ==> items[1] is Null
            &&& 2 < items.len() ==> value.input_schema == items[2]
            &&& !(2 < items.len()) ==> value.input_schema == JsonView::Object(
                map!["type"@ => JsonView::Str("object"@)],
            )
            &&& 3 < items.len() ==> McpAnnotations::decoded(items[3]) == Some(value.annotations)
            &&& !(3 < items.len()) ==>
                value.annotations.title is None && !value.annotations.read_only_hint
                && !value.annotations.destructive_hint
            && !value.annotations.idempotent_hint && !value.annotations.open_world_hint
            &&& 4 < items.len() ==> value.meta == items[4]
            &&& !(4 < items.len()) ==> value.meta is Null
        },
{
}

/// A tool is read from nothing but an object or an array.
pub proof fn law_tool_is_a_record(json: JsonView)
    requires
        !(json is Object),
        !(json is Array),
    ensures
        McpTool::decoded(json) is None,
{
}

/// A tool is written as an object that has these members and no others.
pub proof fn law_tool_is_written_as_members(value: ToolView)
    ensures
        McpTool::encoded(value) is Object,
        ({
            let m = McpTool::encoded(value)->Object_0;
            &&& forall|key: Seq<char>| #[trigger]
                m.contains_key(key) <==>
                    key == "name"@ || key == "description"@ || key == "inputSchema"@
                    || key == "annotations"@ || key == "_meta"@
            &&& m["name"@] == JsonView::Str(value.name)
            &&& value.description is Some ==>
                m["description"@] == JsonView::Str(value.description->0)
            &&& value.description is None ==> m["description"@] is Null
            &&& m["inputSchema"@] == value.input_schema
            &&& m["annotations"@] == McpAnnotations::encoded(value.annotations)
            &&& m["_meta"@] == value.meta
        }),
{
    reveal_strlit("name");
    reveal_strlit("description");
    reveal_strlit("inputSchema");
    reveal_strlit("annotations");
    reveal_strlit("_meta");
    assert("name"@.len() == 4);
    assert("description"@.len() == 11 && "description"@[0] == 'd');
    assert("inputSchema"@.len() == 11 && "inputSchema"@[0] == 'i');
    assert("annotations"@.len() == 11 && "annotations"@[0] == 'a');
    assert("_meta"@.len() == 5);
}

/// A tool shows each of its fields.
pub proof fn law_tool_shows_its_fields(value: McpTool)
    ensures
        value@.name == value.name@,
        value@.description is Some <==> value.description is Some,
        value.description is Some ==> value@.description->0 == value.description->0@,
        value@.input_schema == value.input_schema@,
        value@.annotations == value.annotations@,
        value@.meta == value.meta@,
{
}

/// A list of tools is read from an object exactly if the members that it knows are of the right
/// kinds. Each field is the member of its name, whatever else the object holds.
pub proof fn law_tools_are_read_from_members(m: Map<Seq<char>, JsonView>)
    ensures
        ListToolsResult::decoded(JsonView::Object(m)) is Some <==> {
            &&& m.contains_key("tools"@) ==> m["tools"@] is Array && forall|i: int|
            0 <= i < m["tools"@]->Array_0.len() ==>
                McpTool::decoded(#[trigger] m["tools"@]->Array_0[i]) is Some
        },
        ListToolsResult::decoded(JsonView::Object(m)) matches Some(value) ==> {
            &&& m.contains_key("tools"@) ==>
                value.tools.len() == m["tools"@]->Array_0.len() && forall|i: int|
            0 <= i < value.tools.len() ==>
                McpTool::decoded(#[trigger] m["tools"@]->Array_0[i]) == Some(value.tools[i])
            &&& !(m.contains_key("tools"@)) ==> value.tools.len() == 0
        },
{
}

/// A list of tools may also be listed by position, with fields left out at the end.
pub proof fn law_tools_are_read_by_position(items: Seq<JsonView>)
    ensures
        ListToolsResult::decoded(JsonView::Array(items)) is Some <==> {
            &&& items.len() <= 1
            &&& 0 < items.len() ==> items[0] is Array && forall|i: int|
            0 <= i < items[0]->Array_0.len() ==>
                McpTool::decoded(#[trigger] items[0]->Array_0[i]) is Some
        },
        ListToolsResult::decoded(JsonView::Array(items)) matches Some(value) ==> {
            &&& 0 < items.len() ==> value.tools.len() == items[0]->Array_0.len() && forall|i: int|
            0 <= i < value.tools.len() ==>
                McpTool::decoded(#[trigger] items[0]->Array_0[i]) == Some(value.tools[i])
            &&& !(0 < items.len()) ==> value.tools.len() == 0
        },
{
}

/// A list of tools is read from nothing but an object or an array.
pub proof fn law_tools_is_a_record(json: JsonView)
    requires
        !(json is Object),
        !(json is Array),
    ensures
        ListToolsResult::decoded(json) is None,
{
}

/// A list of tools shows each of its fields.
pub proof fn law_tools_show_their_fields(value: ListToolsResult)
    ensures
        value@.tools.len() == value.tools@.len(),
        forall|i: int| 0 <= i < value.tools@.len() ==>
            value@.tools[i] == #[trigger] value.tools@[i]@,
{
}

/// What a tool call came to is read from an object exactly if the members that it knows are of the
/// right kinds. Each field is the member of its name, whatever else the object holds.
pub proof fn law_call_result_is_read_from_members(m: Map<Seq<char>, JsonView>)
    ensures
        CallToolResult::decoded(JsonView::Object(m)) is Some <==> {
            &&& m.contains_key("content"@) ==> m["content"@] is Array && forall|i: int|
            0 <= i < m["content"@]->Array_0.len() ==>
                McpContent::decoded(#[trigger] m["content"@]->Array_0[i]) is Some
            &&& m.contains_key("isError"@) ==> m["isError"@] is Bool
        },
        CallToolResult::decoded(JsonView::Object(m)) matches Some(value) ==> {
            &&& m.contains_key("content"@) ==>
                value.content.len() == m["content"@]->Array_0.len() && forall|i: int|
            0 <= i < value.content.len() ==>
                McpContent::decoded(#[trigger] m["content"@]->Array_0[i]) == Some(value.content[i])
            &&& !(m.contains_key("content"@)) ==> value.content.len() == 0
            &&& m.contains_key("isError"@) ==> m["isError"@] == JsonView::Bool(value.is_error)
            &&& !(m.contains_key("isError"@)) ==> !value.is_error
            &&& m.contains_key("_meta"@) ==> value.meta == m["_meta"@]
            &&& !(m.contains_key("_meta"@)) ==> value.meta is Null
            &&& m.contains_key("structuredContent"@) ==>
                value.structured_content == m["structuredContent"@]
            &&& !(m.contains_key("structuredContent"@)) ==> value.structured_content is Null
        },
{
}

/// What a tool call came to may also be listed by position, with fields left out at the end.
pub proof fn law_call_result_is_read_by_position(items: Seq<JsonView>)
    ensures
        CallToolResult::decoded(JsonView::Array(items)) is Some <==> {
            &&& items.len() <= 4
            &&& 0 < items.len() ==> items[0] is Array && forall|i: int|
            0 <= i < items[0]->Array_0.len() ==>
                McpContent::decoded(#[trigger] items[0]->Array_0[i]) is Some
            &&& 1 < items.len() ==> items[1] is Bool
        },
        CallToolResult::decoded(JsonView::Array(items)) matches Some(value) ==> {
            &&& 0 < items.len() ==> value.content.len() == items[0]->Array_0.len() && forall|i: int|
            0 <= i < value.content.len() ==>
                McpContent::decoded(#[trigger] items[0]->Array_0[i]) == Some(value.content[i])
            &&& !(0 < items.len()) ==> value.content.len() == 0
            &&& 1 < items.len() ==> items[1] == JsonView::Bool(value.is_error)
            &&& !(1 < items.len()) ==> !value.is_error
            &&& 2 < items.len() ==> value.meta == items[2]
            &&& !(2 < items.len()) ==> value.meta is Null
            &&& 3 < items.len() ==> value.structured_content == items[3]
            &&& !(3 < items.len()) ==> value.structured_content is Null
        },
{
}

/// What a tool call came to is read from nothing but an object or an array.
pub proof fn law_call_result_is_a_record(json: JsonView)
    requires
        !(json is Object),
        !(json is Array),
    ensures
        CallToolResult::decoded(json) is None,
{
}

/// What a tool call came to shows each of its fields.
pub proof fn law_call_result_shows_its_fields(value: CallToolResult)
    ensures
        value@.content.len() == value.content@.len(),
        forall|i: int| 0 <= i < value.content@.len() ==>
            value@.content[i] == #[trigger] value.content@[i]@,
        value@.is_error == value.is_error,
        value@.meta == value.meta@,
        value@.structured_content == value.structured_content@,
{
}

/// A resource is read from an object exactly if the members that it knows are of the right kinds.
/// Each field is the member of its name, whatever else the object holds.
pub proof fn law_resource_is_read_from_members(m: Map<Seq<char>, JsonView>)
    ensures
        McpResource::decoded(JsonView::Object(m)) is Some <==> {
            &&& m.contains_key("uri"@) && m["uri"@] is Str
            &&& m.contains_key("name"@) ==> m["name"@] is Null || m["name"@] is Str
            &&& m.contains_key("description"@) ==>
                m["description"@] is Null || m["description"@] is Str
            &&& m.contains_key("mimeType"@) ==> m["mimeType"@] is Null || m["mimeType"@] is Str
        },
        McpResource::decoded(JsonView::Object(m)) matches Some(value) ==> {
            &&& m["uri"@] == JsonView::Str(value.uri)
            &&& value.name is Some ==>
                m.contains_key("name"@) && m["name"@] == JsonView::Str(value.name->0)
            &&& value.name is None ==> m.contains_key("name"@) ==> m["name"@] is Null
            &&& value.description is Some ==>
                m.contains_key("description"@)
                && m["description"@] == JsonView::Str(value.description->0)
            &&& value.description is None ==>
                m.contains_key("description"@) ==> m["description"@] is Null
            &&& value.mime_type is Some ==>
                m.contains_key("mimeType"@) && m["mimeType"@] == JsonView::Str(value.mime_type->0)
            &&& value.mime_type is None ==> m.contains_key("mimeType"@) ==> m["mimeType"@] is Null
        },
{
}

/// A resource may also be listed by position, with fields left out at the end.
pub proof fn law_resource_is_read_by_position(items: Seq<JsonView>)
    ensures
        McpResource::decoded(JsonView::Array(items)) is Some <==> {
            &&& items.len() <= 4
            &&& 0 < items.len() && items[0] is Str
            &&& 1 < items.len() ==> items[1] is Null || items[1] is Str
            &&& 2 < items.len() ==> items[2] is Null || items[2] is Str
            &&& 3 < items.len() ==> items[3] is Null || items[3] is Str
        },
        McpResource::decoded(JsonView::Array(items)) matches Some(value) ==> {
            &&& items[0] == JsonView::Str(value.uri)
            &&& value.name is Some ==> 1 < items.len() && items[1] == JsonView::Str(value.name->0)
            &&& value.name is None ==> 1 < items.len() ==> items[1] is Null
            &&& value.description is Some ==>
                2 < items.len() && items[2] == JsonView::Str(value.description->0)
            &&& value.description is None ==> 2 < items.len() ==> items[2] is Null
            &&& value.mime_type is Some ==>
                3 < items.len() && items[3] == JsonView::Str(value.mime_type->0)
            &&& value.mime_type is None ==> 3 < items.len() ==> items[3] is Null
        },
{
}

/// A resource is read from nothing but an object or an array.
pub proof fn law_resource_is_a_record(json: JsonView)
    requires
        !(json is Object),
        !(json is Array),
    ensures
        McpResource::decoded(json) is None,
{
}

/// A resource is written as an object that has these members and no others.
pub proof fn law_resource_is_written_as_members(value: ResourceView)
    ensures
        McpResource::encoded(value) is Object,
        ({
            let m = McpResource::encoded(value)->Object_0;
            &&& forall|key: Seq<char>| #[trigger]
                m.contains_key(key) <==>
                    key == "uri"@ || key == "name"@ || key == "description"@ || key == "mimeType"@
            &&& m["uri"@] == JsonView::Str(value.uri)
            &&& value.name is Some ==> m["name"@] == JsonView::Str(value.name->0)
            &&& value.name is None ==> m["name"@] is Null
            &&& value.description is Some ==>
                m["description"@] == JsonView::Str(value.description->0)
            &&& value.description is None ==> m["description"@] is Null
            &&& value.mime_type is Some ==> m["mimeType"@] == JsonView::Str(value.mime_type->0)
            &&& value.mime_type is None ==> m["mimeType"@] is Null
        }),
{
    reveal_strlit("uri");
    reveal_strlit("name");
    reveal_strlit("description");
    reveal_strlit("mimeType");
    assert("uri"@.len() == 3);
    assert("name"@.len() == 4);
    assert("description"@.len() == 11);
    assert("mimeType"@.len() == 8);
}

/// A resource shows each of its fields.
pub proof fn law_resource_shows_its_fields(value: McpResource)
    ensures
        value@.uri == value.uri@,
        value@.name is Some <==> value.name is Some,
        value.name is Some ==> value@.name->0 == value.name->0@,
        value@.description is Some <==> value.description is Some,
        value.description is Some ==> value@.description->0 == value.description->0@,
        value@.mime_type is Some <==> value.mime_type is Some,
        value.mime_type is Some ==> value@.mime_type->0 == value.mime_type->0@,
{
}

/// A list of resources is read from an object exactly if the members that it knows are of the
/// right kinds. Each field is the member of its name, whatever else the object holds.
pub proof fn law_resources_are_read_from_members(m: Map<Seq<char>, JsonView>)
    ensures
        ListResourcesResult::decoded(JsonView::Object(m)) is Some <==> {
            &&& m.contains_key("resources"@) ==> m["resources"@] is Array && forall|i: int|
            0 <= i < m["resources"@]->Array_0.len() ==>
                McpResource::decoded(#[trigger] m["resources"@]->Array_0[i]) is Some
        },
        ListResourcesResult::decoded(JsonView::Object(m)) matches Some(value) ==> {
            &&& m.contains_key("resources"@) ==>
                value.resources.len() == m["resources"@]->Array_0.len() && forall|i: int|
            0 <= i < value.resources.len() ==>
                McpResource::decoded(#[trigger] m["resources"@]->Array_0[i]) == Some(
                    value.resources[i],
                )
            &&& !(m.contains_key("resources"@)) ==> value.resources.len() == 0
        },
{
}

/// A list of resources may also be listed by position, with fields left out at the end.
pub proof fn law_resources_are_read_by_position(items: Seq<JsonView>)
    ensures
        ListResourcesResult::decoded(JsonView::Array(items)) is Some <==> {
            &&& items.len() <= 1
            &&& 0 < items.len() ==> items[0] is Array && forall|i: int|
            0 <= i < items[0]->Array_0.len() ==>
                McpResource::decoded(#[trigger] items[0]->Array_0[i]) is Some
        },
        ListResourcesResult::decoded(JsonView::Array(items)) matches Some(value) ==> {
            &&& 0 < items.len() ==>
                value.resources.len() == items[0]->Array_0.len() && forall|i: int|
            0 <= i < value.resources.len() ==>
                McpResource::decoded(#[trigger] items[0]->Array_0[i]) == Some(value.resources[i])
            &&& !(0 < items.len()) ==> value.resources.len() == 0
        },
{
}

/// A list of resources is read from nothing but an object or an array.
pub proof fn law_resources_is_a_record(json: JsonView)
    requires
        !(json is Object),
        !(json is Array),
    ensures
        ListResourcesResult::decoded(json) is None,
{
}

/// A list of resources shows each of its fields.
pub proof fn law_resources_show_their_fields(value: ListResourcesResult)
    ensures
        value@.resources.len() == value.resources@.len(),
        forall|i: int| 0 <= i < value.resources@.len() ==>
            value@.resources[i] == #[trigger] value.resources@[i]@,
{
}

/// What a resource holds is read from an object exactly if the members that it knows are of the
/// right kinds. Each field is the member of its name, whatever else the object holds.
pub proof fn law_contents_are_read_from_members(m: Map<Seq<char>, JsonView>)
    ensures
        ReadResourceResult::decoded(JsonView::Object(m)) is Some <==> {
            &&& m.contains_key("contents"@) ==> m["contents"@] is Array
        },
        ReadResourceResult::decoded(JsonView::Object(m)) matches Some(value) ==> {
            &&& m.contains_key("contents"@) ==> m["contents"@] == JsonView::Array(value.contents)
            &&& !(m.contains_key("contents"@)) ==> value.contents.len() == 0
        },
{
    if m.contains_key("contents"@) && m["contents"@] is Array {
        let items = m["contents"@]->Array_0;
        assert(ReadResourceResult::decoded(JsonView::Object(m))->0.contents =~= items);
    }
}

/// What a resource holds may also be listed by position, with fields left out at the end.
pub proof fn law_contents_are_read_by_position(items: Seq<JsonView>)
    ensures
        ReadResourceResult::decoded(JsonView::Array(items)) is Some <==> {
            &&& items.len() <= 1
            &&& 0 < items.len() ==> items[0] is Array
        },
        ReadResourceResult::decoded(JsonView::Array(items)) matches Some(value) ==> {
            &&& 0 < items.len() ==> items[0] == JsonView::Array(value.contents)
            &&& !(0 < items.len()) ==> value.contents.len() == 0
        },
{
    if items.len() > 0 && items[0] is Array {
        let inner = items[0]->Array_0;
        if items.len() == 1 {
            assert(ReadResourceResult::decoded(JsonView::Array(items))->0.contents =~= inner);
        }
    }
}

/// What a resource holds is read from nothing but an object or an array.
pub proof fn law_contents_is_a_record(json: JsonView)
    requires
        !(json is Object),
        !(json is Array),
    ensures
        ReadResourceResult::decoded(json) is None,
{
}

/// What a resource holds shows each of its fields.
pub proof fn law_contents_show_their_fields(value: ReadResourceResult)
    ensures
        value@.contents.len() == value.contents@.len(),
        forall|i: int| 0 <= i < value.contents@.len() ==>
            value@.contents[i] == #[trigger] value.contents@[i]@,
{
}

/// A prompt is read from an object exactly if the members that it knows are of the right kinds.
/// Each field is the member of its name, whatever else the object holds.
pub proof fn law_prompt_is_read_from_members(m: Map<Seq<char>, JsonView>)
    ensures
        McpPrompt::decoded(JsonView::Object(m)) is Some <==> {
            &&& m.contains_key("name"@) && m["name"@] is Str
            &&& m.contains_key("description"@) ==>
                m["description"@] is Null || m["description"@] is Str
        },
        McpPrompt::decoded(JsonView::Object(m)) matches Some(value) ==> {
            &&& m["name"@] == JsonView::Str(value.name)
            &&& value.description is Some ==>
                m.contains_key("description"@)
                && m["description"@] == JsonView::Str(value.description->0)
            &&& value.description is None ==>
                m.contains_key("description"@) ==> m["description"@] is Null
            &&& m.contains_key("arguments"@) ==> value.arguments == m["arguments"@]
            &&& !(m.contains_key("arguments"@)) ==> value.arguments is Null
        },
{
}

/// A prompt may also be listed by position, with fields left out at the end.
pub proof fn law_prompt_is_read_by_position(items: Seq<JsonView>)
    ensures
        McpPrompt::decoded(JsonView::Array(items)) is Some <==> {
            &&& items.len() <= 3
            &&& 0 < items.len() && items[0] is Str
            &&& 1 < items.len() ==> items[1] is Null || items[1] is Str
        },
        McpPrompt::decoded(JsonView::Array(items)) matches Some(value) ==> {
            &&& items[0] == JsonView::Str(value.name)
            &&& value.description is Some ==>
                1 < items.len() && items[1] == JsonView::Str(value.description->0)
            &&& value.description is None ==> 1 < items.len() ==> items[1] is Null
            &&& 2 < items.len() ==> value.arguments == items[2]
            &&& !(2 < items.len()) ==> value.arguments is Null
        },
{
}

/// A prompt is read from nothing but an object or an array.
pub proof fn law_prompt_is_a_record(json: JsonView)
    requires
        !(json is Object),
        !(json is Array),
    ensures
        McpPrompt::decoded(json) is None,
{
}

/// A prompt is written as an object that has these members and no others.
pub proof fn law_prompt_is_written_as_members(value: PromptView)
    ensures
        McpPrompt::encoded(value) is Object,
        ({
            let m = McpPrompt::encoded(value)->Object_0;
            &&& forall|key: Seq<char>| #[trigger]
                m.contains_key(key) <==>
                    key == "name"@ || key == "description"@ || key == "arguments"@
            &&& m["name"@] == JsonView::Str(value.name)
            &&& value.description is Some ==>
                m["description"@] == JsonView::Str(value.description->0)
            &&& value.description is None ==> m["description"@] is Null
            &&& m["arguments"@] == value.arguments
        }),
{
    reveal_strlit("name");
    reveal_strlit("description");
    reveal_strlit("arguments");
    assert("name"@.len() == 4);
    assert("description"@.len() == 11);
    assert("arguments"@.len() == 9);
}

/// A prompt shows each of its fields.
pub proof fn law_prompt_shows_its_fields(value: McpPrompt)
    ensures
        value@.name == value.name@,
        value@.description is Some <==> value.description is Some,
        value.description is Some ==> value@.description->0 == value.description->0@,
        value@.arguments == value.arguments@,
{
}

/// A list of prompts is read from an object exactly if the members that it knows are of the right
/// kinds. Each field is the member of its name, whatever else the object holds.
pub proof fn law_prompts_are_read_from_members(m: Map<Seq<char>, JsonView>)
    ensures
        ListPromptsResult::decoded(JsonView::Object(m)) is Some <==> {
            &&& m.contains_key("prompts"@) ==> m["prompts"@] is Array && forall|i: int|
            0 <= i < m["prompts"@]->Array_0.len() ==>
                McpPrompt::decoded(#[trigger] m["prompts"@]->Array_0[i]) is Some
        },
        ListPromptsResult::decoded(JsonView::Object(m)) matches Some(value) ==> {
            &&& m.contains_key("prompts"@) ==>
                value.prompts.len() == m["prompts"@]->Array_0.len() && forall|i: int|
            0 <= i < value.prompts.len() ==>
                McpPrompt::decoded(#[trigger] m["prompts"@]->Array_0[i]) == Some(value.prompts[i])
            &&& !(m.contains_key("prompts"@)) ==> value.prompts.len() == 0
        },
{
}

/// A list of prompts may also be listed by position, with fields left out at the end.
pub proof fn law_prompts_are_read_by_position(items: Seq<JsonView>)
    ensures
        ListPromptsResult::decoded(JsonView::Array(items)) is Some <==> {
            &&& items.len() <= 1
            &&& 0 < items.len() ==> items[0] is Array && forall|i: int|
            0 <= i < items[0]->Array_0.len() ==>
                McpPrompt::decoded(#[trigger] items[0]->Array_0[i]) is Some
        },
        ListPromptsResult::decoded(JsonView::Array(items)) matches Some(value) ==> {
            &&& 0 < items.len() ==> value.prompts.len() == items[0]->Array_0.len() && forall|i: int|
            0 <= i < value.prompts.len() ==>
                McpPrompt::decoded(#[trigger] items[0]->Array_0[i]) == Some(value.prompts[i])
            &&& !(0 < items.len()) ==> value.prompts.len() == 0
        },
{
}

/// A list of prompts is read from nothing but an object or an array.
pub proof fn law_prompts_is_a_record(json: JsonView)
    requires
        !(json is Object),
        !(json is Array),
    ensures
        ListPromptsResult::decoded(json) is None,
{
}

/// A list of prompts shows each of its fields.
pub proof fn law_prompts_show_their_fields(value: ListPromptsResult)
    ensures
        value@.prompts.len() == value.prompts@.len(),
        forall|i: int| 0 <= i < value.prompts@.len() ==>
            value@.prompts[i] == #[trigger] value.prompts@[i]@,
{
}

/// What a client says of itself is written as an object that has these members and no others.
pub proof fn law_client_info_is_written_as_members(value: ClientInfoView)
    ensures
        ClientInfo::encoded(value) is Object,
        ({
            let m = ClientInfo::encoded(value)->Object_0;
            &&& forall|key: Seq<char>| #[trigger]
                m.contains_key(key) <==> key == "name"@ || key == "version"@
            &&& m["name"@] == JsonView::Str(value.name)
            &&& m["version"@] == JsonView::Str(value.version)
        }),
{
    reveal_strlit("name");
    reveal_strlit("version");
    assert("name"@.len() == 4);
    assert("version"@.len() == 7);
}

/// What a client says of itself shows each of its fields.
pub proof fn law_client_info_shows_its_fields(value: ClientInfo)
    ensures
        value@.name == value.name@,
        value@.version == value.version@,
{
}

/// Content is read from an object by its member `type`. Of each kind that is known, the fields are
/// the members of their names, and a kind that is not known needs none.
pub proof fn law_content_is_read_from_members(m: Map<Seq<char>, JsonView>)
    ensures
        ({
            let content = McpContent::decoded(JsonView::Object(m));
            let tag = m["type"@]->Str_0;
            if !m.contains_key("type"@) || !(m["type"@] is Str) {
                content is None
            } else if tag == "text"@ {
                &&& content is Some <==> m.contains_key("text"@) && m["text"@] is Str
                &&& content is Some ==> content->0 is Text && m["text"@] == JsonView::Str(
                    content->0->Text_text,
                )
            } else if tag == "image"@ {
                &&& content is Some <==> m.contains_key("data"@) && m["data"@] is Str
                    && m.contains_key("mimeType"@) && m["mimeType"@] is Str
                &&& content is Some ==> content->0 is Image && m["data"@] == JsonView::Str(
                    content->0->Image_data,
                ) && m["mimeType"@] == JsonView::Str(content->0->Image_mime_type)
            } else if tag == "resource"@ {
                &&& content is Some <==> m.contains_key("resource"@)
                &&& content is Some ==> content->0 is Resource && m["resource"@]
                    == content->0->Resource_resource
            } else if tag == "resource_link"@ {
                &&& content is Some <==> m.contains_key("uri"@) && m["uri"@] is Str && (
                m.contains_key("name"@) ==> m["name"@] is Null || m["name"@] is Str) && (
                m.contains_key("mimeType"@) ==> m["mimeType"@] is Null || m["mimeType"@] is Str)
                &&& content is Some ==> content->0 is ResourceLink && m["uri"@] == JsonView::Str(
                    content->0->ResourceLink_uri,
                )
                &&& content is Some ==> match content->0->ResourceLink_name {
                    Some(name) => m.contains_key("name"@) && m["name"@] == JsonView::Str(name),
                    None => m.contains_key("name"@) ==> m["name"@] is Null,
                }
                &&& content is Some ==> match content->0->ResourceLink_mime_type {
                    Some(kind) => m.contains_key("mimeType"@) && m["mimeType"@] == JsonView::Str(
                        kind,
                    ),
                    None => m.contains_key("mimeType"@) ==> m["mimeType"@] is Null,
                }
            } else {
                content == Some(ContentView::Other)
            }
        }),
{
}

/// Content shows each of its fields.
pub proof fn law_content_shows_its_fields(value: McpContent)
    ensures
        match value {
            McpContent::Text { text } => value@ is Text && value@->Text_text == text@,
            McpContent::Image { data, mime_type } => {
                &&& value@ is Image
                &&& value@->Image_data == data@
                &&& value@->Image_mime_type == mime_type@
            },
            McpContent::Resource { resource } => {
                &&& value@ is Resource
                &&& value@->Resource_resource == resource@
            },
            McpContent::ResourceLink { uri, name, mime_type } => {
                &&& value@ is ResourceLink
                &&& value@->ResourceLink_uri == uri@
                &&& value@->ResourceLink_name is Some <==> name is Some
                &&& name is Some ==> value@->ResourceLink_name->0 == name->0@
                &&& value@->ResourceLink_mime_type is Some <==> mime_type is Some
                &&& mime_type is Some ==> value@->ResourceLink_mime_type->0 == mime_type->0@
            },
            McpContent::Other => value@ is Other,
        },
{
}

/// A notification shows each of its fields.
pub proof fn law_notification_shows_its_fields(value: McpNotification)
    ensures
        match value {
            McpNotification::ToolsListChanged => value@ is ToolsListChanged,
            McpNotification::ResourcesListChanged => value@ is ResourcesListChanged,
            McpNotification::PromptsListChanged => value@ is PromptsListChanged,
            McpNotification::Progress { token, progress } => {
                value@ == (NotificationView::Progress { token: token@, progress: progress@ })
            },
            McpNotification::LogMessage { level, data } => {
                value@ == (NotificationView::LogMessage { level: level@, data: data@ })
            },
            McpNotification::Other { method, params } => {
                value@ == (NotificationView::Other { method: method@, params: params@ })
            },
        },
{
}

/// Content may also be listed by position, its kind first.
pub proof fn law_content_is_read_by_position(items: Seq<JsonView>)
    ensures
        ({
            let content = McpContent::decoded(JsonView::Array(items));
            let tag = items[0]->Str_0;
            if items.len() == 0 || !(items[0] is Str) {
                content is None
            } else if tag == "text"@ {
                &&& content is Some <==> items.len() == 2 && items[1] is Str
                &&& content is Some ==> content->0 is Text && items[1] == JsonView::Str(
                    content->0->Text_text,
                )
            } else if tag == "image"@ {
                &&& content is Some <==> items.len() == 3 && items[1] is Str && items[2] is Str
                &&& content is Some ==> content->0 is Image && items[1] == JsonView::Str(
                    content->0->Image_data,
                ) && items[2] == JsonView::Str(content->0->Image_mime_type)
            } else if tag == "resource"@ {
                &&& content is Some <==> items.len() == 2
                &&& content is Some ==> content->0 is Resource && items[1]
                    == content->0->Resource_resource
            } else if tag == "resource_link"@ {
                &&& content is Some <==> 2 <= items.len() <= 4 && items[1] is Str && (items.len()
                    > 2 ==> items[2] is Null || items[2] is Str) && (items.len() > 3
                    ==> items[3] is Null || items[3] is Str)
                &&& content is Some ==> content->0 is ResourceLink && items[1] == JsonView::Str(
                    content->0->ResourceLink_uri,
                )
                &&& content is Some ==> match content->0->ResourceLink_name {
                    Some(name) => items.len() > 2 && items[2] == JsonView::Str(name),
                    None => items.len() > 2 ==> items[2] is Null,
                }
                &&& content is Some ==> match content->0->ResourceLink_mime_type {
                    Some(kind) => items.len() > 3 && items[3] == JsonView::Str(kind),
                    None => items.len() > 3 ==> items[3] is Null,
                }
            } else {
                &&& content is Some <==> items.len() == 1
                &&& content is Some ==> content->0 is Other
            }
        }),
{
}

/// Content is read from nothing but an object or an array.
pub proof fn law_content_is_a_record(json: JsonView)
    requires
        !(json is Object),
        !(json is Array),
    ensures
        McpContent::decoded(json) is None,
{
}

/// Content is written as an object that tells its kind in `type`, and has the members of that
/// kind and no others.
pub proof fn law_content_is_written_as_members(value: ContentView)
    ensures
        McpContent::encoded(value) is Object,
        ({
            let m = McpContent::encoded(value)->Object_0;
            &&& m.contains_key("type"@)
            &&& match value {
                ContentView::Text { text } => {
                    &&& m["type"@] == JsonView::Str("text"@)
                    &&& m["text"@] == JsonView::Str(text)
                    &&& forall|key: Seq<char>| #[trigger]
                        m.contains_key(key) <==> key == "type"@ || key == "text"@
                },
                ContentView::Image { data, mime_type } => {
                    &&& m["type"@] == JsonView::Str("image"@)
                    &&& m["data"@] == JsonView::Str(data)
                    &&& m["mimeType"@] == JsonView::Str(mime_type)
                    &&& forall|key: Seq<char>| #[trigger]
                        m.contains_key(key) <==> key == "type"@ || key == "data"@ || key
                            == "mimeType"@
                },
                ContentView::Resource { resource } => {
                    &&& m["type"@] == JsonView::Str("resource"@)
                    &&& m["resource"@] == resource
                    &&& forall|key: Seq<char>| #[trigger]
                        m.contains_key(key) <==> key == "type"@ || key == "resource"@
                },
                ContentView::ResourceLink { uri, name, mime_type } => {
                    &&& m["type"@] == JsonView::Str("resource_link"@)
                    &&& m["uri"@] == JsonView::Str(uri)
                    &&& name is Some ==> m["name"@] == JsonView::Str(name->0)
                    &&& name is None ==> m["name"@] is Null
                    &&& mime_type is Some ==> m["mimeType"@] == JsonView::Str(mime_type->0)
                    &&& mime_type is None ==> m["mimeType"@] is Null
                    &&& forall|key: Seq<char>| #[trigger]
                        m.contains_key(key) <==> key == "type"@ || key == "uri"@ || key == "name"@
                            || key == "mimeType"@
                },
                ContentView::Other => {
                    &&& m["type"@] == JsonView::Str("other"@)
                    &&& forall|key: Seq<char>| #[trigger]
                        m.contains_key(key) <==> key == "type"@
                },
            }
        }),
{
    reveal_strlit("type");
    reveal_strlit("text");
    reveal_strlit("image");
    reveal_strlit("resource");
    reveal_strlit("resource_link");
    reveal_strlit("other");
    reveal_strlit("data");
    reveal_strlit("mimeType");
    reveal_strlit("uri");
    reveal_strlit("name");
    assert("type"@.len() == 4 && "type"@[1] == 'y');
    assert("text"@.len() == 4 && "text"@[1] == 'e');
    assert("image"@.len() == 5 && "image"@[0] == 'i');
    assert("resource"@.len() == 8 && "resource"@[0] == 'r');
    assert("resource_link"@.len() == 13);
    assert("other"@.len() == 5 && "other"@[0] == 'o');
    assert("data"@.len() == 4 && "data"@[0] == 'd');
    assert("mimeType"@.len() == 8 && "mimeType"@[0] == 'm');
    assert("uri"@.len() == 3);
    assert("name"@.len() == 4 && "name"@[0] == 'n');
}

/// Without hints a tool has no title and promises nothing.
pub proof fn law_no_annotations_promise_nothing()
    ensures
        no_annotations().title is None,
        !no_annotations().read_only_hint,
        !no_annotations().destructive_hint,
        !no_annotations().idempotent_hint,
        !no_annotations().open_world_hint,
{
}

} // verus!
