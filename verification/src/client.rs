//! The client: which requests are under way, and what becomes of each message that arrives.
//!
//! [`McpClient`] performs no input or output. It hands out the messages to send, and is told what
//! arrived. For each request it keeps a waiter, which is whatever its owner uses to wake the
//! caller of that request, and gives it back together with the outcome.

use std::collections::HashMap;

use vstd::prelude::*;

use crate::error::{ErrorView, McpError};
use crate::json::{Json, JsonView};
use crate::protocol::{
    answer, answer_message, classify, error_message, incoming, law_answer_has_its_members,
    law_error_is_understood, law_list_changes_are_told, law_log_message_gives_its_data,
    law_notification_is_understood, law_progress_gives_its_token, law_request_has_its_members,
    law_request_is_understood, law_result_is_understood, no_roots, notification,
    notification_message, notification_of, outcome_view, request_message, result_message,
    Incoming, IncomingView, JsonRpcRequest, MCP_PROTOCOL_VERSION,
};
use crate::record::{no_fields, set_field, views, Decode, Encode};
use crate::types::{
    law_prompts_are_read_from_members, law_resources_are_read_from_members,
    law_tool_is_read_from_members, law_tools_are_read_from_members, CallToolResult, ClientInfo,
    ClientInfoView, InitializeResult, ListPromptsResult, ListResourcesResult,
    ListToolsResult, McpNotification, McpPrompt, McpResource, McpTool, NotificationView,
    PromptView, ReadResourceResult, ResourceView, ToolView,
};

verus! {

broadcast use vstd::group_vstd_default;

/// How long a request may take, in seconds.
pub const DEFAULT_TIMEOUT_SECS: u64 = 60;

/// The requests that are under way, and the id that the next one gets.
pub struct McpClient<W> {
    next_id: u64,
    pending: HashMap<u64, W>,
}

/// [`McpClient`] as mathematics.
#[verifier::ext_equal]
pub struct ClientView<W> {
    pub next_id: u64,
    pub pending: Map<u64, W>,
}

impl<W> View for McpClient<W> {
    type V = ClientView<W>;

    closed spec fn view(&self) -> ClientView<W> {
        ClientView { next_id: self.next_id, pending: self.pending@ }
    }
}

/// A client that has sent nothing yet.
pub open spec fn new_client<W>() -> ClientView<W> {
    ClientView { next_id: 1, pending: Map::empty() }
}

/// The id after `id`; ids start over when they are used up.
pub open spec fn id_after(id: u64) -> u64 {
    if id == u64::MAX {
        0
    } else {
        (id + 1) as u64
    }
}

/// The client once a further request is under way.
pub open spec fn requesting<W>(client: ClientView<W>, waiter: W) -> ClientView<W> {
    ClientView {
        next_id: id_after(client.next_id),
        pending: client.pending.insert(client.next_id, waiter),
    }
}

/// The client once a request is no longer under way.
pub open spec fn forgetting<W>(client: ClientView<W>, id: u64) -> ClientView<W> {
    ClientView { next_id: client.next_id, pending: client.pending.remove(id) }
}

/// A request that is under way: its id, and the message to send.
pub struct Call {
    pub id: u64,
    pub method: String,
    pub message: Json,
}

/// [`Call`] as mathematics.
#[verifier::ext_equal]
pub struct CallView {
    pub id: u64,
    pub method: Seq<char>,
    pub message: JsonView,
}

impl View for Call {
    type V = CallView;

    open spec fn view(&self) -> CallView {
        CallView { id: self.id, method: self.method@, message: self.message@ }
    }
}

/// The request that the client makes next, of this method and with these parameters.
pub open spec fn next_call<W>(
    client: ClientView<W>,
    method: Seq<char>,
    params: JsonView,
) -> CallView {
    CallView {
        id: client.next_id,
        method,
        message: request_message(client.next_id, method, params),
    }
}

/// The client once no request is under way any more.
pub open spec fn forgetting_all<W>(client: ClientView<W>) -> ClientView<W> {
    ClientView { next_id: client.next_id, pending: Map::empty() }
}

/// What is to be done about a message that arrived.
pub enum Dispatch<W> {
    /// Nothing: it is no JSON-RPC message.
    Malformed,
    /// Wake the waiter of a request with the outcome.
    Resolved { id: u64, waiter: W, outcome: Result<Json, McpError> },
    /// Nothing: it responds to no request that is under way.
    Orphan { id: u64 },
    /// Tell whoever listens for notifications.
    Notification(McpNotification),
    /// Send this answer to the server's request.
    Reply(Json),
    /// Nothing: it is about nothing.
    Ignored,
}

/// [`Dispatch`] as mathematics.
#[verifier::ext_equal]
pub enum DispatchView<W> {
    Malformed,
    Resolved { id: u64, waiter: W, outcome: Result<JsonView, ErrorView> },
    Orphan { id: u64 },
    Notification(NotificationView),
    Reply(JsonView),
    Ignored,
}

impl<W> View for Dispatch<W> {
    type V = DispatchView<W>;

    open spec fn view(&self) -> DispatchView<W> {
        match *self {
            Dispatch::Malformed => DispatchView::Malformed,
            Dispatch::Resolved { id, waiter, outcome } => DispatchView::Resolved {
                id,
                waiter,
                outcome: outcome_view(outcome),
            },
            Dispatch::Orphan { id } => DispatchView::Orphan { id },
            Dispatch::Notification(notification) => DispatchView::Notification(notification@),
            Dispatch::Reply(message) => DispatchView::Reply(message@),
            Dispatch::Ignored => DispatchView::Ignored,
        }
    }
}

/// What is to be done about a message, and the client afterwards.
pub open spec fn dispatched<W>(client: ClientView<W>, raw: JsonView) -> (
    ClientView<W>,
    DispatchView<W>,
) {
    match incoming(raw) {
        IncomingView::Malformed => (client, DispatchView::Malformed),
        IncomingView::Response { id, outcome } => if client.pending.contains_key(id) {
            (
                forgetting(client, id),
                DispatchView::Resolved { id, waiter: client.pending[id], outcome },
            )
        } else {
            (client, DispatchView::Orphan { id })
        },
        IncomingView::Request { id, method } => (
            client,
            DispatchView::Reply(answer_message(id, method)),
        ),
        IncomingView::Notification(notification) => (
            client,
            DispatchView::Notification(notification),
        ),
        IncomingView::Ignored => (client, DispatchView::Ignored),
    }
}

/// A waiter that is to be woken, and with what.
pub struct Delivery<W> {
    pub id: u64,
    pub waiter: W,
    pub outcome: Result<Json, McpError>,
}

/// Every waiter is woken once, with the news that the connection is lost, and no one else is.
pub open spec fn given_up<W>(pending: Map<u64, W>, deliveries: Seq<Delivery<W>>) -> bool {
    &&& forall|i: int|
        #![trigger deliveries[i]]
        0 <= i < deliveries.len() ==> pending.contains_pair(deliveries[i].id, deliveries[i].waiter)
            && outcome_view(deliveries[i].outcome) == Err::<JsonView, ErrorView>(
            ErrorView::ConnectionLost,
        )
    &&& forall|i: int, j: int|
        #![trigger deliveries[i], deliveries[j]]
        0 <= i < j < deliveries.len() ==> deliveries[i].id != deliveries[j].id
    &&& forall|id: u64| #[trigger]
        pending.contains_key(id) ==> exists|i: int|
            0 <= i < deliveries.len() && (#[trigger] deliveries[i]).id == id
}

/// How the wait for a response ended.
pub enum WaitEnd {
    /// It never began, as the request could not be sent.
    SendFailed(McpError),
    /// The waiter was woken with the outcome.
    Answered(Result<Json, McpError>),
    /// The waiter was thrown away.
    Dropped,
    /// The time was up.
    TimedOut,
}

/// [`WaitEnd`] as mathematics.
pub enum WaitEndView {
    SendFailed(ErrorView),
    Answered(Result<JsonView, ErrorView>),
    Dropped,
    TimedOut,
}

impl View for WaitEnd {
    type V = WaitEndView;

    open spec fn view(&self) -> WaitEndView {
        match *self {
            WaitEnd::SendFailed(error) => WaitEndView::SendFailed(error@),
            WaitEnd::Answered(outcome) => WaitEndView::Answered(outcome_view(outcome)),
            WaitEnd::Dropped => WaitEndView::Dropped,
            WaitEnd::TimedOut => WaitEndView::TimedOut,
        }
    }
}

/// What a request came to, and the client afterwards.
pub open spec fn settled<W>(
    client: ClientView<W>,
    call: CallView,
    end: WaitEndView,
) -> (ClientView<W>, Result<JsonView, ErrorView>) {
    match end {
        WaitEndView::SendFailed(error) => (forgetting(client, call.id), Err(error)),
        WaitEndView::Answered(outcome) => (client, outcome),
        WaitEndView::Dropped => (client, Err(ErrorView::ConnectionLost)),
        WaitEndView::TimedOut => (
            forgetting(client, call.id),
            Err(ErrorView::Timeout { id: call.id, method: call.method }),
        ),
    }
}

/// What a longer list contains.
proof fn lemma_push_contains(list: Seq<u64>, item: u64)
    ensures
        forall|x: u64| #[trigger] list.push(item).contains(x) <==> list.contains(x) || x == item,
{
    assert forall|x: u64| #[trigger] list.push(item).contains(x) <==> list.contains(x) || x
        == item by {
        if list.contains(x) {
            let i = choose|i: int| 0 <= i < list.len() && list[i] == x;
            assert(list.push(item)[i] == x);
        }
        assert(list.push(item)[list.len() as int] == item);
    }
}

impl<W> McpClient<W> {
    /// A client that has sent nothing yet.
    pub fn new() -> (client: Self)
        ensures
            client@ == new_client::<W>(),
    {
        McpClient { next_id: 1, pending: HashMap::new() }
    }

    /// Starts a request: gives it an id and keeps its waiter.
    pub fn send_request(&mut self, method: &str, params: Json, waiter: W) -> (call: Call)
        ensures
            final(self)@ == requesting(old(self)@, waiter),
            call@ == next_call(old(self)@, method@, params@),
    {
        let id = self.next_id;
        self.next_id = if id == u64::MAX {
            0
        } else {
            id + 1
        };
        self.pending.insert(id, waiter);
        let request = JsonRpcRequest { id, method, params };
        let message = request.to_json();
        Call { id, method: method.to_owned(), message }
    }

    /// Writes a notification, which is the message to send.
    pub fn send_notification(&self, method: &str, params: Json) -> (message: Json)
        ensures
            message@ == notification_message(method@, params@),
    {
        notification(method, params)
    }

    /// Takes note of a message that arrived, and tells what is to be done about it.
    pub fn dispatch(&mut self, raw: &Json) -> (action: Dispatch<W>)
        ensures
            (final(self)@, action@) == dispatched(old(self)@, raw@),
    {
        match classify(raw) {
            Incoming::Malformed => Dispatch::Malformed,
            Incoming::Response { id, outcome } => match self.pending.remove(&id) {
                Some(waiter) => Dispatch::Resolved { id, waiter, outcome },
                None => {
                    assert(self.pending@ =~= old(self).pending@);
                    Dispatch::Orphan { id }
                },
            },
            Incoming::Request { id, method } => Dispatch::Reply(answer(id, method.as_str())),
            Incoming::Notification(notification) => Dispatch::Notification(notification),
            Incoming::Ignored => Dispatch::Ignored,
        }
    }

    /// Ends a request in the way its wait ended, and tells what it came to.
    pub fn settle(&mut self, call: &Call, end: WaitEnd) -> (outcome: Result<Json, McpError>)
        ensures
            (final(self)@, outcome_view(outcome)) == settled(old(self)@, call@, end@),
    {
        match end {
            WaitEnd::SendFailed(error) => {
                self.pending.remove(&call.id);
                Err(error)
            },
            WaitEnd::Answered(outcome) => outcome,
            WaitEnd::Dropped => Err(McpError::ConnectionLost),
            WaitEnd::TimedOut => {
                self.pending.remove(&call.id);
                Err(McpError::Timeout { id: call.id, method: call.method.clone() })
            },
        }
    }

    /// Gives up every request that is under way, as the transport is closed. Each waiter is to
    /// be woken with the news; the order means nothing.
    pub fn fail_all_pending(&mut self) -> (deliveries: Vec<Delivery<W>>)
        ensures
            final(self)@ == forgetting_all(old(self)@),
            given_up(old(self)@.pending, deliveries@),
    {
        let mut ids: Vec<u64> = Vec::new();
        for id in it: self.pending.keys()
            invariant
                self.pending@ == old(self).pending@,
                it.seq().unref().to_set() == self.pending@.dom(),
                it.seq().unref().no_duplicates(),
                ids@ == it.seq().unref().take(it.index() as int),
                it.index() == it.seq().len() ==> ids@ == it.seq().unref(),
        {
            ids.push(*id);
            assert(ids@ =~= it.seq().unref().take(it.index() + 1));
        }
        let ghost all = self.pending@;
        assert(ids@.no_duplicates() && ids@.to_set() == all.dom());
        let mut deliveries: Vec<Delivery<W>> = Vec::new();
        let mut i: usize = 0;
        while i < ids.len()
            invariant
                i <= ids.len(),
                ids@.no_duplicates(),
                ids@.to_set() == all.dom(),
                self.next_id == old(self).next_id,
                forall|id: u64| #[trigger]
                    self.pending@.contains_key(id) <==> all.contains_key(id) && !ids@.take(
                        i as int,
                    ).contains(id),
                forall|id: u64| #[trigger]
                    self.pending@.contains_key(id) ==> self.pending@[id] == all[id],
                deliveries.len() == i,
                forall|j: int|
                    0 <= j < i ==> (#[trigger] deliveries[j]).id == ids[j]
                        && deliveries[j].waiter == all[ids[j]] && outcome_view(
                        deliveries[j].outcome,
                    ) == Err::<JsonView, ErrorView>(ErrorView::ConnectionLost),
            decreases ids.len() - i,
        {
            let id = ids[i];
            assert(ids@.to_set().contains(id));
            assert(!ids@.take(i as int).contains(id));
            assert(ids@.take(i + 1) =~= ids@.take(i as int).push(id));
            proof {
                lemma_push_contains(ids@.take(i as int), id);
            }
            match self.pending.remove(&id) {
                Some(waiter) => {
                    deliveries.push(
                        Delivery { id, waiter, outcome: Err(McpError::ConnectionLost) },
                    );
                },
                None => {
                    assert(false);
                },
            }
            i += 1;
        }
        assert(ids@.take(i as int) =~= ids@);
        assert(self.pending@ =~= Map::empty());
        assert forall|id: u64| #[trigger] all.contains_key(id) implies exists|j: int|
            0 <= j < deliveries.len() && (#[trigger] deliveries[j]).id == id by {
            assert(ids@.to_set().contains(id));
            let j = choose|j: int| 0 <= j < ids.len() && ids[j] == id;
            assert(deliveries[j].id == id);
        }
        assert forall|j: int| 0 <= j < deliveries.len() implies all.contains_key(
            (#[trigger] deliveries[j]).id,
        ) by {
            assert(ids@.to_set().contains(ids[j]));
        }
        deliveries
    }

    /// Starts the handshake.
    pub fn initialize(&mut self, client_info: &ClientInfo, waiter: W) -> (call: Call)
        ensures
            final(self)@ == requesting(old(self)@, waiter),
            call@ == next_call(old(self)@, "initialize"@, initialize_params(client_info@)),
    {
        let mut roots = no_fields();
        set_field(&mut roots, "listChanged", Json::Bool(false));
        let mut capabilities = no_fields();
        set_field(&mut capabilities, "roots", Json::Object(roots));
        set_field(&mut capabilities, "sampling", Json::Object(no_fields()));
        let mut params = no_fields();
        set_field(&mut params, "protocolVersion", Json::Str(MCP_PROTOCOL_VERSION.to_owned()));
        set_field(&mut params, "capabilities", Json::Object(capabilities));
        set_field(&mut params, "clientInfo", client_info.to_json());
        self.send_request("initialize", Json::Object(params), waiter)
    }

    /// Tells the server that the handshake is done.
    pub fn notify_initialized(&self) -> (message: Json)
        ensures
            message@ == notification_message("notifications/initialized"@, no_params()),
    {
        self.send_notification("notifications/initialized", Json::Object(no_fields()))
    }

    /// Asks for the tools.
    pub fn list_tools(&mut self, waiter: W) -> (call: Call)
        ensures
            final(self)@ == requesting(old(self)@, waiter),
            call@ == next_call(old(self)@, "tools/list"@, no_params()),
    {
        self.send_request("tools/list", Json::Object(no_fields()), waiter)
    }

    /// Asks for the resources.
    pub fn list_resources(&mut self, waiter: W) -> (call: Call)
        ensures
            final(self)@ == requesting(old(self)@, waiter),
            call@ == next_call(old(self)@, "resources/list"@, no_params()),
    {
        self.send_request("resources/list", Json::Object(no_fields()), waiter)
    }

    /// Asks for the prompts.
    pub fn list_prompts(&mut self, waiter: W) -> (call: Call)
        ensures
            final(self)@ == requesting(old(self)@, waiter),
            call@ == next_call(old(self)@, "prompts/list"@, no_params()),
    {
        self.send_request("prompts/list", Json::Object(no_fields()), waiter)
    }

    /// Calls a tool.
    pub fn call_tool(&mut self, name: &str, arguments: Json, waiter: W) -> (call: Call)
        ensures
            final(self)@ == requesting(old(self)@, waiter),
            call@ == next_call(old(self)@, "tools/call"@, call_params(name@, arguments@)),
    {
        let mut params = no_fields();
        set_field(&mut params, "name", Json::Str(name.to_owned()));
        set_field(&mut params, "arguments", arguments);
        self.send_request("tools/call", Json::Object(params), waiter)
    }

    /// Reads a resource.
    pub fn read_resource(&mut self, uri: &str, waiter: W) -> (call: Call)
        ensures
            final(self)@ == requesting(old(self)@, waiter),
            call@ == next_call(old(self)@, "resources/read"@, read_params(uri@)),
    {
        let mut params = no_fields();
        set_field(&mut params, "uri", Json::Str(uri.to_owned()));
        self.send_request("resources/read", Json::Object(params), waiter)
    }
}

// ---------------------------------------------------------------------------
// What requests ask for
// ---------------------------------------------------------------------------

/// The parameters of a request that needs none.
pub open spec fn no_params() -> JsonView {
    JsonView::Object(Map::empty())
}

/// The parameters of the handshake: the version of the protocol, what the client offers, and who
/// it is.
pub open spec fn initialize_params(client_info: ClientInfoView) -> JsonView {
    JsonView::Object(
        map![
            "protocolVersion"@ => JsonView::Str(MCP_PROTOCOL_VERSION@),
            "capabilities"@ => JsonView::Object(
                map![
                    "roots"@ => JsonView::Object(map!["listChanged"@ => JsonView::Bool(false)]),
                    "sampling"@ => JsonView::Object(Map::empty()),
                ],
            ),
            "clientInfo"@ => ClientInfo::encoded(client_info),
        ],
    )
}

/// The parameters of a tool call.
pub open spec fn call_params(name: Seq<char>, arguments: JsonView) -> JsonView {
    JsonView::Object(map!["name"@ => JsonView::Str(name), "arguments"@ => arguments])
}

/// The parameters of reading a resource.
pub open spec fn read_params(uri: Seq<char>) -> JsonView {
    JsonView::Object(map!["uri"@ => JsonView::Str(uri)])
}

// ---------------------------------------------------------------------------
// What requests come to
// ---------------------------------------------------------------------------

/// What is said of a result that is not what was asked for.
pub const UNEXPECTED_RESULT: &'static str = "the result is not of the expected form";

/// The outcome of a request whose result must stand for a value of some type.
pub open spec fn expected<T: Decode>(outcome: Result<JsonView, ErrorView>) -> Result<
    T::V,
    ErrorView,
> {
    match outcome {
        Ok(result) => match T::decoded(result) {
            Some(value) => Ok(value),
            None => Err(ErrorView::Serde(UNEXPECTED_RESULT@)),
        },
        Err(error) => Err(error),
    }
}

fn expect<T: Decode>(outcome: Result<Json, McpError>) -> (value: Result<T, McpError>)
    ensures
        outcome_view(value) == expected::<T>(outcome_view(outcome)),
{
    match outcome {
        Ok(result) => match T::from_json(&result) {
            Some(value) => Ok(value),
            None => Err(McpError::Serde(UNEXPECTED_RESULT.to_owned())),
        },
        Err(error) => Err(error),
    }
}

/// What the handshake came to.
pub fn initialize_result(outcome: Result<Json, McpError>) -> (result: Result<
    InitializeResult,
    McpError,
>)
    ensures
        outcome_view(result) == expected::<InitializeResult>(outcome_view(outcome)),
{
    expect(outcome)
}

/// What a tool call came to.
pub fn call_tool_result(outcome: Result<Json, McpError>) -> (result: Result<
    CallToolResult,
    McpError,
>)
    ensures
        outcome_view(result) == expected::<CallToolResult>(outcome_view(outcome)),
{
    expect(outcome)
}

/// What reading a resource came to.
pub fn read_resource_result(outcome: Result<Json, McpError>) -> (result: Result<
    ReadResourceResult,
    McpError,
>)
    ensures
        outcome_view(result) == expected::<ReadResourceResult>(outcome_view(outcome)),
{
    expect(outcome)
}

/// The tools that an outcome lists.
pub open spec fn tools_in(outcome: Result<JsonView, ErrorView>) -> Result<
    Seq<ToolView>,
    ErrorView,
> {
    match expected::<ListToolsResult>(outcome) {
        Ok(list) => Ok(list.tools),
        Err(error) => Err(error),
    }
}

/// What asking for the tools came to.
pub fn list_tools_result(outcome: Result<Json, McpError>) -> (result: Result<
    Vec<McpTool>,
    McpError,
>)
    ensures
        tools_in(outcome_view(outcome)) == (match result {
            Ok(tools) => Ok(views(tools@)),
            Err(error) => Err(error@),
        }),
{
    match expect::<ListToolsResult>(outcome) {
        Ok(list) => Ok(list.tools),
        Err(error) => Err(error),
    }
}

/// The resources that an outcome lists. A server that has no resources may well refuse to list
/// them, so whatever goes wrong means that there are none.
pub open spec fn resources_in(outcome: Result<JsonView, ErrorView>) -> Seq<ResourceView> {
    match expected::<ListResourcesResult>(outcome) {
        Ok(list) => list.resources,
        Err(_) => Seq::empty(),
    }
}

/// What asking for the resources came to.
pub fn list_resources_result(outcome: Result<Json, McpError>) -> (resources: Vec<McpResource>)
    ensures
        views(resources@) == resources_in(outcome_view(outcome)),
{
    match expect::<ListResourcesResult>(outcome) {
        Ok(list) => list.resources,
        Err(_) => Vec::new(),
    }
}

/// The prompts that an outcome lists. As with resources, whatever goes wrong means that there are
/// none.
pub open spec fn prompts_in(outcome: Result<JsonView, ErrorView>) -> Seq<PromptView> {
    match expected::<ListPromptsResult>(outcome) {
        Ok(list) => list.prompts,
        Err(_) => Seq::empty(),
    }
}

/// What asking for the prompts came to.
pub fn list_prompts_result(outcome: Result<Json, McpError>) -> (prompts: Vec<McpPrompt>)
    ensures
        views(prompts@) == prompts_in(outcome_view(outcome)),
{
    match expect::<ListPromptsResult>(outcome) {
        Ok(list) => list.prompts,
        Err(_) => Vec::new(),
    }
}

// ---------------------------------------------------------------------------
// Laws
// ---------------------------------------------------------------------------

/// Something that happens to a client.
pub enum Event<W> {
    /// A request is started.
    Started(W),
    /// A message arrives.
    Arrived(JsonView),
    /// The wait for a response ends.
    Ended(CallView, WaitEndView),
    /// The transport is closed, and every request is given up.
    Closed,
}

/// The client after something happened.
pub open spec fn after<W>(client: ClientView<W>, event: Event<W>) -> ClientView<W> {
    match event {
        Event::Started(waiter) => requesting(client, waiter),
        Event::Arrived(raw) => dispatched(client, raw).0,
        Event::Ended(call, end) => settled(client, call, end).0,
        Event::Closed => forgetting_all(client),
    }
}

/// The client after a number of things happened, one after the other.
pub open spec fn after_all<W>(client: ClientView<W>, events: Seq<Event<W>>) -> ClientView<W>
    decreases events.len(),
{
    if events.len() == 0 {
        client
    } else {
        after(after_all(client, events.drop_last()), events.last())
    }
}

/// The event is neither a response to the request of this id nor the end of its wait, and the
/// transport stays open.
pub open spec fn leaves_alone<W>(event: Event<W>, id: u64) -> bool {
    match event {
        Event::Started(_) => true,
        Event::Arrived(raw) => incoming(raw) matches IncomingView::Response { id: other, .. }
            ==> other != id,
        Event::Ended(call, _) => call.id != id,
        Event::Closed => false,
    }
}

/// How far the ids have got since `id` was given out.
spec fn distance(id: u64, next_id: u64) -> int {
    if next_id > id {
        next_id - id
    } else {
        next_id + 0x1_0000_0000_0000_0000 - id
    }
}

/// A request that is under way stays so, whatever else happens, until it is responded to, its
/// wait ends or the transport is closed. The ids would have to be used up before another request
/// could take its place.
pub proof fn law_request_stays_under_way<W>(
    client: ClientView<W>,
    waiter: W,
    events: Seq<Event<W>>,
)
    requires
        events.len() < u64::MAX,
        forall|i: int|
            0 <= i < events.len() ==> leaves_alone(#[trigger] events[i], client.next_id),
    ensures
        after_all(requesting(client, waiter), events).pending.contains_pair(client.next_id, waiter),
{
    lemma_request_stays(client, waiter, events);
}

proof fn lemma_request_stays<W>(client: ClientView<W>, waiter: W, events: Seq<Event<W>>)
    requires
        events.len() < u64::MAX,
        forall|i: int|
            0 <= i < events.len() ==> leaves_alone(#[trigger] events[i], client.next_id),
    ensures
        after_all(requesting(client, waiter), events).pending.contains_pair(client.next_id, waiter),
        1 <= distance(client.next_id, after_all(requesting(client, waiter), events).next_id) <= 1
            + events.len(),
    decreases events.len(),
{
    if events.len() > 0 {
        lemma_request_stays(client, waiter, events.drop_last());
        assert(leaves_alone(events.last(), client.next_id));
    }
}

/// A response wakes the waiter of the request that it responds to, with what it says of it, and
/// ends the request, whatever else happened since the request was made.
pub proof fn law_response_reaches_its_caller<W>(
    client: ClientView<W>,
    waiter: W,
    events: Seq<Event<W>>,
    response: JsonView,
    outcome: Result<JsonView, ErrorView>,
)
    requires
        events.len() < u64::MAX,
        forall|i: int|
            0 <= i < events.len() ==> leaves_alone(#[trigger] events[i], client.next_id),
        incoming(response) == (IncomingView::Response { id: client.next_id, outcome }),
    ensures
        dispatched(after_all(requesting(client, waiter), events), response) == (
            forgetting(after_all(requesting(client, waiter), events), client.next_id),
            DispatchView::Resolved { id: client.next_id, waiter, outcome },
        ),
{
    law_request_stays_under_way(client, waiter, events);
}

/// What the server says of a request is what its caller gets: the result if it sends one, and the
/// error if it sends that.
pub proof fn law_caller_gets_what_the_server_says<W>(
    client: ClientView<W>,
    waiter: W,
    result: JsonView,
    code: i64,
    message: Seq<char>,
)
    ensures
        dispatched(requesting(client, waiter), result_message(client.next_id, result)).1 == (
        DispatchView::Resolved { id: client.next_id, waiter, outcome: Ok(result) }),
        dispatched(requesting(client, waiter), error_message(client.next_id, code, message)).1 == (
        DispatchView::Resolved {
            id: client.next_id,
            waiter,
            outcome: Err(ErrorView::ServerError { code, message }),
        }),
{
    law_result_is_understood(client.next_id, result);
    law_error_is_understood(client.next_id, code, message);
}

/// A message changes nothing for any request but the one that it responds to.
pub proof fn law_other_requests_wait_on<W>(client: ClientView<W>, raw: JsonView, id: u64)
    requires
        leaves_alone(Event::<W>::Arrived(raw), id),
    ensures
        dispatched(client, raw).0.pending.contains_key(id) == client.pending.contains_key(id),
        client.pending.contains_key(id) ==> dispatched(client, raw).0.pending[id]
            == client.pending[id],
        dispatched(client, raw).0.next_id == client.next_id,
{
}

/// No request is responded to twice: a second response finds no one waiting.
pub proof fn law_second_response_is_an_orphan<W>(
    client: ClientView<W>,
    first: JsonView,
    second: JsonView,
)
    requires
        incoming(first) is Response,
        incoming(second) is Response,
        incoming(first)->Response_id == incoming(second)->Response_id,
    ensures
        dispatched(dispatched(client, first).0, second) == (
            dispatched(client, first).0,
            DispatchView::<W>::Orphan { id: incoming(second)->Response_id },
        ),
{
}

/// Once the time for a request is up, or it could not be sent, a response to it finds no one
/// waiting.
pub proof fn law_late_response_is_an_orphan<W>(
    client: ClientView<W>,
    call: CallView,
    end: WaitEndView,
    response: JsonView,
)
    requires
        end is TimedOut || end is SendFailed,
        incoming(response) is Response,
        incoming(response)->Response_id == call.id,
    ensures
        dispatched(settled(client, call, end).0, response) == (
            settled(client, call, end).0,
            DispatchView::<W>::Orphan { id: call.id },
        ),
{
}

/// A request of the server is answered, and disturbs none of the client's own requests. To
/// `roots/list` the answer is that there are no roots.
pub proof fn law_server_request_is_answered<W>(
    client: ClientView<W>,
    id: u64,
    method: Seq<char>,
    params: JsonView,
)
    ensures
        dispatched(client, request_message(id, method, params)) == (
            client,
            DispatchView::<W>::Reply(answer_message(id, method)),
        ),
        answer_message(id, "roots/list"@) == result_message(id, no_roots()),
{
    law_request_is_understood(id, method, params);
}

/// A notification is passed on as what it says, and disturbs none of the client's requests.
pub proof fn law_notification_is_passed_on<W>(
    client: ClientView<W>,
    method: Seq<char>,
    params: JsonView,
)
    ensures
        dispatched(client, notification_message(method, params)) == (
            client,
            DispatchView::<W>::Notification(notification_of(method, params)),
        ),
{
    law_notification_is_understood(method, params);
}

/// Every request that is under way has an id that was given out before.
pub open spec fn ids_given_out<W>(client: ClientView<W>) -> bool {
    forall|id: u64| #[trigger] client.pending.contains_key(id) ==> id < client.next_id
}

/// As long as the ids are not used up, a new request never takes the place of another.
pub proof fn law_ids_are_fresh<W>(client: ClientView<W>, event: Event<W>)
    requires
        ids_given_out(client),
        client.next_id < u64::MAX,
    ensures
        !client.pending.contains_key(client.next_id),
        ids_given_out(after(client, event)),
        ids_given_out(new_client::<W>()),
{
}

/// How many requests are started.
pub open spec fn n_started<W>(events: Seq<Event<W>>) -> nat
    decreases events.len(),
{
    if events.len() == 0 {
        0
    } else {
        n_started(events.drop_last()) + if events.last() is Started {
            1nat
        } else {
            0nat
        }
    }
}

/// As long as the ids are not used up, requests are numbered from one, whatever else happens: the
/// next one bears the number of those before it and one more.
pub proof fn law_requests_are_numbered<W>(
    events: Seq<Event<W>>,
    method: Seq<char>,
    params: JsonView,
)
    requires
        n_started(events) < u64::MAX,
    ensures
        after_all(new_client::<W>(), events).next_id == 1 + n_started(events),
        next_call(after_all(new_client::<W>(), events), method, params).id == 1 + n_started(events),
    decreases events.len(),
{
    if events.len() > 0 {
        law_requests_are_numbered(events.drop_last(), method, params);
    }
}

/// A response that comes after the transport was closed finds no one waiting.
pub proof fn law_no_one_waits_on_a_closed_transport<W>(client: ClientView<W>, response: JsonView)
    requires
        incoming(response) is Response,
    ensures
        dispatched(after(client, Event::Closed), response) == (
            after(client, Event::<W>::Closed),
            DispatchView::<W>::Orphan { id: incoming(response)->Response_id },
        ),
{
}

/// A client begins with no request under way, and gives out one as the first id.
pub proof fn law_client_begins_with_nothing<W>(id: u64)
    ensures
        new_client::<W>().next_id == 1,
        !new_client::<W>().pending.contains_key(id),
{
}

/// A request that is started is under way with its waiter, the others stay as they are, and the
/// next id is one more. After the last there is, ids start over.
pub proof fn law_request_is_taken_down<W>(client: ClientView<W>, waiter: W, other: u64)
    ensures
        requesting(client, waiter).pending.contains_key(client.next_id),
        requesting(client, waiter).pending[client.next_id] == waiter,
        other != client.next_id ==> (requesting(client, waiter).pending.contains_key(other)
            <==> client.pending.contains_key(other)),
        other != client.next_id && client.pending.contains_key(other) ==> requesting(
            client,
            waiter,
        ).pending[other] == client.pending[other],
        client.next_id < u64::MAX ==> requesting(client, waiter).next_id == client.next_id + 1,
        client.next_id == u64::MAX ==> requesting(client, waiter).next_id == 0,
{
}

/// A request that is forgotten is not under way, and the others stay as they are. Forgetting all
/// leaves none. Ids go on from where they are.
pub proof fn law_forgotten_requests_are_gone<W>(client: ClientView<W>, id: u64, other: u64)
    ensures
        !forgetting(client, id).pending.contains_key(id),
        other != id ==> (forgetting(client, id).pending.contains_key(other)
            <==> client.pending.contains_key(other)),
        other != id && client.pending.contains_key(other) ==> forgetting(client, id).pending[other]
            == client.pending[other],
        forgetting(client, id).next_id == client.next_id,
        !forgetting_all(client).pending.contains_key(other),
        forgetting_all(client).next_id == client.next_id,
{
}

/// A request says its method and its parameters as they were given, under the id that it is known
/// by.
pub proof fn law_call_says_what_it_asks<W>(
    client: ClientView<W>,
    method: Seq<char>,
    params: JsonView,
)
    ensures
        ({
            let call = next_call(client, method, params);
            let m = call.message->Object_0;
            &&& call.id == client.next_id
            &&& call.method == method
            &&& call.message is Object
            &&& forall|key: Seq<char>| #[trigger]
                m.contains_key(key) <==> key == "jsonrpc"@ || key == "id"@ || key == "method"@
                    || key == "params"@
            &&& m["jsonrpc"@] == JsonView::Str("2.0"@)
            &&& m["id"@] == JsonView::PosInt(client.next_id)
            &&& m["method"@] == JsonView::Str(method)
            &&& m["params"@] == params
        }),
{
    law_request_has_its_members(client.next_id, method, params);
}

/// A tool call sends the name of the tool, character by character, and the arguments as they were
/// given. So calls of different tools send different messages, and so do calls with different
/// arguments.
pub proof fn law_tool_call_names_its_tool<W>(
    client: ClientView<W>,
    name: Seq<char>,
    arguments: JsonView,
    other_name: Seq<char>,
    other_arguments: JsonView,
)
    ensures
        ({
            let message = next_call(client, "tools/call"@, call_params(name, arguments)).message;
            let other = next_call(
                client,
                "tools/call"@,
                call_params(other_name, other_arguments),
            ).message;
            let p = message->Object_0["params"@]->Object_0;
            &&& message is Object
            &&& message->Object_0.contains_key("params"@)
            &&& message->Object_0["params"@] is Object
            &&& forall|key: Seq<char>| #[trigger]
                p.contains_key(key) <==> key == "name"@ || key == "arguments"@
            &&& p["name"@] == JsonView::Str(name)
            &&& p["arguments"@] == arguments
            &&& name != other_name || arguments != other_arguments ==> message != other
        }),
{
    law_call_says_what_it_asks(client, "tools/call"@, call_params(name, arguments));
    law_call_says_what_it_asks(client, "tools/call"@, call_params(other_name, other_arguments));
    lemma_param_names();
    let p = call_params(name, arguments)->Object_0;
    let q = call_params(other_name, other_arguments)->Object_0;
    assert(p["name"@] == JsonView::Str(name) && q["name"@] == JsonView::Str(other_name));
    assert(p["arguments"@] == arguments && q["arguments"@] == other_arguments);
}

/// Reading a resource sends its address, character by character, and nothing else.
pub proof fn law_resource_is_read_by_its_address<W>(
    client: ClientView<W>,
    uri: Seq<char>,
    other_uri: Seq<char>,
)
    ensures
        ({
            let message = next_call(client, "resources/read"@, read_params(uri)).message;
            let other = next_call(client, "resources/read"@, read_params(other_uri)).message;
            let p = message->Object_0["params"@]->Object_0;
            &&& message is Object
            &&& message->Object_0.contains_key("params"@)
            &&& message->Object_0["params"@] is Object
            &&& forall|key: Seq<char>| #[trigger] p.contains_key(key) <==> key == "uri"@
            &&& p["uri"@] == JsonView::Str(uri)
            &&& uri != other_uri ==> message != other
        }),
{
    law_call_says_what_it_asks(client, "resources/read"@, read_params(uri));
    law_call_says_what_it_asks(client, "resources/read"@, read_params(other_uri));
    let p = read_params(uri)->Object_0;
    let q = read_params(other_uri)->Object_0;
    assert(p["uri"@] == JsonView::Str(uri) && q["uri"@] == JsonView::Str(other_uri));
}

/// The handshake tells the version of the protocol, that the client offers roots whose list does
/// not change and sampling, and the client's own name and version as they were given.
pub proof fn law_handshake_tells_who_the_client_is<W>(
    client: ClientView<W>,
    client_info: ClientInfoView,
)
    ensures
        ({
            let message = next_call(client, "initialize"@, initialize_params(client_info)).message;
            let p = message->Object_0["params"@]->Object_0;
            let offers = p["capabilities"@]->Object_0;
            let who = p["clientInfo"@]->Object_0;
            &&& message is Object
            &&& message->Object_0.contains_key("params"@)
            &&& message->Object_0["params"@] is Object
            &&& forall|key: Seq<char>| #[trigger]
                p.contains_key(key) <==> key == "protocolVersion"@ || key == "capabilities"@ || key
                    == "clientInfo"@
            &&& p["protocolVersion"@] == JsonView::Str("2024-11-05"@)
            &&& p["capabilities"@] is Object
            &&& forall|key: Seq<char>| #[trigger]
                offers.contains_key(key) <==> key == "roots"@ || key == "sampling"@
            &&& offers["roots"@] == JsonView::Object(
                map!["listChanged"@ => JsonView::Bool(false)],
            )
            &&& offers["sampling"@] == JsonView::Object(Map::empty())
            &&& p["clientInfo"@] is Object
            &&& forall|key: Seq<char>| #[trigger]
                who.contains_key(key) <==> key == "name"@ || key == "version"@
            &&& who["name"@] == JsonView::Str(client_info.name)
            &&& who["version"@] == JsonView::Str(client_info.version)
        }),
{
    law_call_says_what_it_asks(client, "initialize"@, initialize_params(client_info));
    lemma_param_names();
}

/// A request for a list has no parameters, which is an empty object.
pub proof fn law_lists_need_no_parameters(key: Seq<char>)
    ensures
        no_params() is Object,
        !no_params()->Object_0.contains_key(key),
{
}

/// The names of parameters, told apart by their lengths and letters.
proof fn lemma_param_names()
    ensures
        "protocolVersion"@.len() == 15,
        "capabilities"@.len() == 12,
        "clientInfo"@.len() == 10,
        "roots"@.len() == 5,
        "sampling"@.len() == 8,
        "name"@.len() == 4,
        "version"@.len() == 7,
        "arguments"@.len() == 9,
{
    reveal_strlit("protocolVersion");
    reveal_strlit("capabilities");
    reveal_strlit("clientInfo");
    reveal_strlit("roots");
    reveal_strlit("sampling");
    reveal_strlit("name");
    reveal_strlit("version");
    reveal_strlit("arguments");
}

/// A request that could not be sent fails with what went wrong, one whose waiter was thrown away
/// with the loss of the connection, and one that took too long by its id and method. One that was
/// answered comes to the answer. It is no longer under way if no answer can come any more.
pub proof fn law_wait_comes_to_what_ended_it<W>(
    client: ClientView<W>,
    call: CallView,
    error: ErrorView,
    answer: Result<JsonView, ErrorView>,
)
    ensures
        settled(client, call, WaitEndView::SendFailed(error)).1 == Err::<JsonView, ErrorView>(
            error,
        ),
        settled(client, call, WaitEndView::Answered(answer)).1 == answer,
        settled(client, call, WaitEndView::Dropped).1 == Err::<JsonView, ErrorView>(
            ErrorView::ConnectionLost,
        ),
        settled(client, call, WaitEndView::TimedOut).1 == Err::<JsonView, ErrorView>(
            ErrorView::Timeout { id: call.id, method: call.method },
        ),
        !settled(client, call, WaitEndView::SendFailed(error)).0.pending.contains_key(call.id),
        !settled(client, call, WaitEndView::TimedOut).0.pending.contains_key(call.id),
        settled(client, call, WaitEndView::Answered(answer)).0 == client,
        settled(client, call, WaitEndView::Dropped).0 == client,
{
}

/// The end of one wait changes nothing for any other request.
pub proof fn law_end_of_a_wait_leaves_others_alone<W>(
    client: ClientView<W>,
    call: CallView,
    end: WaitEndView,
    other: u64,
)
    requires
        other != call.id,
    ensures
        settled(client, call, end).0.pending.contains_key(other) <==> client.pending.contains_key(
            other,
        ),
        client.pending.contains_key(other) ==> settled(client, call, end).0.pending[other]
            == client.pending[other],
        settled(client, call, end).0.next_id == client.next_id,
{
}

/// A message that makes no sense, or is about nothing, changes nothing, and so does a response to
/// no request that is under way.
pub proof fn law_noise_changes_nothing<W>(client: ClientView<W>, raw: JsonView)
    ensures
        incoming(raw) is Malformed ==> dispatched(client, raw) == (
            client,
            DispatchView::<W>::Malformed,
        ),
        incoming(raw) is Ignored ==> dispatched(client, raw) == (
            client,
            DispatchView::<W>::Ignored,
        ),
        incoming(raw) is Response && !client.pending.contains_key(incoming(raw)->Response_id)
            ==> dispatched(client, raw) == (
            client,
            DispatchView::<W>::Orphan { id: incoming(raw)->Response_id },
        ),
{
}

/// A response to a request that is under way wakes its waiter with what the message says, and
/// takes the request off.
pub proof fn law_response_wakes_its_waiter<W>(
    client: ClientView<W>,
    m: Map<Seq<char>, JsonView>,
    id: u64,
)
    requires
        client.pending.contains_key(id),
        m.contains_key("id"@),
        m["id"@] == JsonView::PosInt(id),
        m.contains_key("result"@),
        !(m["result"@] is Null),
        !m.contains_key("error"@),
        !m.contains_key("method"@),
    ensures
        ({
            let (after, action) = dispatched(client, JsonView::Object(m));
            &&& action == (DispatchView::Resolved {
                id,
                waiter: client.pending[id],
                outcome: Ok::<JsonView, ErrorView>(m["result"@]),
            })
            &&& !after.pending.contains_key(id)
            &&& after.next_id == client.next_id
        }),
{
}

/// A server's request is answered under its id, by an answer to its method.
pub proof fn law_answer_goes_to_the_request<W>(
    client: ClientView<W>,
    m: Map<Seq<char>, JsonView>,
    id: u64,
    method: Seq<char>,
)
    requires
        m.contains_key("id"@),
        m["id"@] == JsonView::PosInt(id),
        m.contains_key("method"@),
        m["method"@] == JsonView::Str(method),
        !m.contains_key("result"@),
        !m.contains_key("error"@),
    ensures
        ({
            let (after, action) = dispatched(client, JsonView::Object(m));
            let reply = action->Reply_0->Object_0;
            &&& after == client
            &&& action is Reply
            &&& action->Reply_0 is Object
            &&& reply.contains_key("id"@)
            &&& reply["id"@] == JsonView::PosInt(id)
            &&& method == "roots/list"@ ==> reply.contains_key("result"@) && reply["result"@]
                == JsonView::Object(map!["roots"@ => JsonView::Array(Seq::empty())])
            &&& method != "roots/list"@ ==> reply.contains_key("error"@)
        }),
{
    law_answer_has_its_members(id, method);
}

/// A log message of the server is passed on with its level and with its data, whatever kind of
/// value that is.
pub proof fn law_log_message_is_passed_on<W>(
    client: ClientView<W>,
    m: Map<Seq<char>, JsonView>,
    p: Map<Seq<char>, JsonView>,
    level: Seq<char>,
    data: JsonView,
)
    requires
        !m.contains_key("id"@),
        !m.contains_key("error"@),
        m.contains_key("method"@),
        m["method"@] == JsonView::Str("notifications/message"@),
        m.contains_key("params"@),
        m["params"@] == JsonView::Object(p),
        p.contains_key("level"@),
        p["level"@] == JsonView::Str(level),
        p.contains_key("data"@),
        p["data"@] == data,
    ensures
        dispatched(client, JsonView::Object(m)) == (
            client,
            DispatchView::<W>::Notification(NotificationView::LogMessage { level, data }),
        ),
{
    law_log_message_gives_its_data(m, p);
}

/// Progress that the server reports is passed on with its token and all that it says.
pub proof fn law_progress_is_passed_on<W>(
    client: ClientView<W>,
    m: Map<Seq<char>, JsonView>,
    p: Map<Seq<char>, JsonView>,
    token: JsonView,
)
    requires
        !m.contains_key("id"@),
        !m.contains_key("error"@),
        m.contains_key("method"@),
        m["method"@] == JsonView::Str("notifications/progress"@),
        m.contains_key("params"@),
        m["params"@] == JsonView::Object(p),
        p.contains_key("progressToken"@),
        p["progressToken"@] == token,
    ensures
        dispatched(client, JsonView::Object(m)) == (
            client,
            DispatchView::<W>::Notification(
                NotificationView::Progress { token, progress: JsonView::Object(p) },
            ),
        ),
{
    law_progress_gives_its_token(m, p);
}

/// What the server says of its lists, or of anything else, is passed on too.
pub proof fn law_notices_are_passed_on<W>(
    client: ClientView<W>,
    m: Map<Seq<char>, JsonView>,
    method: Seq<char>,
)
    requires
        !m.contains_key("id"@),
        !m.contains_key("error"@),
        m.contains_key("method"@),
        m["method"@] == JsonView::Str(method),
    ensures
        ({
            let (after, action) = dispatched(client, JsonView::Object(m));
            let told = action->Notification_0;
            &&& after == client
            &&& action is Notification
            &&& method == "notifications/tools/list_changed"@ ==> told is ToolsListChanged
            &&& method == "notifications/resources/list_changed"@ ==> told is ResourcesListChanged
            &&& method == "notifications/prompts/list_changed"@ ==> told is PromptsListChanged
            &&& method != "notifications/tools/list_changed"@ && method
                != "notifications/resources/list_changed"@ && method
                != "notifications/prompts/list_changed"@ && method != "notifications/progress"@
                && method != "notifications/message"@ ==> told is Other && told->Other_method
                == method && (m.contains_key("params"@) ==> told->Other_params == m["params"@])
        }),
{
    law_list_changes_are_told(m);
}

/// The value that a request came to is what its result stands for. An error is passed on, and a
/// result that stands for none is an error.
pub proof fn law_result_must_be_of_its_form<T: Decode>(
    result: JsonView,
    value: T::V,
    error: ErrorView,
)
    ensures
        expected::<T>(Err(error)) == Err::<T::V, ErrorView>(error),
        T::decoded(result) == Some(value) ==> expected::<T>(Ok(result)) == Ok::<
            T::V,
            ErrorView,
        >(value),
        T::decoded(result) is None ==> expected::<T>(Ok(result)) is Err && expected::<T>(
            Ok(result),
        )->Err_0 is Serde,
{
}

/// The tools of a server are all those that it lists, in their order, each read from its item.
/// One item that is no tool spoils the list, and an error is passed on.
pub proof fn law_tools_are_those_listed(
    m: Map<Seq<char>, JsonView>,
    items: Seq<JsonView>,
    error: ErrorView,
)
    requires
        m.contains_key("tools"@),
        m["tools"@] == JsonView::Array(items),
    ensures
        ({
            let tools = tools_in(Ok(JsonView::Object(m)));
            &&& tools is Ok <==> forall|i: int|
                0 <= i < items.len() ==> McpTool::decoded(#[trigger] items[i]) is Some
            &&& tools is Ok ==> tools->Ok_0.len() == items.len() && forall|i: int|
                0 <= i < items.len() ==> McpTool::decoded(#[trigger] items[i]) == Some(
                    tools->Ok_0[i],
                )
            &&& tools_in(Err(error)) == Err::<Seq<ToolView>, ErrorView>(error)
        }),
{
    law_tools_are_read_from_members(m);
}

/// Each tool that a server lists has the schema and the further data that the server sent for it,
/// by the members of its item.
pub proof fn law_listed_tool_has_its_schema(
    m: Map<Seq<char>, JsonView>,
    items: Seq<JsonView>,
    i: int,
    t: Map<Seq<char>, JsonView>,
)
    requires
        m.contains_key("tools"@),
        m["tools"@] == JsonView::Array(items),
        tools_in(Ok(JsonView::Object(m))) is Ok,
        0 <= i < items.len(),
        items[i] == JsonView::Object(t),
    ensures
        ({
            let tool = tools_in(Ok(JsonView::Object(m)))->Ok_0[i];
            &&& t["name"@] == JsonView::Str(tool.name)
            &&& t.contains_key("inputSchema"@) ==> tool.input_schema == t["inputSchema"@]
            &&& !t.contains_key("inputSchema"@) ==> tool.input_schema == JsonView::Object(
                map!["type"@ => JsonView::Str("object"@)],
            )
            &&& t.contains_key("_meta"@) ==> tool.meta == t["_meta"@]
            &&& !t.contains_key("_meta"@) ==> tool.meta is Null
        }),
{
    law_tools_are_those_listed(m, items, ErrorView::Cancelled);
    law_tool_is_read_from_members(t);
}

/// The resources of a server are all those that it lists, in their order, each read from its item.
/// Whatever goes wrong, there are none.
pub proof fn law_resources_are_those_listed(
    m: Map<Seq<char>, JsonView>,
    items: Seq<JsonView>,
    error: ErrorView,
)
    requires
        m.contains_key("resources"@),
        m["resources"@] == JsonView::Array(items),
    ensures
        ({
            let resources = resources_in(Ok(JsonView::Object(m)));
            let fine = forall|i: int|
                0 <= i < items.len() ==> McpResource::decoded(#[trigger] items[i]) is Some;
            &&& fine ==> resources.len() == items.len() && forall|i: int|
                0 <= i < items.len() ==> McpResource::decoded(#[trigger] items[i]) == Some(
                    resources[i],
                )
            &&& !fine ==> resources.len() == 0
            &&& resources_in(Err(error)).len() == 0
            &&& resources_in(Ok(JsonView::Null)).len() == 0
        }),
{
    law_resources_are_read_from_members(m);
}

/// The prompts of a server are all those that it lists, in their order, each read from its item.
/// Whatever goes wrong, there are none.
pub proof fn law_prompts_are_those_listed(
    m: Map<Seq<char>, JsonView>,
    items: Seq<JsonView>,
    error: ErrorView,
)
    requires
        m.contains_key("prompts"@),
        m["prompts"@] == JsonView::Array(items),
    ensures
        ({
            let prompts = prompts_in(Ok(JsonView::Object(m)));
            let fine = forall|i: int|
                0 <= i < items.len() ==> McpPrompt::decoded(#[trigger] items[i]) is Some;
            &&& fine ==> prompts.len() == items.len() && forall|i: int|
                0 <= i < items.len() ==> McpPrompt::decoded(#[trigger] items[i]) == Some(
                    prompts[i],
                )
            &&& !fine ==> prompts.len() == 0
            &&& prompts_in(Err(error)).len() == 0
            &&& prompts_in(Ok(JsonView::Null)).len() == 0
        }),
{
    law_prompts_are_read_from_members(m);
}

/// When all is given up, as many waiters are woken as were waiting: each one once, and each with
/// the news that the connection is lost.
pub proof fn law_all_waiters_are_woken<W>(
    pending: Map<u64, W>,
    deliveries: Seq<Delivery<W>>,
    id: u64,
)
    requires
        given_up(pending, deliveries),
    ensures
        pending.contains_key(id) ==> exists|i: int|
            0 <= i < deliveries.len() && (#[trigger] deliveries[i]).id == id
                && deliveries[i].waiter == pending[id],
        !pending.contains_key(id) ==> forall|i: int|
            0 <= i < deliveries.len() ==> (#[trigger] deliveries[i]).id != id,
        forall|i: int, j: int|
            0 <= i < deliveries.len() && 0 <= j < deliveries.len() && i != j
                ==> (#[trigger] deliveries[i]).id != (#[trigger] deliveries[j]).id,
        forall|i: int|
            0 <= i < deliveries.len() ==> (#[trigger] deliveries[i]).outcome is Err
                && deliveries[i].outcome->Err_0 is ConnectionLost,
{
    if pending.contains_key(id) {
        let i = choose|i: int| 0 <= i < deliveries.len() && (#[trigger] deliveries[i]).id == id;
        assert(deliveries[i].id == id);
    }
}

/// A call, the end of a wait and what is to be done show what they hold.
pub proof fn law_calls_show_what_they_hold<W>(call: Call, end: WaitEnd, action: Dispatch<W>)
    ensures
        call@.id == call.id,
        call@.method == call.method@,
        call@.message == call.message@,
        match end {
            WaitEnd::SendFailed(error) => end@ == WaitEndView::SendFailed(error@),
            WaitEnd::Answered(Ok(value)) => end@ == WaitEndView::Answered(Ok(value@)),
            WaitEnd::Answered(Err(error)) => end@ == WaitEndView::Answered(Err(error@)),
            WaitEnd::Dropped => end@ is Dropped,
            WaitEnd::TimedOut => end@ is TimedOut,
        },
        match action {
            Dispatch::Malformed => action@ is Malformed,
            Dispatch::Resolved { id, waiter, outcome: Ok(value) } => action@ == (
            DispatchView::Resolved { id, waiter, outcome: Ok::<JsonView, ErrorView>(value@) }),
            Dispatch::Resolved { id, waiter, outcome: Err(error) } => action@ == (
            DispatchView::Resolved { id, waiter, outcome: Err::<JsonView, ErrorView>(error@) }),
            Dispatch::Orphan { id } => action@ == (DispatchView::<W>::Orphan { id }),
            Dispatch::Notification(told) => action@ == DispatchView::<W>::Notification(told@),
            Dispatch::Reply(message) => action@ == DispatchView::<W>::Reply(message@),
            Dispatch::Ignored => action@ is Ignored,
        },
{
}

} // verus!
