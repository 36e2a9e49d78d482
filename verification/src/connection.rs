//! A connection: the handshake that makes it, what it learned of the server, and its state.

use vstd::prelude::*;

use crate::client::{
    expected, initialize_params, initialize_result, list_prompts_result, list_resources_result,
    list_tools_result, next_call, no_params, prompts_in, requesting, resources_in, tools_in, Call,
    CallView, ClientView, McpClient,
};
use crate::error::{error_text, ErrorView, McpError};
use crate::json::{option_view, Json, JsonView};
use crate::protocol::{
    law_notification_has_its_members, law_request_has_its_members, notification_message,
    outcome_view, request_message,
};
use crate::record::{views, Decode};
use crate::types::{
    ClientInfo, ClientInfoView, InitializeResult, InitializeView, McpPrompt, McpResource, McpTool,
    PromptView, ResourceView, ToolView,
};

verus! {

/// How a connection is doing.
#[derive(Debug, Clone)]
pub enum McpConnectionState {
    Connecting,
    Connected,
    NeedsAuth,
    Failed(String),
}

/// [`McpConnectionState`] as mathematics.
pub enum StateView {
    Connecting,
    Connected,
    NeedsAuth,
    Failed(Seq<char>),
}

impl View for McpConnectionState {
    type V = StateView;

    open spec fn view(&self) -> StateView {
        match *self {
            McpConnectionState::Connecting => StateView::Connecting,
            McpConnectionState::Connected => StateView::Connected,
            McpConnectionState::NeedsAuth => StateView::NeedsAuth,
            McpConnectionState::Failed(reason) => StateView::Failed(reason@),
        }
    }
}

/// A connection to a server, with what the server was last known to offer.
#[derive(Debug)]
pub struct McpConnection {
    pub server_name: String,
    pub init: InitializeResult,
    pub tools: Vec<McpTool>,
    pub resources: Vec<McpResource>,
    pub prompts: Vec<McpPrompt>,
    pub state: McpConnectionState,
}

/// [`McpConnection`] as mathematics.
#[verifier::ext_equal]
pub struct ConnectionView {
    pub server_name: Seq<char>,
    pub init: InitializeView,
    pub tools: Seq<ToolView>,
    pub resources: Seq<ResourceView>,
    pub prompts: Seq<PromptView>,
    pub state: StateView,
}

impl View for McpConnection {
    type V = ConnectionView;

    open spec fn view(&self) -> ConnectionView {
        ConnectionView {
            server_name: self.server_name@,
            init: self.init@,
            tools: views(self.tools@),
            resources: views(self.resources@),
            prompts: views(self.prompts@),
            state: self.state@,
        }
    }
}

impl McpConnection {
    /// Starts to connect to a server.
    pub fn connect(server_name: String) -> (handshake: Handshake)
        ensures
            handshake@ == (HandshakeView {
                server_name: server_name@,
                stage: StageView::Initializing,
            }),
    {
        Handshake { server_name, stage: Stage::Initializing }
    }

    /// The tools that the server offers.
    pub fn tools(&self) -> (tools: &Vec<McpTool>)
        ensures
            views(tools@) == self@.tools,
    {
        &self.tools
    }

    /// The resources that the server offers.
    pub fn resources(&self) -> (resources: &Vec<McpResource>)
        ensures
            views(resources@) == self@.resources,
    {
        &self.resources
    }

    /// The prompts that the server offers.
    pub fn prompts(&self) -> (prompts: &Vec<McpPrompt>)
        ensures
            views(prompts@) == self@.prompts,
    {
        &self.prompts
    }

    /// Takes over the tools that the server lists now. What goes wrong with that changes nothing.
    pub fn refresh_tools(&mut self, outcome: Result<Json, McpError>) -> (result: Result<
        (),
        McpError,
    >)
        ensures
            match tools_in(outcome_view(outcome)) {
                Ok(tools) => result is Ok && final(self)@ == (ConnectionView {
                    tools,
                    ..old(self)@
                }),
                Err(error) => result is Err && result->Err_0@ == error && final(self)@ == old(
                    self,
                )@,
            },
    {
        match list_tools_result(outcome) {
            Ok(tools) => {
                self.tools = tools;
                Ok(())
            },
            Err(error) => Err(error),
        }
    }

    /// How the connection is doing.
    pub fn state(&self) -> (state: &McpConnectionState)
        ensures
            state@ == self@.state,
    {
        &self.state
    }

    /// Notes how the connection is doing.
    pub fn set_state(&mut self, state: McpConnectionState)
        ensures
            final(self)@ == (ConnectionView { state: state@, ..old(self)@ }),
    {
        self.state = state;
    }

    /// Notes that the transport is closed.
    pub fn lost(&mut self)
        ensures
            final(self)@ == (ConnectionView {
                state: state_after(ErrorView::ConnectionLost),
                ..old(self)@
            }),
    {
        self.state = McpConnectionState::Failed(McpError::ConnectionLost.message());
    }

    /// Starts to connect to the same server once more. What was known of it stays until then.
    pub fn reconnect(&mut self) -> (handshake: Handshake)
        ensures
            final(self)@ == (ConnectionView { state: StateView::Connecting, ..old(self)@ }),
            handshake@ == (HandshakeView {
                server_name: old(self)@.server_name,
                stage: StageView::Initializing,
            }),
    {
        self.state = McpConnectionState::Connecting;
        McpConnection::connect(self.server_name.clone())
    }

    /// Notes what connecting once more came to. The new connection takes the place of this one; a
    /// failure is noted in its state.
    pub fn reconnected(&mut self, result: Result<McpConnection, McpError>)
        ensures
            final(self)@ == (match outcome_view(result) {
                Ok(connection) => connection,
                Err(error) => ConnectionView { state: state_after(error), ..old(self)@ },
            }),
    {
        match result {
            Ok(connection) => {
                *self = connection;
            },
            Err(McpError::NeedsAuth) => {
                self.state = McpConnectionState::NeedsAuth;
            },
            Err(error) => {
                self.state = McpConnectionState::Failed(error.message());
            },
        }
    }
}

/// The state of a connection that could not be made.
pub open spec fn state_after(error: ErrorView) -> StateView {
    match error {
        ErrorView::NeedsAuth => StateView::NeedsAuth,
        _ => StateView::Failed(error_text(error)),
    }
}

// ---------------------------------------------------------------------------
// The handshake
// ---------------------------------------------------------------------------

/// How far a handshake has got.
enum Stage {
    Initializing,
    Notifying { init: InitializeResult },
    ListingTools { init: InitializeResult },
    ListingResources { init: InitializeResult, tools: Vec<McpTool> },
    ListingPrompts { init: InitializeResult, tools: Vec<McpTool>, resources: Vec<McpResource> },
}

/// A connection in the making.
pub struct Handshake {
    server_name: String,
    stage: Stage,
}

/// How far a handshake has got, as mathematics.
#[verifier::ext_equal]
pub enum StageView {
    Initializing,
    Notifying { init: InitializeView },
    ListingTools { init: InitializeView },
    ListingResources { init: InitializeView, tools: Seq<ToolView> },
    ListingPrompts { init: InitializeView, tools: Seq<ToolView>, resources: Seq<ResourceView> },
}

/// [`Handshake`] as mathematics.
#[verifier::ext_equal]
pub struct HandshakeView {
    pub server_name: Seq<char>,
    pub stage: StageView,
}

impl View for Handshake {
    type V = HandshakeView;

    closed spec fn view(&self) -> HandshakeView {
        HandshakeView {
            server_name: self.server_name@,
            stage: match self.stage {
                Stage::Initializing => StageView::Initializing,
                Stage::Notifying { init } => StageView::Notifying { init: init@ },
                Stage::ListingTools { init } => StageView::ListingTools { init: init@ },
                Stage::ListingResources { init, tools } => StageView::ListingResources {
                    init: init@,
                    tools: views(tools@),
                },
                Stage::ListingPrompts { init, tools, resources } => StageView::ListingPrompts {
                    init: init@,
                    tools: views(tools@),
                    resources: views(resources@),
                },
            },
        }
    }
}

/// What a handshake wants done next.
#[derive(Debug, Clone, Copy, PartialEq, Eq, Structural)]
pub enum Action {
    /// Send the `initialize` request, and wait for what it comes to.
    Initialize,
    /// Tell the server that the handshake is done. When that is sent, any value will do for the
    /// outcome.
    NotifyInitialized,
    /// Ask for the tools.
    ListTools,
    /// Ask for the resources.
    ListResources,
    /// Ask for the prompts.
    ListPrompts,
}

/// What a handshake at this stage wants done next.
pub open spec fn action_at(stage: StageView) -> Action {
    match stage {
        StageView::Initializing => Action::Initialize,
        StageView::Notifying { .. } => Action::NotifyInitialized,
        StageView::ListingTools { .. } => Action::ListTools,
        StageView::ListingResources { .. } => Action::ListResources,
        StageView::ListingPrompts { .. } => Action::ListPrompts,
    }
}

/// The message that an action of a handshake sends.
pub enum Outgoing {
    /// A request, to which a response is to be waited for.
    Request(Call),
    /// A notification, to which there is none.
    Notification(Json),
}

/// [`Outgoing`] as mathematics.
#[verifier::ext_equal]
pub enum OutgoingView {
    Request(CallView),
    Notification(JsonView),
}

impl View for Outgoing {
    type V = OutgoingView;

    open spec fn view(&self) -> OutgoingView {
        match *self {
            Outgoing::Request(call) => OutgoingView::Request(call@),
            Outgoing::Notification(message) => OutgoingView::Notification(message@),
        }
    }
}

/// What an action sends, and the client afterwards.
pub open spec fn acted<W>(
    client: ClientView<W>,
    action: Action,
    client_info: ClientInfoView,
    waiter: W,
) -> (ClientView<W>, OutgoingView) {
    match action {
        Action::Initialize => (
            requesting(client, waiter),
            OutgoingView::Request(
                next_call(client, "initialize"@, initialize_params(client_info)),
            ),
        ),
        Action::NotifyInitialized => (
            client,
            OutgoingView::Notification(
                notification_message("notifications/initialized"@, no_params()),
            ),
        ),
        Action::ListTools => (
            requesting(client, waiter),
            OutgoingView::Request(next_call(client, "tools/list"@, no_params())),
        ),
        Action::ListResources => (
            requesting(client, waiter),
            OutgoingView::Request(next_call(client, "resources/list"@, no_params())),
        ),
        Action::ListPrompts => (
            requesting(client, waiter),
            OutgoingView::Request(next_call(client, "prompts/list"@, no_params())),
        ),
    }
}

/// What the server said of itself, once it was told that the handshake is done.
pub open spec fn init_at(stage: StageView) -> Option<InitializeView> {
    match stage {
        StageView::Initializing => None,
        StageView::Notifying { .. } => None,
        StageView::ListingTools { init } => Some(init),
        StageView::ListingResources { init, .. } => Some(init),
        StageView::ListingPrompts { init, .. } => Some(init),
    }
}

/// Where a handshake stands after a step.
pub enum Progress {
    /// There is more to be done.
    Next(Handshake),
    /// The connection is made.
    Connected(McpConnection),
    /// It came to nothing.
    Failed(McpError),
}

/// [`Progress`] as mathematics.
#[verifier::ext_equal]
pub enum ProgressView {
    Next(HandshakeView),
    Connected(ConnectionView),
    Failed(ErrorView),
}

impl View for Progress {
    type V = ProgressView;

    open spec fn view(&self) -> ProgressView {
        match *self {
            Progress::Next(handshake) => ProgressView::Next(handshake@),
            Progress::Connected(connection) => ProgressView::Connected(connection@),
            Progress::Failed(error) => ProgressView::Failed(error@),
        }
    }
}

/// The tools that an outcome lists, or none if it lists none.
pub open spec fn tools_or_none(outcome: Result<JsonView, ErrorView>) -> Seq<ToolView> {
    match tools_in(outcome) {
        Ok(tools) => tools,
        Err(_) => Seq::empty(),
    }
}

/// Where a handshake stands once what it wanted done came to this.
pub open spec fn stepped(
    handshake: HandshakeView,
    outcome: Result<JsonView, ErrorView>,
) -> ProgressView {
    let server_name = handshake.server_name;
    match handshake.stage {
        StageView::Initializing => match expected::<InitializeResult>(outcome) {
            Ok(init) => ProgressView::Next(
                HandshakeView { server_name, stage: StageView::Notifying { init } },
            ),
            Err(error) => ProgressView::Failed(error),
        },
        StageView::Notifying { init } => match outcome {
            Ok(_) => ProgressView::Next(
                HandshakeView { server_name, stage: StageView::ListingTools { init } },
            ),
            Err(error) => ProgressView::Failed(error),
        },
        StageView::ListingTools { init } => ProgressView::Next(
            HandshakeView {
                server_name,
                stage: StageView::ListingResources { init, tools: tools_or_none(outcome) },
            },
        ),
        StageView::ListingResources { init, tools } => ProgressView::Next(
            HandshakeView {
                server_name,
                stage: StageView::ListingPrompts { init, tools, resources: resources_in(outcome) },
            },
        ),
        StageView::ListingPrompts { init, tools, resources } => ProgressView::Connected(
            ConnectionView {
                server_name,
                init,
                tools,
                resources,
                prompts: prompts_in(outcome),
                state: StateView::Connected,
            },
        ),
    }
}

impl Handshake {
    /// What is to be done next.
    pub fn action(&self) -> (action: Action)
        ensures
            action == action_at(self@.stage),
    {
        match self.stage {
            Stage::Initializing => Action::Initialize,
            Stage::Notifying { .. } => Action::NotifyInitialized,
            Stage::ListingTools { .. } => Action::ListTools,
            Stage::ListingResources { .. } => Action::ListResources,
            Stage::ListingPrompts { .. } => Action::ListPrompts,
        }
    }

    /// Takes the next action: tells what to send for it. The waiter is kept where a response is
    /// to come.
    pub fn act<W>(
        &self,
        client: &mut McpClient<W>,
        client_info: &ClientInfo,
        waiter: W,
    ) -> (outgoing: Outgoing)
        ensures
            (final(client)@, outgoing@) == acted(
                old(client)@,
                action_at(self@.stage),
                client_info@,
                waiter,
            ),
    {
        match self.action() {
            Action::Initialize => Outgoing::Request(client.initialize(client_info, waiter)),
            Action::NotifyInitialized => Outgoing::Notification(client.notify_initialized()),
            Action::ListTools => Outgoing::Request(client.list_tools(waiter)),
            Action::ListResources => Outgoing::Request(client.list_resources(waiter)),
            Action::ListPrompts => Outgoing::Request(client.list_prompts(waiter)),
        }
    }

    /// What the server said of itself, once it was told that the handshake is done.
    pub fn init(&self) -> (init: Option<&InitializeResult>)
        ensures
            option_view(init) == init_at(self@.stage),
    {
        match &self.stage {
            Stage::Initializing => None,
            Stage::Notifying { .. } => None,
            Stage::ListingTools { init } => Some(init),
            Stage::ListingResources { init, .. } => Some(init),
            Stage::ListingPrompts { init, .. } => Some(init),
        }
    }

    /// Goes on with what the last action came to.
    pub fn step(self, outcome: Result<Json, McpError>) -> (progress: Progress)
        ensures
            progress@ == stepped(self@, outcome_view(outcome)),
    {
        let server_name = self.server_name;
        match self.stage {
            Stage::Initializing => match initialize_result(outcome) {
                Ok(init) => Progress::Next(
                    Handshake { server_name, stage: Stage::Notifying { init } },
                ),
                Err(error) => Progress::Failed(error),
            },
            Stage::Notifying { init } => match outcome {
                Ok(_) => Progress::Next(
                    Handshake { server_name, stage: Stage::ListingTools { init } },
                ),
                Err(error) => Progress::Failed(error),
            },
            Stage::ListingTools { init } => {
                let tools = match list_tools_result(outcome) {
                    Ok(tools) => tools,
                    Err(_) => Vec::new(),
                };
                Progress::Next(
                    Handshake { server_name, stage: Stage::ListingResources { init, tools } },
                )
            },
            Stage::ListingResources { init, tools } => {
                let resources = list_resources_result(outcome);
                Progress::Next(
                    Handshake {
                        server_name,
                        stage: Stage::ListingPrompts { init, tools, resources },
                    },
                )
            },
            Stage::ListingPrompts { init, tools, resources } => {
                let prompts = list_prompts_result(outcome);
                Progress::Connected(
                    McpConnection {
                        server_name,
                        init,
                        tools,
                        resources,
                        prompts,
                        state: McpConnectionState::Connected,
                    },
                )
            },
        }
    }
}

// ---------------------------------------------------------------------------
// Laws
// ---------------------------------------------------------------------------

/// A handshake that is carried on to its end, with what each of its actions comes to.
pub open spec fn carried_on(
    progress: ProgressView,
    outcomes: spec_fn(Action) -> Result<JsonView, ErrorView>,
    steps: nat,
) -> ProgressView
    decreases steps,
{
    match progress {
        ProgressView::Next(handshake) if steps > 0 => carried_on(
            stepped(handshake, outcomes(action_at(handshake.stage))),
            outcomes,
            (steps - 1) as nat,
        ),
        _ => progress,
    }
}

/// A handshake takes at most five steps. It fails only where the server cannot be initialized or
/// told that it is, and for that reason; else there is a connection that knows what the server
/// lists, where it lists anything.
pub proof fn law_handshake_makes_the_connection(
    server_name: Seq<char>,
    outcomes: spec_fn(Action) -> Result<JsonView, ErrorView>,
)
    ensures
        carried_on(
            ProgressView::Next(HandshakeView { server_name, stage: StageView::Initializing }),
            outcomes,
            5,
        ) == (match (
            expected::<InitializeResult>(outcomes(Action::Initialize)),
            outcomes(Action::NotifyInitialized),
        ) {
            (Err(error), _) => ProgressView::Failed(error),
            (Ok(_), Err(error)) => ProgressView::Failed(error),
            (Ok(init), Ok(_)) => ProgressView::Connected(
                ConnectionView {
                    server_name,
                    init,
                    tools: tools_or_none(outcomes(Action::ListTools)),
                    resources: resources_in(outcomes(Action::ListResources)),
                    prompts: prompts_in(outcomes(Action::ListPrompts)),
                    state: StateView::Connected,
                },
            ),
        }),
{
    reveal_with_fuel(carried_on, 6);
}

/// The actions of a handshake come in this order, and it gets past the first two only if they
/// went well.
pub proof fn law_handshake_keeps_its_order(
    handshake: HandshakeView,
    outcome: Result<JsonView, ErrorView>,
)
    requires
        stepped(handshake, outcome) is Next,
    ensures
        action_at(stepped(handshake, outcome)->Next_0.stage) == (match action_at(handshake.stage) {
            Action::Initialize => Action::NotifyInitialized,
            Action::NotifyInitialized => Action::ListTools,
            Action::ListTools => Action::ListResources,
            _ => Action::ListPrompts,
        }),
        action_at(handshake.stage) == Action::Initialize || action_at(handshake.stage)
            == Action::NotifyInitialized ==> outcome is Ok,
{
}

/// A handshake begins with two messages: the request `initialize`, and once that went well the
/// notification `notifications/initialized`, which has no id. Then it is known what the server
/// said of itself.
pub proof fn law_handshake_begins_with_two_messages<W>(
    client: ClientView<W>,
    waiter: W,
    unused: W,
    server_name: Seq<char>,
    client_info: ClientInfoView,
    result: JsonView,
    sent: JsonView,
)
    requires
        InitializeResult::decoded(result) is Some,
    ensures
        ({
            let first = HandshakeView { server_name, stage: StageView::Initializing };
            let second = stepped(first, Ok(result))->Next_0;
            let third = stepped(second, Ok(sent))->Next_0;
            let (asked, request) = acted(client, action_at(first.stage), client_info, waiter);
            let (told, notice) = acted(asked, action_at(second.stage), client_info, unused);
            &&& stepped(first, Ok(result)) is Next
            &&& stepped(second, Ok(sent)) is Next
            &&& request matches OutgoingView::Request(call)
            &&& call.message == request_message(
                client.next_id,
                "initialize"@,
                initialize_params(client_info),
            )
            &&& notice == OutgoingView::Notification(
                notification_message("notifications/initialized"@, no_params()),
            )
            &&& asked == requesting(client, waiter)
            &&& told == asked
            &&& init_at(third.stage) == InitializeResult::decoded(result)
        }),
{
}

/// Each action of a handshake sends the message that it stands for: the requests under the next
/// id, with the waiter kept for the response, and the notification without either.
pub proof fn law_actions_send_their_messages<W>(
    client: ClientView<W>,
    action: Action,
    client_info: ClientInfoView,
    waiter: W,
)
    ensures
        ({
            let (after, outgoing) = acted(client, action, client_info, waiter);
            let message = match outgoing {
                OutgoingView::Request(call) => call.message,
                OutgoingView::Notification(message) => message,
            };
            let m = message->Object_0;
            &&& message is Object
            &&& m.contains_key("method"@)
            &&& m["method"@] == JsonView::Str(
                match action {
                    Action::Initialize => "initialize"@,
                    Action::NotifyInitialized => "notifications/initialized"@,
                    Action::ListTools => "tools/list"@,
                    Action::ListResources => "resources/list"@,
                    Action::ListPrompts => "prompts/list"@,
                },
            )
            &&& m.contains_key("params"@)
            &&& !(action is Initialize) ==> m["params"@] == JsonView::Object(Map::empty())
            &&& action is NotifyInitialized ==> {
                &&& outgoing is Notification
                &&& !m.contains_key("id"@)
                &&& after == client
            }
            &&& !(action is NotifyInitialized) ==> {
                &&& outgoing is Request
                &&& outgoing->Request_0.id == client.next_id
                &&& outgoing->Request_0.method == m["method"@]->Str_0
                &&& m.contains_key("id"@)
                &&& m["id"@] == JsonView::PosInt(client.next_id)
                &&& after.pending.contains_key(client.next_id)
                &&& after.pending[client.next_id] == waiter
                &&& forall|other: u64|
                    other != client.next_id ==> (#[trigger] after.pending.contains_key(other)
                        <==> client.pending.contains_key(other))
            }
        }),
{
    let id = client.next_id;
    match action {
        Action::Initialize => {
            law_request_has_its_members(id, "initialize"@, initialize_params(client_info));
        },
        Action::NotifyInitialized => {
            law_notification_has_its_members("notifications/initialized"@, no_params());
            lemma_id_is_no_other_name();
        },
        Action::ListTools => {
            law_request_has_its_members(id, "tools/list"@, no_params());
        },
        Action::ListResources => {
            law_request_has_its_members(id, "resources/list"@, no_params());
        },
        Action::ListPrompts => {
            law_request_has_its_members(id, "prompts/list"@, no_params());
        },
    }
}

/// The name of the id is not that of another member.
proof fn lemma_id_is_no_other_name()
    ensures
        "id"@ != "jsonrpc"@,
        "id"@ != "method"@,
        "id"@ != "params"@,
{
    reveal_strlit("id");
    reveal_strlit("jsonrpc");
    reveal_strlit("method");
    reveal_strlit("params");
    assert("id"@.len() == 2);
    assert("jsonrpc"@.len() == 7);
    assert("method"@.len() == 6);
    assert("params"@.len() == 6);
}

/// A connection in the making keeps the name of its server, and in the end the connection has
/// what each step brought: what the server said of itself, its tools, its resources and its
/// prompts.
pub proof fn law_handshake_keeps_what_it_learns(
    handshake: HandshakeView,
    outcome: Result<JsonView, ErrorView>,
)
    ensures
        match (handshake.stage, stepped(handshake, outcome)) {
            (_, ProgressView::Next(next)) if next.server_name != handshake.server_name => false,
            (StageView::Initializing, ProgressView::Next(next)) => {
                &&& outcome is Ok
                &&& next.stage is Notifying
                &&& InitializeResult::decoded(outcome->Ok_0) == Some(next.stage->Notifying_init)
            },
            (StageView::Initializing, ProgressView::Failed(error)) => {
                &&& outcome is Err ==> error == outcome->Err_0
                &&& outcome is Ok ==> InitializeResult::decoded(outcome->Ok_0) is None
            },
            (StageView::Notifying { init }, ProgressView::Next(next)) => {
                &&& outcome is Ok
                &&& next.stage == (StageView::ListingTools { init })
            },
            (StageView::Notifying { .. }, ProgressView::Failed(error)) => {
                &&& outcome is Err
                &&& error == outcome->Err_0
            },
            (StageView::ListingTools { init }, ProgressView::Next(next)) => {
                &&& next.stage is ListingResources
                &&& next.stage->ListingResources_init == init
                &&& tools_in(outcome) is Ok ==> next.stage->ListingResources_tools
                    == tools_in(outcome)->Ok_0
                &&& tools_in(outcome) is Err ==> next.stage->ListingResources_tools.len() == 0
            },
            (StageView::ListingResources { init, tools }, ProgressView::Next(next)) => {
                &&& next.stage is ListingPrompts
                &&& next.stage->ListingPrompts_init == init
                &&& next.stage->ListingPrompts_tools == tools
                &&& next.stage->ListingPrompts_resources == resources_in(outcome)
            },
            (
                StageView::ListingPrompts { init, tools, resources },
                ProgressView::Connected(connection),
            ) => {
                &&& connection.server_name == handshake.server_name
                &&& connection.init == init
                &&& connection.tools == tools
                &&& connection.resources == resources
                &&& connection.prompts == prompts_in(outcome)
                &&& connection.state is Connected
            },
            _ => false,
        },
{
}

/// A connection that could not be made, or was lost, is in no state of being connected: it needs
/// authentication if that is what the server says, and else has failed, in the words of the error.
pub proof fn law_failure_shows_in_the_state(error: ErrorView)
    ensures
        error is NeedsAuth ==> state_after(error) is NeedsAuth,
        !(error is NeedsAuth) ==> state_after(error) is Failed && state_after(error)->Failed_0
            == error_text(error),
{
}

/// A connection, its state and what an action sends show what they hold.
pub proof fn law_connection_shows_what_it_holds(
    connection: McpConnection,
    state: McpConnectionState,
    outgoing: Outgoing,
)
    ensures
        connection@.server_name == connection.server_name@,
        connection@.init == connection.init@,
        connection@.tools.len() == connection.tools@.len(),
        forall|i: int|
            0 <= i < connection.tools@.len() ==> connection@.tools[i]
                == #[trigger] connection.tools@[i]@,
        connection@.resources.len() == connection.resources@.len(),
        forall|i: int|
            0 <= i < connection.resources@.len() ==> connection@.resources[i]
                == #[trigger] connection.resources@[i]@,
        connection@.prompts.len() == connection.prompts@.len(),
        forall|i: int|
            0 <= i < connection.prompts@.len() ==> connection@.prompts[i]
                == #[trigger] connection.prompts@[i]@,
        connection@.state == connection.state@,
        match state {
            McpConnectionState::Connecting => state@ is Connecting,
            McpConnectionState::Connected => state@ is Connected,
            McpConnectionState::NeedsAuth => state@ is NeedsAuth,
            McpConnectionState::Failed(reason) => state@ == StateView::Failed(reason@),
        },
        match outgoing {
            Outgoing::Request(call) => outgoing@ == OutgoingView::Request(call@),
            Outgoing::Notification(message) => outgoing@ == OutgoingView::Notification(message@),
        },
{
}

/// Where a handshake stands shows what it holds.
pub proof fn law_progress_shows_what_it_holds(progress: Progress)
    ensures
        match progress {
            Progress::Next(handshake) => progress@ == ProgressView::Next(handshake@),
            Progress::Connected(connection) => progress@ == ProgressView::Connected(connection@),
            Progress::Failed(error) => progress@ == ProgressView::Failed(error@),
        },
{
}

/// A handshake knows what the server said of itself from when it was told that it is done.
pub proof fn law_handshake_knows_the_server(stage: StageView)
    ensures
        init_at(stage) == (match stage {
            StageView::ListingTools { init } => Some(init),
            StageView::ListingResources { init, tools } => Some(init),
            StageView::ListingPrompts { init, tools, resources } => Some(init),
            _ => None,
        }),
        action_at(stage) is Initialize <==> stage is Initializing,
        action_at(stage) is NotifyInitialized <==> stage is Notifying,
        action_at(stage) is ListTools <==> stage is ListingTools,
        action_at(stage) is ListResources <==> stage is ListingResources,
        action_at(stage) is ListPrompts <==> stage is ListingPrompts,
{
}

} // verus!
