//! How a connection is made, and what it tells.

use vstd::prelude::*;

use crate::client::{
    initialize_params, law_handshake_tells_who_the_client_is, no_params, McpClient,
};
use crate::connection::{
    Action, ConnectionView, Handshake, McpConnection, McpConnectionState, Outgoing, Progress,
    StageView, StateView,
};
use crate::error::{error_text, McpError};
use crate::json::{Json, JsonView};
use crate::laws::client::{asks, notifies, took_down};
use crate::protocol::{law_notification_has_its_members, law_request_has_its_members};
use crate::record::{views, Decode};
use crate::types::{
    ClientInfo, InitializeResult, ListPromptsResult, ListResourcesResult, ListToolsResult,
    McpPrompt, McpResource, McpTool,
};

verus! {

/// The two connections are alike in all but their states.
pub open spec fn alike_but_for_state(a: ConnectionView, b: ConnectionView) -> bool {
    &&& a.server_name == b.server_name
    &&& a.init == b.init
    &&& a.tools == b.tools
    &&& a.resources == b.resources
    &&& a.prompts == b.prompts
}

/// The state tells that error: that authentication is needed, or else the words of the error.
pub open spec fn state_tells(state: StateView, error: McpError) -> bool {
    &&& error is NeedsAuth ==> state is NeedsAuth
    &&& !(error is NeedsAuth) ==> state == StateView::Failed(error_text(error@))
}

/// A handshake begins with the name of its server, and with greeting it.
pub proof fn law_connect(server_name: String, handshake: Handshake)
    requires
        call_ensures(McpConnection::connect, (server_name,), handshake),
    ensures
        handshake@.server_name == server_name@,
        handshake@.stage is Initializing,
{
}

/// A connection gives the tools, the resources and the prompts that it has, and its state.
pub proof fn law_connection_gives_what_it_has(
    connection: &McpConnection,
    tools: &Vec<McpTool>,
    resources: &Vec<McpResource>,
    prompts: &Vec<McpPrompt>,
    state: &McpConnectionState,
    i: int,
)
    ensures
        call_ensures(McpConnection::tools, (connection,), tools) ==> {
            &&& tools@.len() == connection.tools@.len()
            &&& 0 <= i < tools@.len() ==> tools@[i]@ == connection.tools@[i]@
        },
        call_ensures(McpConnection::resources, (connection,), resources) ==> {
            &&& resources@.len() == connection.resources@.len()
            &&& 0 <= i < resources@.len() ==> resources@[i]@ == connection.resources@[i]@
        },
        call_ensures(McpConnection::prompts, (connection,), prompts) ==> {
            &&& prompts@.len() == connection.prompts@.len()
            &&& 0 <= i < prompts@.len() ==> prompts@[i]@ == connection.prompts@[i]@
        },
        call_ensures(McpConnection::state, (connection,), state) ==> state@ == connection.state@,
{
    assert(views(tools@).len() == tools@.len());
    assert(views(resources@).len() == resources@.len());
    assert(views(prompts@).len() == prompts@.len());
    assert(views(connection.tools@).len() == connection.tools@.len());
    assert(views(connection.resources@).len() == connection.resources@.len());
    assert(views(connection.prompts@).len() == connection.prompts@.len());
    if 0 <= i < tools@.len() && i < connection.tools@.len() {
        assert(views(tools@)[i] == tools@[i]@);
        assert(views(connection.tools@)[i] == connection.tools@[i]@);
    }
    if 0 <= i < resources@.len() && i < connection.resources@.len() {
        assert(views(resources@)[i] == resources@[i]@);
        assert(views(connection.resources@)[i] == connection.resources@[i]@);
    }
    if 0 <= i < prompts@.len() && i < connection.prompts@.len() {
        assert(views(prompts@)[i] == prompts@[i]@);
        assert(views(connection.prompts@)[i] == connection.prompts@[i]@);
    }
}

/// A connection takes over the tools that its server lists now, and nothing else. Where that goes
/// wrong it says why, and all stays as it was.
pub proof fn law_refresh_tools(
    connection: &mut McpConnection,
    outcome: Result<Json, McpError>,
    result: Result<(), McpError>,
)
    requires
        call_ensures(McpConnection::refresh_tools, (connection, outcome), result),
    ensures
        final(connection)@.server_name == old(connection)@.server_name,
        final(connection)@.init == old(connection)@.init,
        final(connection)@.resources == old(connection)@.resources,
        final(connection)@.prompts == old(connection)@.prompts,
        final(connection)@.state == old(connection)@.state,
        result is Ok <==> outcome is Ok && ListToolsResult::decoded(outcome->Ok_0@) is Some,
        result is Ok ==> final(connection)@.tools == ListToolsResult::decoded(
            outcome->Ok_0@,
        )->0.tools,
        result is Err ==> final(connection)@.tools == old(connection)@.tools,
        outcome is Err ==> result is Err && result->Err_0@ == outcome->Err_0@,
        outcome is Ok && result is Err ==> result->Err_0 is Serde,
{
}

/// A state that is noted is the connection's, and nothing else changes.
pub proof fn law_set_state(connection: &mut McpConnection, state: McpConnectionState)
    requires
        call_ensures(McpConnection::set_state, (connection, state), ()),
    ensures
        alike_but_for_state(final(connection)@, old(connection)@),
        final(connection)@.state == state@,
{
}

/// A connection whose transport is closed has failed, and nothing else changes.
pub proof fn law_lost(connection: &mut McpConnection)
    requires
        call_ensures(McpConnection::lost, (connection,), ()),
    ensures
        alike_but_for_state(final(connection)@, old(connection)@),
        final(connection)@.state == StateView::Failed("connection lost"@),
{
}

/// To connect once more is to begin a handshake with the same server. Meanwhile the connection
/// keeps all that it knew.
pub proof fn law_reconnect(connection: &mut McpConnection, handshake: Handshake)
    requires
        call_ensures(McpConnection::reconnect, (connection,), handshake),
    ensures
        alike_but_for_state(final(connection)@, old(connection)@),
        final(connection)@.state is Connecting,
        handshake@.server_name == old(connection)@.server_name,
        handshake@.stage is Initializing,
{
}

/// A new connection takes the place of the old one. A failure is noted in the state, and nothing
/// else changes.
pub proof fn law_reconnected(
    connection: &mut McpConnection,
    result: Result<McpConnection, McpError>,
)
    requires
        call_ensures(McpConnection::reconnected, (connection, result), ()),
    ensures
        result is Ok ==> final(connection)@ == result->Ok_0@,
        result is Err ==> alike_but_for_state(final(connection)@, old(connection)@) && state_tells(
            final(connection)@.state,
            result->Err_0,
        ),
{
}

/// A handshake goes through its actions in their order: greet the server, tell it that it is
/// initialized, and ask for its tools, its resources and its prompts.
pub proof fn law_action(handshake: &Handshake, action: Action)
    requires
        call_ensures(Handshake::action, (handshake,), action),
    ensures
        action is Initialize <==> handshake@.stage is Initializing,
        action is NotifyInitialized <==> handshake@.stage is Notifying,
        action is ListTools <==> handshake@.stage is ListingTools,
        action is ListResources <==> handshake@.stage is ListingResources,
        action is ListPrompts <==> handshake@.stage is ListingPrompts,
{
}

/// Each action of a handshake sends the message that it stands for. Of the requests the waiter is
/// taken down; the notification leaves the client as it is.
pub proof fn law_act<W>(
    handshake: &Handshake,
    client: &mut McpClient<W>,
    client_info: &ClientInfo,
    waiter: W,
    outgoing: Outgoing,
)
    requires
        call_ensures(Handshake::act::<W>, (handshake, client, client_info, waiter), outgoing),
    ensures
        ({
            let nothing = JsonView::Object(Map::empty());
            let call = outgoing->Request_0;
            let stage = handshake@.stage;
            &&& stage is Notifying ==> {
                &&& outgoing is Notification
                &&& notifies(outgoing->Notification_0@, "notifications/initialized"@, nothing)
                &&& final(client)@ == old(client)@
            }
            &&& !(stage is Notifying) ==> {
                &&& outgoing is Request
                &&& call.id == old(client)@.next_id
                &&& took_down(old(client)@, final(client)@, waiter)
            }
            &&& stage is Initializing ==> {
                let params = call.message@->Object_0["params"@];
                let who = params->Object_0["clientInfo"@]->Object_0;
                &&& call.method@ == "initialize"@
                &&& asks(call.message@, call.id, "initialize"@, params)
                &&& params is Object
                &&& params->Object_0.contains_key("clientInfo"@)
                &&& params->Object_0["clientInfo"@] is Object
                &&& who["name"@] == JsonView::Str(client_info.name@)
                &&& who["version"@] == JsonView::Str(client_info.version@)
            }
            &&& stage is ListingTools ==> call.method@ == "tools/list"@ && asks(
                call.message@,
                call.id,
                "tools/list"@,
                nothing,
            )
            &&& stage is ListingResources ==> call.method@ == "resources/list"@ && asks(
                call.message@,
                call.id,
                "resources/list"@,
                nothing,
            )
            &&& stage is ListingPrompts ==> call.method@ == "prompts/list"@ && asks(
                call.message@,
                call.id,
                "prompts/list"@,
                nothing,
            )
        }),
{
    let before = old(client)@;
    let id = before.next_id;
    match handshake@.stage {
        StageView::Initializing => {
            law_request_has_its_members(id, "initialize"@, initialize_params(client_info@));
            law_handshake_tells_who_the_client_is(before, client_info@);
        },
        StageView::Notifying { .. } => {
            law_notification_has_its_members("notifications/initialized"@, no_params());
        },
        StageView::ListingTools { .. } => {
            law_request_has_its_members(id, "tools/list"@, no_params());
        },
        StageView::ListingResources { .. } => {
            law_request_has_its_members(id, "resources/list"@, no_params());
        },
        StageView::ListingPrompts { .. } => {
            law_request_has_its_members(id, "prompts/list"@, no_params());
        },
    }
}

/// A handshake tells what the server said of itself once the server was told that it is
/// initialized.
pub proof fn law_init(handshake: &Handshake, init: Option<&InitializeResult>)
    requires
        call_ensures(Handshake::init, (handshake,), init),
    ensures
        match handshake@.stage {
            StageView::Initializing => init is None,
            StageView::Notifying { .. } => init is None,
            StageView::ListingTools { init: said } => init is Some && init->0@ == said,
            StageView::ListingResources { init: said, .. } => init is Some && init->0@ == said,
            StageView::ListingPrompts { init: said, .. } => init is Some && init->0@ == said,
        },
{
}

/// A handshake goes on by one action at a time, and keeps what each brought. It fails only where
/// the server cannot be greeted or told that it is initialized, and with that error. What cannot
/// be listed is taken for an empty list.
pub proof fn law_step(handshake: Handshake, outcome: Result<Json, McpError>, progress: Progress)
    requires
        call_ensures(Handshake::step, (handshake, outcome), progress),
    ensures
        progress is Next ==> progress->Next_0@.server_name == handshake@.server_name,
        match handshake@.stage {
            StageView::Initializing => {
                &&& outcome is Err ==> progress is Failed && progress->Failed_0@ == outcome->Err_0@
                &&& outcome is Ok ==> match InitializeResult::decoded(outcome->Ok_0@) {
                    Some(init) => progress is Next && progress->Next_0@.stage == (
                    StageView::Notifying { init }),
                    None => progress is Failed && progress->Failed_0 is Serde,
                }
            },
            StageView::Notifying { init } => {
                &&& outcome is Err ==> progress is Failed && progress->Failed_0@ == outcome->Err_0@
                &&& outcome is Ok ==> progress is Next && progress->Next_0@.stage == (
                StageView::ListingTools { init })
            },
            StageView::ListingTools { init } => {
                let next = progress->Next_0@.stage;
                &&& progress is Next
                &&& next is ListingResources
                &&& next->ListingResources_init == init
                &&& outcome is Ok && ListToolsResult::decoded(outcome->Ok_0@) is Some
                    ==> next->ListingResources_tools == ListToolsResult::decoded(
                    outcome->Ok_0@,
                )->0.tools
                &&& outcome is Err || ListToolsResult::decoded(outcome->Ok_0@) is None
                    ==> next->ListingResources_tools.len() == 0
            },
            StageView::ListingResources { init, tools } => {
                let next = progress->Next_0@.stage;
                &&& progress is Next
                &&& next is ListingPrompts
                &&& next->ListingPrompts_init == init
                &&& next->ListingPrompts_tools == tools
                &&& outcome is Ok && ListResourcesResult::decoded(outcome->Ok_0@) is Some
                    ==> next->ListingPrompts_resources == ListResourcesResult::decoded(
                    outcome->Ok_0@,
                )->0.resources
                &&& outcome is Err || ListResourcesResult::decoded(outcome->Ok_0@) is None
                    ==> next->ListingPrompts_resources.len() == 0
            },
            StageView::ListingPrompts { init, tools, resources } => {
                let made = progress->Connected_0@;
                &&& progress is Connected
                &&& made.server_name == handshake@.server_name
                &&& made.init == init
                &&& made.tools == tools
                &&& made.resources == resources
                &&& outcome is Ok && ListPromptsResult::decoded(outcome->Ok_0@) is Some
                    ==> made.prompts == ListPromptsResult::decoded(outcome->Ok_0@)->0.prompts
                &&& outcome is Err || ListPromptsResult::decoded(outcome->Ok_0@) is None
                    ==> made.prompts.len() == 0
                &&& made.state is Connected
            },
        },
{
}

} // verus!
