//! What a client gets from the proxy while there is no backend.
use crate::message::{
    Capabilities, ClientMessageView, ListToolsView, NotificationBody, RequestBody, RequestIdView,
    ResultBodyView, ServerMessageView, ToolsCapability,
};
use crate::model::{AppStateView, OfflineActionView};
use crate::state::BufferMode;
use vstd::prelude::*;

verus! {

/// A `ping` gets an empty result under its own identifier, in every state, and changes
/// nothing.
pub proof fn law_ping_is_answered(
    s: AppStateView,
    id: RequestIdView,
    body: rmcp::model::ClientRequest,
)
    ensures
        ({
            let ping = ClientMessageView::Request { id, request: RequestBody::Ping(body) };
            &&& s.offline_action(ping) == OfflineActionView::Reply(
                ServerMessageView::Response { id, result: ResultBodyView::Empty },
            )
            &&& s.after_offline_message(ping) == s
        }),
{
}

/// An `initialize` request is answered under its own identifier, in every state: the proxy
/// advertises tools whose list may change, and nothing else; it gives its own name and
/// version; and it names the version of the protocol that it is told to, else `2025-03-26`.
pub proof fn law_initialize_is_answered(
    s: AppStateView,
    id: RequestIdView,
    body: rmcp::model::ClientRequest,
)
    ensures
        ({
            let request = ClientMessageView::Request { id, request: RequestBody::Initialize(body) };
            &&& s.offline_action(request) matches OfflineActionView::Reply(
                ServerMessageView::Response {
                    id: answered,
                    result: ResultBodyView::Initialize(result),
                },
            )
            &&& answered == id
            &&& result.capabilities == Capabilities {
                tools: Some(ToolsCapability { list_changed: Some(true) }),
                others: None,
            }
            &&& s.override_protocol_version is Some ==> result.protocol_version
                == s.override_protocol_version->0
            &&& s.override_protocol_version is None ==> result.protocol_version == "2025-03-26"@
            &&& result.server_info.name == "mcp-proxy-cached"@
            &&& result.server_info.version == s.proxy_version
            &&& result.server_info.title is None
            &&& result.server_info.icons is None
            &&& result.server_info.website_url is None
            &&& result.instructions == Some(
                "Proxy responding before backend has connected. tools/list is served from disk cache; tool calls buffer until the backend is ready."@,
            )
        }),
{
}

/// What the proxy is told to name as the version of the protocol changes nothing else of its
/// `initialize` response.
pub proof fn law_override_changes_the_version_alone(
    a: Option<Seq<char>>,
    b: Option<Seq<char>>,
    proxy_version: Seq<char>,
)
    ensures
        ({
            let x = crate::model::local_initialize_result(a, proxy_version);
            let y = crate::model::local_initialize_result(b, proxy_version);
            &&& x.capabilities == y.capabilities
            &&& x.capabilities.tools == Some(ToolsCapability { list_changed: Some(true) })
            &&& x.capabilities.others is None
            &&& x.server_info == y.server_info
            &&& x.instructions == y.instructions
            &&& a is Some ==> x.protocol_version == a->0
            &&& a is None ==> x.protocol_version == "2025-03-26"@
            &&& x.server_info.name == "mcp-proxy-cached"@
            &&& x.server_info.version == proxy_version
            &&& x.server_info.title is None && x.server_info.icons is None
                && x.server_info.website_url is None
            &&& x.instructions == Some(
                "Proxy responding before backend has connected. tools/list is served from disk cache; tool calls buffer until the backend is ready."@,
            )
        }),
{
}

/// An `initialize` request is kept for replay, whole and under its own identifier, where none
/// is kept yet; one that is kept is not replaced. It is never buffered, and changes nothing
/// else.
pub proof fn law_initialize_is_kept_once(
    s: AppStateView,
    id: RequestIdView,
    body: rmcp::model::ClientRequest,
)
    ensures
        ({
            let request = ClientMessageView::Request { id, request: RequestBody::Initialize(body) };
            let next = s.after_offline_message(request);
            &&& s.init_message is None ==> next.init_message == Some(request)
            &&& s.init_message is Some ==> next.init_message == s.init_message
            &&& next == AppStateView { init_message: next.init_message, ..s }
        }),
{
}

/// A `tools/list` request is answered under its own identifier with the tools that are known,
/// all of them and their cursor, or with an empty list where none are. It changes nothing.
pub proof fn law_known_tools_are_listed(
    s: AppStateView,
    id: RequestIdView,
    body: rmcp::model::ClientRequest,
)
    ensures
        ({
            let request = ClientMessageView::Request { id, request: RequestBody::ListTools(body) };
            &&& s.tools_cache is Some ==> s.offline_action(request) == OfflineActionView::Reply(
                ServerMessageView::Response {
                    id,
                    result: ResultBodyView::ListTools(s.tools_cache->0),
                },
            )
            &&& s.tools_cache is None ==> s.offline_action(request) == OfflineActionView::Reply(
                ServerMessageView::Response {
                    id,
                    result: ResultBodyView::ListTools(
                        ListToolsView { tools: Seq::empty(), next_cursor: None },
                    ),
                },
            )
            &&& s.after_offline_message(request) == s
        }),
{
}

/// Any other request waits behind what waits already, whole and under its own identifier,
/// while the proxy buffers; once it does not, the request is refused under its own identifier
/// and not kept.
pub proof fn law_other_requests_wait_or_are_refused(
    s: AppStateView,
    id: RequestIdView,
    body: rmcp::model::ClientRequest,
)
    ensures
        ({
            let request = ClientMessageView::Request { id, request: RequestBody::Other(body) };
            let next = s.after_offline_message(request);
            &&& s.buf_mode == BufferMode::Store ==> {
                &&& s.offline_action(request) == OfflineActionView::Nothing
                &&& next == AppStateView { in_buf: s.in_buf.push(request), ..s }
            }
            &&& s.buf_mode == BufferMode::Fail ==> {
                &&& s.offline_action(request) == OfflineActionView::ReplyDisconnected(id)
                &&& next == s
            }
        }),
{
}

/// The notification that the client is initialized is consumed: it is neither answered nor
/// kept, since the replay of the handshake sends it anew.
pub proof fn law_initialized_is_consumed(s: AppStateView, body: rmcp::model::ClientNotification)
    ensures
        ({
            let message = ClientMessageView::Notification {
                notification: NotificationBody::Initialized(body),
            };
            &&& s.offline_action(message) == OfflineActionView::Nothing
            &&& s.after_offline_message(message) == s
        }),
{
}

/// Every other message that asks for no answer waits behind what waits already, whole, while
/// the proxy buffers, and is dropped once it does not. Nothing is ever sent for it.
pub proof fn law_unanswered_messages_wait_or_are_dropped(
    s: AppStateView,
    message: ClientMessageView,
)
    requires
        message is Response || message is Error || (message is Notification
            && message->notification is Other),
    ensures
        s.offline_action(message) == OfflineActionView::Nothing,
        s.buf_mode == BufferMode::Store ==> s.after_offline_message(message) == (AppStateView {
            in_buf: s.in_buf.push(message),
            ..s
        }),
        s.buf_mode == BufferMode::Fail ==> s.after_offline_message(message) == s,
{
}

/// The messages that wait for the backend are the same in every state.
pub proof fn law_what_needs_the_backend(s: AppStateView, message: ClientMessageView)
    ensures
        s.needs_backend(message) <==> match message {
            ClientMessageView::Request { request, .. } => request is Other,
            ClientMessageView::Notification { notification } => notification is Other,
            ClientMessageView::Response { .. } => true,
            ClientMessageView::Error { .. } => true,
        },
{
}

} // verus!
