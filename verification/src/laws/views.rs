//! What the models of the types keep of them: everything that the proxy looks at or passes on.
use crate::message::{
    ClientMessage, ClientMessageView, Implementation, InitializeResult, ListToolsResult,
    ProtocolVersion, RequestId, RequestIdView, ResultBody, ResultBodyView, ServerMessage,
    ServerMessageView,
};
use crate::model::{OfflineActionView, ProxyStateView};
use crate::state::{AppState, OfflineAction, ProxyState};
use vstd::prelude::*;

verus! {

/// An identifier is modelled by its kind and its value.
pub proof fn law_request_id_model(id: RequestId)
    ensures
        id matches RequestId::Number(n) ==> id@ == RequestIdView::Number(n),
        id matches RequestId::Text(t) ==> id@ == RequestIdView::Text(t@),
{
}

/// Two identifiers have one model exactly where both are numbers or both texts, of the same
/// value.
pub proof fn law_request_id_model_is_exact(a: RequestId, b: RequestId)
    ensures
        a@ == b@ <==> {
            ||| a is Number && b is Number && a->Number_0 == b->Number_0
            ||| a is Text && b is Text && a->Text_0@ == b->Text_0@
        },
{
}

/// A protocol version is modelled by its text.
pub proof fn law_protocol_version_model(version: ProtocolVersion)
    ensures
        version@ == version.text@,
{
}

/// An optional text is modelled by the text.
pub proof fn law_optional_text_model(text: Option<String>)
    ensures
        text is None <==> crate::message::text_view(text) is None,
        text matches Some(t) ==> crate::message::text_view(text) == Some(t@),
{
}

/// A message of the client is modelled by its kind, its identifier and its whole body.
pub proof fn law_client_message_model(message: ClientMessage)
    ensures
        match message {
            ClientMessage::Request { id, request } => {
                message@ == ClientMessageView::Request { id: id@, request }
            },
            ClientMessage::Response { id, result } => {
                message@ == ClientMessageView::Response { id: id@, result }
            },
            ClientMessage::Notification { notification } => {
                message@ == ClientMessageView::Notification { notification }
            },
            ClientMessage::Error { id, error } => {
                message@ == ClientMessageView::Error { id: id@, error }
            },
        },
{
}

/// A list of tools is modelled by all its tools, in order, and its cursor.
pub proof fn law_list_tools_model(result: ListToolsResult)
    ensures
        result@.tools == result.tools@,
        result@.next_cursor is None <==> result.next_cursor is None,
        result.next_cursor matches Some(cursor) ==> result@.next_cursor == Some(cursor@),
{
}

/// An optional list of tools is modelled by the list.
pub proof fn law_optional_tools_model(tools: Option<ListToolsResult>)
    ensures
        tools is None <==> crate::message::tools_view(tools) is None,
        tools matches Some(t) ==> crate::message::tools_view(tools) == Some(t@),
{
}

/// What a server says of itself is modelled by each of its parts.
pub proof fn law_implementation_model(info: Implementation)
    ensures
        info@.name == info.name@,
        info@.version == info.version@,
        info@.icons == info.icons,
        info@.title is None <==> info.title is None,
        info.title matches Some(title) ==> info@.title == Some(title@),
        info@.website_url is None <==> info.website_url is None,
        info.website_url matches Some(url) ==> info@.website_url == Some(url@),
{
}

/// The result of an `initialize` request is modelled by each of its parts.
pub proof fn law_initialize_result_model(result: InitializeResult)
    ensures
        result@.protocol_version == result.protocol_version.text@,
        result@.capabilities == result.capabilities,
        result@.server_info == result.server_info@,
        result@.instructions is None <==> result.instructions is None,
        result.instructions matches Some(text) ==> result@.instructions == Some(text@),
{
}

/// A result of the server is modelled by its kind and its whole content.
pub proof fn law_result_body_model(result: ResultBody)
    ensures
        match result {
            ResultBody::Empty => result@ == ResultBodyView::Empty,
            ResultBody::Initialize(r) => result@ == ResultBodyView::Initialize(r@),
            ResultBody::ListTools(r) => result@ == ResultBodyView::ListTools(r@),
            ResultBody::Other(r) => result@ == ResultBodyView::Other(r),
        },
{
}

/// A message of the server is modelled by its kind, its identifier and its whole body.
pub proof fn law_server_message_model(message: ServerMessage)
    ensures
        match message {
            ServerMessage::Request { id, request } => {
                message@ == ServerMessageView::Request { id: id@, request }
            },
            ServerMessage::Response { id, result } => {
                message@ == ServerMessageView::Response { id: id@, result: result@ }
            },
            ServerMessage::Notification { notification } => {
                message@ == ServerMessageView::Notification { notification }
            },
            ServerMessage::Error { id, error } => {
                message@ == ServerMessageView::Error { id: id@, error }
            },
        },
{
}

/// The phase of the proxy is modelled by its kind and the identifier that it waits for.
pub proof fn law_proxy_state_model(state: ProxyState)
    ensures
        match state {
            ProxyState::Connecting => state@ == ProxyStateView::Connecting,
            ProxyState::Connected => state@ == ProxyStateView::Connected,
            ProxyState::Disconnected => state@ == ProxyStateView::Disconnected,
            ProxyState::WaitingForClientInit => state@ == ProxyStateView::WaitingForClientInit,
            ProxyState::WaitingForServerInit(id) => {
                state@ == ProxyStateView::WaitingForServerInit(id@)
            },
            ProxyState::WaitingForServerInitHidden(id) => {
                state@ == ProxyStateView::WaitingForServerInitHidden(id@)
            },
            ProxyState::WaitingForClientInitialized => {
                state@ == ProxyStateView::WaitingForClientInitialized
            },
        },
{
}

/// What to do offline is modelled by its kind and by what is sent.
pub proof fn law_offline_action_model(action: OfflineAction)
    ensures
        match action {
            OfflineAction::Nothing => action@ == OfflineActionView::Nothing,
            OfflineAction::Reply(message) => action@ == OfflineActionView::Reply(message@),
            OfflineAction::ReplyDisconnected(id) => {
                action@ == OfflineActionView::ReplyDisconnected(id@)
            },
        },
{
}

/// The state of the proxy is modelled by each of its parts.
pub proof fn law_app_state_model(s: AppState)
    ensures
        s@.url == s.url@,
        s@.max_disconnected_time == s.max_disconnected_time,
        s@.override_protocol_version is None <==> s.override_protocol_version is None,
        s.override_protocol_version matches Some(version) ==> s@.override_protocol_version == Some(
            version.text@,
        ),
        s@.disconnected_since == s.disconnected_since,
        s@.state == s.state@,
        s@.connect_tries == s.connect_tries,
        s@.init_message is None <==> s.init_message is None,
        s.init_message matches Some(message) ==> s@.init_message == Some(message@),
        s@.buf_mode == s.buf_mode,
        s@.flush_timer_active == s.flush_timer_active,
        s@.reconnect_tx == s.reconnect_tx,
        s@.timer_tx == s.timer_tx,
        s@.reconnect_scheduled == s.reconnect_scheduled,
        s@.transport_valid == s.transport_valid,
        s@.last_heartbeat == s.last_heartbeat,
        s@.tools_cache is None <==> s.tools_cache is None,
        s.tools_cache matches Some(tools) ==> s@.tools_cache == Some(tools@),
        s@.proxy_version == s.proxy_version@,
{
}

/// The buffer is modelled by its messages in order, and the known identifiers by the texts
/// under which they are kept.
pub proof fn law_app_state_collections_model(s: AppState)
    ensures
        s@.in_buf.len() == s.in_buf@.len(),
        forall|i: int| 0 <= i < s.in_buf@.len() ==> #[trigger] s@.in_buf[i] == s.in_buf@[i]@,
        forall|key: Seq<char>| #[trigger]
            s@.id_map.contains_key(key) <==> s.id_map@.contains_key(key),
        forall|key: Seq<char>|
            s.id_map@.contains_key(key) ==> #[trigger] s@.id_map[key] == s.id_map@[key]@,
{
}

} // verus!
