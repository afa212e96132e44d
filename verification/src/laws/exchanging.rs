//! What calls do with the messages of client and backend.
use crate::cache::{CacheDir, CacheWrite};
use crate::message::{
    Capabilities, ClientMessage, ClientMessageView, InitializeResultView, ListToolsView,
    NotificationBody, ProtocolVersion, RequestBody, RequestId, RequestIdView, ResultBodyView,
    ServerMessage, ServerMessageView, ToolsCapability,
};
use crate::model::{AppStateView, OfflineActionView, ProxyStateView};
use crate::relay::ClientAction;
use crate::state::{AppState, BufferMode, NotOffline, OfflineAction, SseAction, Timers};
use vstd::prelude::*;

verus! {

/// The end of the backend's stream is a failed transport, in every state but that of a proxy
/// that is disconnected already.
pub proof fn law_call_stream_ended<P>(
    s: &mut AppState,
    fresh_id: String,
    dir: Option<CacheDir<P>>,
    now: u64,
    action: SseAction<P>,
)
    requires
        call_ensures(AppState::handle_sse_message::<P>, (s, None, fresh_id, dir, now), action),
    ensures
        final(s)@ == old(s)@.fatal_transport_error(now),
        action matches SseAction::Reconnect(timers) && {
            &&& timers == old(s)@.fatal_timers(now)
            &&& old(s).state is Disconnected ==> final(s)@ == old(s)@ && timers == Timers {
                flush_in: None,
                reconnect_in: None,
            }
            &&& !(old(s).state is Disconnected) ==> {
                &&& final(s)@.state is Disconnected
                &&& final(s)@.disconnected_since == Some(now)
                &&& !final(s)@.transport_valid
                &&& timers.reconnect_in is Some <==> old(s).reconnect_tx
                    && !old(s).reconnect_scheduled
                &&& timers.flush_in is Some <==> old(s).timer_tx && !old(s).flush_timer_active
            }
        },
{
}

/// A response to a known request that is not the awaited `initialize` response is sent to the
/// client with the identifier that the request had and the very result that the backend gave.
/// Its tools, where it lists any, are kept and written wherever there is a directory.
pub proof fn law_call_response<P>(
    s: &mut AppState,
    message: ServerMessage,
    fresh_id: String,
    dir: Option<CacheDir<P>>,
    now: u64,
    action: SseAction<P>,
    id: RequestIdView,
    result: ResultBodyView,
)
    requires
        call_ensures(
            AppState::handle_sse_message::<P>,
            (s, Some(message), fresh_id, dir, now),
            action,
        ),
        message@ == (ServerMessageView::Response { id, result }),
        old(s)@.id_map.contains_key(id.key()),
        old(s)@.state != ProxyStateView::WaitingForServerInit(old(s)@.id_map[id.key()]),
        old(s)@.state != ProxyStateView::WaitingForServerInitHidden(old(s)@.id_map[id.key()]),
    ensures
        action is Forward,
        action->message@ == (ServerMessageView::Response {
            id: old(s)@.id_map[id.key()],
            result,
        }),
        result matches ResultBodyView::ListTools(tools) ==> {
            &&& final(s)@.tools_cache == Some(tools)
            &&& action->write is Some <==> dir is Some
            &&& action->write matches Some(w) ==> {
                &&& w.file.dir == dir->0
                &&& w.file.filename@ == crate::cache::cache_filename(old(s).url@)
                &&& crate::outside::bytes_of_tools_result(tools) == match w.bytes {
                    Some(b) => Some(b@),
                    None => None,
                }
                &&& forall|held: Seq<u8>| #[trigger]
                    crate::outside::tools_result_in_bytes(held) == Some(tools)
                        ==> w.bytes is Some && crate::outside::tools_result_in_bytes(w.bytes->0@)
                        == Some(tools)
            }
        },
        !(result is ListTools) ==> final(s)@.tools_cache == old(s)@.tools_cache
            && action->write is None,
        final(s)@ == (AppStateView {
            id_map: old(s)@.id_map.remove(id.key()),
            last_heartbeat: now,
            tools_cache: final(s)@.tools_cache,
            ..old(s)@
        }),
{
}

/// An error in answer to a known request is sent to the client in every state, with the
/// identifier that the request had, as the backend gave it.
pub proof fn law_call_error<P>(
    s: &mut AppState,
    message: ServerMessage,
    fresh_id: String,
    dir: Option<CacheDir<P>>,
    now: u64,
    action: SseAction<P>,
    id: RequestIdView,
    error: rmcp::model::ErrorData,
)
    requires
        call_ensures(
            AppState::handle_sse_message::<P>,
            (s, Some(message), fresh_id, dir, now),
            action,
        ),
        message@ == (ServerMessageView::Error { id, error }),
        old(s)@.id_map.contains_key(id.key()),
    ensures
        action is Forward,
        action->message@ == (ServerMessageView::Error { id: old(s)@.id_map[id.key()], error }),
        action->write is None,
        final(s)@ == (AppStateView {
            id_map: old(s)@.id_map.remove(id.key()),
            last_heartbeat: now,
            ..old(s)@
        }),
{
}

/// An answer to no known request is dropped; it is but a sign of life.
pub proof fn law_call_stray_answer<P>(
    s: &mut AppState,
    message: ServerMessage,
    fresh_id: String,
    dir: Option<CacheDir<P>>,
    now: u64,
    action: SseAction<P>,
)
    requires
        call_ensures(
            AppState::handle_sse_message::<P>,
            (s, Some(message), fresh_id, dir, now),
            action,
        ),
        match message@ {
            ServerMessageView::Response { id, .. } => !old(s)@.id_map.contains_key(id.key()),
            ServerMessageView::Error { id, .. } => !old(s)@.id_map.contains_key(id.key()),
            _ => false,
        },
    ensures
        action is Skip,
        final(s)@ == (AppStateView { last_heartbeat: now, ..old(s)@ }),
{
    let id = match message@ {
        ServerMessageView::Response { id, .. } => id,
        ServerMessageView::Error { id, .. } => id,
        _ => RequestIdView::Number(0),
    };
    assert(old(s)@.id_map.remove(id.key()) =~= old(s)@.id_map);
}

/// A request of the backend is sent to the client under the fresh identifier, as it is, and
/// its own identifier is kept.
pub proof fn law_call_server_request<P>(
    s: &mut AppState,
    message: ServerMessage,
    fresh_id: String,
    dir: Option<CacheDir<P>>,
    now: u64,
    action: SseAction<P>,
    id: RequestIdView,
    request: rmcp::model::ServerRequest,
)
    requires
        call_ensures(
            AppState::handle_sse_message::<P>,
            (s, Some(message), fresh_id, dir, now),
            action,
        ),
        message@ == (ServerMessageView::Request { id, request }),
    ensures
        action is Forward,
        action->message@ == (ServerMessageView::Request {
            id: RequestIdView::Text(fresh_id@),
            request,
        }),
        action->write is None,
        final(s)@ == (AppStateView {
            id_map: old(s)@.id_map.insert(fresh_id@, id),
            last_heartbeat: now,
            ..old(s)@
        }),
{
}

/// A notification of the backend is sent to the client as it is.
pub proof fn law_call_server_notification<P>(
    s: &mut AppState,
    message: ServerMessage,
    fresh_id: String,
    dir: Option<CacheDir<P>>,
    now: u64,
    action: SseAction<P>,
)
    requires
        call_ensures(
            AppState::handle_sse_message::<P>,
            (s, Some(message), fresh_id, dir, now),
            action,
        ),
        message is Notification,
    ensures
        action is Forward,
        action->message@ == message@,
        action->write is None,
        final(s)@ == (AppStateView { last_heartbeat: now, ..old(s)@ }),
{
}

/// The awaited response to a replayed `initialize` request connects the proxy and is not sent
/// to the client.
pub proof fn law_call_hidden_response<P>(
    s: &mut AppState,
    message: ServerMessage,
    fresh_id: String,
    dir: Option<CacheDir<P>>,
    now: u64,
    action: SseAction<P>,
    id: RequestIdView,
    result: ResultBodyView,
)
    requires
        call_ensures(
            AppState::handle_sse_message::<P>,
            (s, Some(message), fresh_id, dir, now),
            action,
        ),
        message@ == (ServerMessageView::Response { id, result }),
        old(s)@.id_map.contains_key(id.key()),
        old(s)@.state == ProxyStateView::WaitingForServerInitHidden(old(s)@.id_map[id.key()]),
    ensures
        action is CompleteHandshake,
        final(s)@ == (AppStateView {
            id_map: old(s)@.id_map.remove(id.key()),
            state: ProxyStateView::Connected,
            connect_tries: 0,
            disconnected_since: None,
            buf_mode: BufferMode::Store,
            reconnect_scheduled: false,
            transport_valid: true,
            last_heartbeat: now,
            ..old(s)@
        }),
{
}

/// The awaited `initialize` response is sent to the client with the identifier that its
/// request had; the version of the protocol alone is changed, where the proxy is told one.
pub proof fn law_call_shown_response<P>(
    s: &mut AppState,
    message: ServerMessage,
    fresh_id: String,
    dir: Option<CacheDir<P>>,
    now: u64,
    action: SseAction<P>,
    id: RequestIdView,
    r: InitializeResultView,
)
    requires
        call_ensures(
            AppState::handle_sse_message::<P>,
            (s, Some(message), fresh_id, dir, now),
            action,
        ),
        message@ == (ServerMessageView::Response { id, result: ResultBodyView::Initialize(r) }),
        old(s)@.id_map.contains_key(id.key()),
        old(s)@.state == ProxyStateView::WaitingForServerInit(old(s)@.id_map[id.key()]),
    ensures
        action is Forward,
        action->write is None,
        action->message@ == (ServerMessageView::Response {
            id: old(s)@.id_map[id.key()],
            result: ResultBodyView::Initialize(
                InitializeResultView {
                    protocol_version: if old(s)@.override_protocol_version is Some {
                        old(s)@.override_protocol_version->0
                    } else {
                        r.protocol_version
                    },
                    capabilities: r.capabilities,
                    server_info: r.server_info,
                    instructions: r.instructions,
                },
            ),
        }),
        final(s)@ == (AppStateView {
            id_map: old(s)@.id_map.remove(id.key()),
            state: ProxyStateView::WaitingForClientInitialized,
            last_heartbeat: now,
            ..old(s)@
        }),
{
}

/// An awaited response that holds no `initialize` result is sent to the client as the backend
/// gave it, with the identifier that its request had.
pub proof fn law_call_shown_other_response<P>(
    s: &mut AppState,
    message: ServerMessage,
    fresh_id: String,
    dir: Option<CacheDir<P>>,
    now: u64,
    action: SseAction<P>,
    id: RequestIdView,
    result: ResultBodyView,
)
    requires
        call_ensures(
            AppState::handle_sse_message::<P>,
            (s, Some(message), fresh_id, dir, now),
            action,
        ),
        message@ == (ServerMessageView::Response { id, result }),
        !(result is Initialize),
        old(s)@.id_map.contains_key(id.key()),
        old(s)@.state == ProxyStateView::WaitingForServerInit(old(s)@.id_map[id.key()]),
    ensures
        action is Forward,
        action->message@ == (ServerMessageView::Response {
            id: old(s)@.id_map[id.key()],
            result,
        }),
        action->write is Some <==> dir is Some && result is ListTools,
        final(s)@ == (AppStateView {
            id_map: old(s)@.id_map.remove(id.key()),
            state: ProxyStateView::WaitingForClientInitialized,
            last_heartbeat: now,
            tools_cache: if result is ListTools {
                Some(result->ListTools_0)
            } else {
                old(s)@.tools_cache
            },
            ..old(s)@
        }),
{
}

/// Naming another version of the protocol changes that version in an `initialize` result and
/// nothing else of any message.
pub proof fn law_call_overwrite_protocol_version(
    s: AppState,
    message: ServerMessage,
    shown: ServerMessage,
)
    requires
        call_ensures(AppState::maybe_overwrite_protocol_version, (&s, message), shown),
    ensures
        s.override_protocol_version is None ==> shown@ == message@,
        !(message@ is Response && message@->Response_result is Initialize) ==> shown@ == message@,
        message@ matches ServerMessageView::Response { id, result: ResultBodyView::Initialize(r) }
            ==> (s.override_protocol_version matches Some(version) ==> shown@
            == ServerMessageView::Response {
            id,
            result: ResultBodyView::Initialize(
                InitializeResultView {
                    protocol_version: version.text@,
                    capabilities: r.capabilities,
                    server_info: r.server_info,
                    instructions: r.instructions,
                },
            ),
        }),
{
}

/// The tools of a `tools/list` response, whatever they are and however many, are kept, and
/// written wherever there is a directory.
pub proof fn law_call_cache_tools<P>(
    s: &mut AppState,
    message: ServerMessage,
    dir: Option<CacheDir<P>>,
    write: Option<CacheWrite<P>>,
    id: RequestIdView,
    tools: ListToolsView,
)
    requires
        call_ensures(AppState::maybe_cache_tools_result::<P>, (s, &message, dir), write),
        message@ == (ServerMessageView::Response { id, result: ResultBodyView::ListTools(tools) }),
    ensures
        final(s)@ == (AppStateView { tools_cache: Some(tools), ..old(s)@ }),
        write is Some <==> dir is Some,
        write matches Some(w) ==> {
            &&& w.file.dir == dir->0
            &&& w.file.filename@ == crate::cache::cache_filename(old(s).url@)
            &&& crate::outside::bytes_of_tools_result(tools) == match w.bytes {
                Some(b) => Some(b@),
                None => None,
            }
            &&& forall|held: Seq<u8>| #[trigger]
                crate::outside::tools_result_in_bytes(held) == Some(tools) ==> w.bytes is Some
                    && crate::outside::tools_result_in_bytes(w.bytes->0@) == Some(tools)
        },
{
}

/// No other message changes the known tools or writes anything.
pub proof fn law_call_cache_no_tools<P>(
    s: &mut AppState,
    message: ServerMessage,
    dir: Option<CacheDir<P>>,
    write: Option<CacheWrite<P>>,
)
    requires
        call_ensures(AppState::maybe_cache_tools_result::<P>, (s, &message, dir), write),
        !(message@ is Response && message@->Response_result is ListTools),
    ensures
        final(s)@ == old(s)@,
        write is None,
{
}

/// The proxy's own `initialize` response, whatever version it is told to name: under the
/// identifier that it is given, it advertises tools whose list may change and nothing else,
/// and names the proxy.
pub proof fn law_call_local_initialize_response(
    id: RequestId,
    version: Option<ProtocolVersion>,
    proxy_version: &str,
    response: ServerMessage,
)
    requires
        call_ensures(
            crate::state::local_initialize_response,
            (id, &version, proxy_version),
            response,
        ),
    ensures
        response@ is Response,
        response@->Response_id == id@,
        response@->Response_result is Initialize,
        ({
            let result = response@->Response_result->Initialize_0;
            &&& result.capabilities == Capabilities {
                tools: Some(ToolsCapability { list_changed: Some(true) }),
                others: None,
            }
            &&& version matches Some(v) ==> result.protocol_version == v.text@
            &&& version is None ==> result.protocol_version == "2025-03-26"@
            &&& result.server_info.name == "mcp-proxy-cached"@
            &&& result.server_info.version == proxy_version@
            &&& result.server_info.title is None
            &&& result.server_info.icons is None
            &&& result.server_info.website_url is None
            &&& result.instructions == Some(
                "Proxy responding before backend has connected. tools/list is served from disk cache; tool calls buffer until the backend is ready."@,
            )
        }),
{
}

/// Two of the proxy's own `initialize` responses differ in the version of the protocol alone.
pub proof fn law_calls_local_initialize_response_agree(
    id: RequestId,
    a: Option<ProtocolVersion>,
    b: Option<ProtocolVersion>,
    proxy_version: &str,
    x: ServerMessage,
    y: ServerMessage,
)
    requires
        call_ensures(crate::state::local_initialize_response, (id, &a, proxy_version), x),
        call_ensures(crate::state::local_initialize_response, (id, &b, proxy_version), y),
    ensures
        ({
            let r = x@->Response_result->Initialize_0;
            let q = y@->Response_result->Initialize_0;
            &&& r.capabilities == q.capabilities
            &&& r.server_info == q.server_info
            &&& r.instructions == q.instructions
        }),
{
}

/// A message is dealt with without the backend in either offline state and in no other; in
/// another it changes nothing.
pub proof fn law_call_offline(
    s: &mut AppState,
    message: ClientMessage,
    action: Result<OfflineAction, NotOffline>,
)
    requires
        call_ensures(
            AppState::maybe_handle_message_while_disconnected,
            (s, message),
            action,
        ),
    ensures
        action is Ok <==> old(s).state is Connecting || old(s).state is Disconnected,
        action is Err ==> final(s)@ == old(s)@,
{
}

/// Without a backend a request gets its answer under its own identifier, whatever the proxy
/// was told before, or is kept, or is refused under its own identifier.
pub proof fn law_call_offline_request(
    s: &mut AppState,
    message: ClientMessage,
    action: Result<OfflineAction, NotOffline>,
    id: RequestIdView,
    request: RequestBody,
)
    requires
        call_ensures(
            AppState::maybe_handle_message_while_disconnected,
            (s, message),
            action,
        ),
        old(s).state is Connecting || old(s).state is Disconnected,
        message@ == (ClientMessageView::Request { id, request }),
    ensures
        action is Ok,
        request is Ping ==> {
            &&& action->Ok_0@ == OfflineActionView::Reply(
                ServerMessageView::Response { id, result: ResultBodyView::Empty },
            )
            &&& final(s)@ == old(s)@
        },
        request is Initialize ==> {
            &&& action->Ok_0@ matches OfflineActionView::Reply(
                ServerMessageView::Response {
                    id: answered,
                    result: ResultBodyView::Initialize(r),
                },
            )
            &&& answered == id
            &&& r.capabilities.tools == Some(ToolsCapability { list_changed: Some(true) })
            &&& r.capabilities.others is None
            &&& r.server_info.name == "mcp-proxy-cached"@
            &&& r.server_info.version == old(s).proxy_version@
            &&& old(s).override_protocol_version matches Some(v) ==> r.protocol_version == v.text@
            &&& old(s).override_protocol_version is None ==> r.protocol_version == "2025-03-26"@
            &&& final(s)@ == AppStateView {
                init_message: if old(s)@.init_message is Some {
                    old(s)@.init_message
                } else {
                    Some(message@)
                },
                ..old(s)@
            }
        },
        request is ListTools ==> {
            &&& action->Ok_0@ == OfflineActionView::Reply(
                ServerMessageView::Response {
                    id,
                    result: ResultBodyView::ListTools(
                        if old(s)@.tools_cache is Some {
                            old(s)@.tools_cache->0
                        } else {
                            ListToolsView { tools: Seq::empty(), next_cursor: None }
                        },
                    ),
                },
            )
            &&& final(s)@ == old(s)@
        },
        request is Other && old(s).buf_mode == BufferMode::Store ==> {
            &&& action->Ok_0@ == OfflineActionView::Nothing
            &&& final(s)@ == AppStateView { in_buf: old(s)@.in_buf.push(message@), ..old(s)@ }
        },
        request is Other && old(s).buf_mode == BufferMode::Fail ==> {
            &&& action->Ok_0@ == OfflineActionView::ReplyDisconnected(id)
            &&& final(s)@ == old(s)@
        },
{
}

/// Without a backend nothing but a request is answered; while the proxy buffers, all but the
/// notification that the client is initialized is kept.
pub proof fn law_call_offline_other(
    s: &mut AppState,
    message: ClientMessage,
    action: Result<OfflineAction, NotOffline>,
)
    requires
        call_ensures(
            AppState::maybe_handle_message_while_disconnected,
            (s, message),
            action,
        ),
        old(s).state is Connecting || old(s).state is Disconnected,
        !(message is Request),
    ensures
        action is Ok,
        action->Ok_0@ == OfflineActionView::Nothing,
        final(s)@ == (if old(s).buf_mode == BufferMode::Store && !(message@ is Notification
            && message@->notification is Initialized) {
            AppStateView { in_buf: old(s)@.in_buf.push(message@), ..old(s)@ }
        } else {
            old(s)@
        }),
{
}

/// An answer of the client to a request that is not known is dropped in every state, and
/// changes nothing.
pub proof fn law_call_client_stray_answer(
    s: &mut AppState,
    message: ClientMessage,
    now: u64,
    action: ClientAction,
)
    requires
        call_ensures(AppState::process_client_request, (s, message, now), action),
        match message@ {
            ClientMessageView::Response { id, .. } => !old(s)@.id_map.contains_key(id.key()),
            ClientMessageView::Error { id, .. } => !old(s)@.id_map.contains_key(id.key()),
            _ => false,
        },
    ensures
        action is Skip,
        final(s)@ == old(s)@,
{
    let id = match message@ {
        ClientMessageView::Response { id, .. } => id,
        ClientMessageView::Error { id, .. } => id,
        _ => RequestIdView::Number(0),
    };
    assert(old(s)@.id_map.remove(id.key()) =~= old(s)@.id_map);
}

/// An answer of the client to a known request goes to the backend whole, with the identifier
/// that the request had; without a backend it is kept so, while the proxy buffers.
pub proof fn law_call_client_answer(
    s: &mut AppState,
    message: ClientMessage,
    now: u64,
    action: ClientAction,
    id: RequestIdView,
    mapped: ClientMessageView,
)
    requires
        call_ensures(AppState::process_client_request, (s, message, now), action),
        old(s)@.id_map.contains_key(id.key()),
        match message@ {
            ClientMessageView::Response { id: own, result } => own == id && mapped
                == ClientMessageView::Response { id: old(s)@.id_map[id.key()], result },
            ClientMessageView::Error { id: own, error } => own == id && mapped
                == ClientMessageView::Error { id: old(s)@.id_map[id.key()], error },
            _ => false,
        },
    ensures
        ({
            let offline = old(s).state is Connecting || old(s).state is Disconnected;
            let forgotten = AppStateView { id_map: old(s)@.id_map.remove(id.key()), ..old(s)@ };
            &&& !offline ==> {
                &&& action is Send
                &&& action->Send_0@ == mapped
                &&& final(s)@ == forgotten
            }
            &&& offline ==> {
                &&& action is Local
                &&& action->Local_0@ == OfflineActionView::Nothing
                &&& old(s).buf_mode == BufferMode::Store ==> final(s)@ == AppStateView {
                    in_buf: old(s)@.in_buf.push(mapped),
                    ..forgotten
                }
                &&& old(s).buf_mode == BufferMode::Fail ==> final(s)@ == forgotten
            }
        }),
{
}

/// While there is a backend, each request and notification of the client is sent to it as it
/// is. The awaited `initialize` request is kept too, and the awaited notification that the
/// client is initialized connects the proxy; nothing else changes anything.
pub proof fn law_call_client_live(
    s: &mut AppState,
    message: ClientMessage,
    now: u64,
    action: ClientAction,
)
    requires
        call_ensures(AppState::process_client_request, (s, message, now), action),
        !(old(s).state is Connecting),
        !(old(s).state is Disconnected),
        message is Request || message is Notification,
    ensures
        ({
            let starts = old(s).state is WaitingForClientInit && message@ is Request
                && message@->Request_request is Initialize;
            let ends = old(s).state is WaitingForClientInitialized && message@ is Notification
                && message@->notification is Initialized;
            &&& ends ==> {
                &&& action is SendInitialized
                &&& action->SendInitialized_0@ == message@
                &&& final(s)@ == AppStateView {
                    state: ProxyStateView::Connected,
                    connect_tries: 0,
                    disconnected_since: None,
                    buf_mode: BufferMode::Store,
                    reconnect_scheduled: false,
                    transport_valid: true,
                    last_heartbeat: now,
                    ..old(s)@
                }
            }
            &&& !ends ==> action is Send && action->Send_0@ == message@
            &&& starts ==> final(s)@ == AppStateView {
                init_message: Some(message@),
                state: ProxyStateView::WaitingForServerInit(message@->Request_id),
                ..old(s)@
            }
            &&& !starts && !ends ==> final(s)@ == old(s)@
        }),
{
}

/// Without a backend a request of the client is dealt with as [`law_call_offline_request`] has
/// it.
pub proof fn law_call_client_offline_request(
    s: &mut AppState,
    message: ClientMessage,
    now: u64,
    action: ClientAction,
    id: RequestIdView,
    request: RequestBody,
)
    requires
        call_ensures(AppState::process_client_request, (s, message, now), action),
        old(s).state is Connecting || old(s).state is Disconnected,
        message@ == (ClientMessageView::Request { id, request }),
    ensures
        action is Local,
        request is Ping || request is ListTools ==> final(s)@ == old(s)@,
        request is Ping ==> action->Local_0@ == OfflineActionView::Reply(
            ServerMessageView::Response { id, result: ResultBodyView::Empty },
        ),
        request is Initialize ==> {
            &&& action->Local_0@ matches OfflineActionView::Reply(
                ServerMessageView::Response {
                    id: answered,
                    result: ResultBodyView::Initialize(r),
                },
            )
            &&& answered == id
            &&& r.capabilities.tools == Some(ToolsCapability { list_changed: Some(true) })
            &&& r.capabilities.others is None
            &&& r.server_info.name == "mcp-proxy-cached"@
            &&& r.server_info.version == old(s).proxy_version@
            &&& old(s).override_protocol_version matches Some(v) ==> r.protocol_version == v.text@
            &&& old(s).override_protocol_version is None ==> r.protocol_version == "2025-03-26"@
            &&& final(s)@ == AppStateView {
                init_message: if old(s)@.init_message is Some {
                    old(s)@.init_message
                } else {
                    Some(message@)
                },
                ..old(s)@
            }
        },
        request is ListTools && old(s).tools_cache is Some ==> action->Local_0@
            == OfflineActionView::Reply(
            ServerMessageView::Response {
                id,
                result: ResultBodyView::ListTools(old(s)@.tools_cache->0),
            },
        ),
        request is ListTools && old(s).tools_cache is None ==> action->Local_0@
            == OfflineActionView::Reply(
            ServerMessageView::Response {
                id,
                result: ResultBodyView::ListTools(
                    ListToolsView { tools: Seq::empty(), next_cursor: None },
                ),
            },
        ),
        request is Other && old(s).buf_mode == BufferMode::Store ==> {
            &&& action->Local_0@ == OfflineActionView::Nothing
            &&& final(s)@ == AppStateView { in_buf: old(s)@.in_buf.push(message@), ..old(s)@ }
        },
        request is Other && old(s).buf_mode == BufferMode::Fail ==> {
            &&& action->Local_0@ == OfflineActionView::ReplyDisconnected(id)
            &&& final(s)@ == old(s)@
        },
{
}

/// Without a backend a notification of the client is kept while the proxy buffers, unless it
/// says that the client is initialized. Nothing is sent for it.
pub proof fn law_call_client_offline_notification(
    s: &mut AppState,
    message: ClientMessage,
    now: u64,
    action: ClientAction,
    notification: NotificationBody,
)
    requires
        call_ensures(AppState::process_client_request, (s, message, now), action),
        old(s).state is Connecting || old(s).state is Disconnected,
        message@ == (ClientMessageView::Notification { notification }),
    ensures
        action is Local,
        action->Local_0@ == OfflineActionView::Nothing,
        final(s)@ == (if old(s).buf_mode == BufferMode::Store && notification is Other {
            AppStateView { in_buf: old(s)@.in_buf.push(message@), ..old(s)@ }
        } else {
            old(s)@
        }),
{
}

/// A request is passed on whole under the given identifier, under which its own is kept; any
/// other message is passed on as it is, and changes nothing.
pub proof fn law_call_pass_on(
    s: &mut AppState,
    message: ClientMessage,
    proxy_id: String,
    r: (ClientMessage, Option<RequestId>),
)
    requires
        call_ensures(AppState::pass_on, (s, message, proxy_id), r),
    ensures
        message@ matches ClientMessageView::Request { id, request } ==> {
            &&& r.0@ == ClientMessageView::Request { id: RequestIdView::Text(proxy_id@), request }
            &&& r.1 is Some && r.1->0@ == id
            &&& final(s)@ == AppStateView {
                id_map: old(s)@.id_map.insert(proxy_id@, id),
                ..old(s)@
            }
        },
        !(message is Request) ==> r.0@ == message@ && r.1 is None && final(s)@ == old(s)@,
{
}

/// What is buffered is taken out whole and in order, and nothing else changes.
pub proof fn law_call_process_buffered(s: &mut AppState, messages: Vec<ClientMessage>)
    requires
        call_ensures(AppState::process_buffered_messages, (s,), messages),
    ensures
        messages@.len() == old(s)@.in_buf.len(),
        forall|i: int|
            0 <= i < messages@.len() ==> (#[trigger] messages@[i])@ == old(s)@.in_buf[i],
        final(s)@ == (AppStateView { in_buf: Seq::empty(), ..old(s)@ }),
{
    assert forall|i: int| 0 <= i < messages@.len() implies (#[trigger] messages@[i])@ == old(
        s,
    )@.in_buf[i] by {
        assert(messages@.map_values(|message: ClientMessage| message@)[i] == messages@[i]@);
    }
}

/// A flush empties the buffer and refuses from then on. The buffered requests are refused, in
/// order, each under its own identifier; of a buffer of requests alone each one is.
pub proof fn law_call_flush(s: &mut AppState, refused: Vec<RequestId>)
    requires
        call_ensures(AppState::flush_buffer_with_errors, (s,), refused),
    ensures
        final(s)@ == (AppStateView {
            in_buf: Seq::empty(),
            buf_mode: BufferMode::Fail,
            ..old(s)@
        }),
        refused@.map_values(|id: RequestId| id@) == crate::relay::request_ids(old(s)@.in_buf),
        (forall|i: int| 0 <= i < old(s)@.in_buf.len() ==> #[trigger] old(s)@.in_buf[i] is Request)
            ==> {
            &&& refused@.len() == old(s)@.in_buf.len()
            &&& forall|i: int|
                0 <= i < refused@.len() ==> (#[trigger] refused@[i])@ == old(
                    s,
                )@.in_buf[i]->Request_id
        },
{
    let messages = old(s)@.in_buf;
    if forall|i: int| 0 <= i < messages.len() ==> #[trigger] messages[i] is Request {
        crate::laws::relaying::law_requests_are_refused_one_by_one(messages);
        assert forall|i: int| 0 <= i < refused@.len() implies (#[trigger] refused@[i])@
            == messages[i]->Request_id by {
            assert(refused@.map_values(|id: RequestId| id@)[i] == refused@[i]@);
            assert(crate::relay::request_ids(messages)[i] == messages[i]->Request_id);
        }
    }
}

/// An identifier is kept under the one that its request is passed on under.
pub proof fn law_call_remember_id(s: &mut AppState, proxy_id: String, original: RequestId)
    requires
        call_ensures(AppState::remember_id, (s, proxy_id, original), ()),
    ensures
        final(s)@ == (AppStateView {
            id_map: old(s)@.id_map.insert(proxy_id@, original@),
            ..old(s)@
        }),
{
}

/// An identifier that is looked up is found where it is kept, and kept no more.
pub proof fn law_call_lookup(s: &mut AppState, current: RequestId, original: Option<RequestId>)
    requires
        call_ensures(AppState::lookup_and_remove_original_id, (s, &current), original),
    ensures
        original is Some <==> old(s)@.id_map.contains_key(current@.key()),
        original matches Some(id) ==> id@ == old(s)@.id_map[current@.key()],
        final(s)@ == (AppStateView {
            id_map: old(s)@.id_map.remove(current@.key()),
            ..old(s)@
        }),
{
}

/// A message of the client is mapped back whole: an answer to the identifier that its request
/// had, none where it is not known; any other message to itself.
pub proof fn law_call_map_client(
    s: &mut AppState,
    message: ClientMessage,
    mapped: Option<ClientMessage>,
)
    requires
        call_ensures(AppState::map_client_response_error_id, (s, message), mapped),
    ensures
        match message@ {
            ClientMessageView::Response { id, result } => {
                &&& mapped is Some <==> old(s)@.id_map.contains_key(id.key())
                &&& mapped is Some ==> mapped->0@ == ClientMessageView::Response {
                    id: old(s)@.id_map[id.key()],
                    result,
                }
                &&& final(s)@ == AppStateView { id_map: old(s)@.id_map.remove(id.key()), ..old(s)@ }
            },
            ClientMessageView::Error { id, error } => {
                &&& mapped is Some <==> old(s)@.id_map.contains_key(id.key())
                &&& mapped is Some ==> mapped->0@ == ClientMessageView::Error {
                    id: old(s)@.id_map[id.key()],
                    error,
                }
                &&& final(s)@ == AppStateView { id_map: old(s)@.id_map.remove(id.key()), ..old(s)@ }
            },
            _ => mapped is Some && mapped->0@ == message@ && final(s)@ == old(s)@,
        },
{
}

/// A message of the server is mapped back whole: an answer to the identifier that its request
/// had, none where it is not known; any other message to itself.
pub proof fn law_call_map_server(
    s: &mut AppState,
    message: ServerMessage,
    mapped: Option<ServerMessage>,
)
    requires
        call_ensures(AppState::map_server_response_error_id, (s, message), mapped),
    ensures
        match message@ {
            ServerMessageView::Response { id, result } => {
                &&& mapped is Some <==> old(s)@.id_map.contains_key(id.key())
                &&& mapped is Some ==> mapped->0@ == ServerMessageView::Response {
                    id: old(s)@.id_map[id.key()],
                    result,
                }
                &&& final(s)@ == AppStateView { id_map: old(s)@.id_map.remove(id.key()), ..old(s)@ }
            },
            ServerMessageView::Error { id, error } => {
                &&& mapped is Some <==> old(s)@.id_map.contains_key(id.key())
                &&& mapped is Some ==> mapped->0@ == ServerMessageView::Error {
                    id: old(s)@.id_map[id.key()],
                    error,
                }
                &&& final(s)@ == AppStateView { id_map: old(s)@.id_map.remove(id.key()), ..old(s)@ }
            },
            _ => mapped is Some && mapped->0@ == message@ && final(s)@ == old(s)@,
        },
{
}

/// What was read from the client is the message to process; the end of the stream, or what
/// cannot be read, is none.
pub proof fn law_call_stdin<E>(
    s: AppState,
    msg: Option<Result<ClientMessage, E>>,
    message: Option<ClientMessage>,
)
    requires
        call_ensures(AppState::handle_stdin_message::<E>, (&s, msg), message),
    ensures
        message is Some <==> msg is Some && msg->0 is Ok,
        message is Some ==> message->0 == msg->0->Ok_0,
{
}

/// Two identifiers are the same where both are numbers or both texts, of the same value.
pub proof fn law_call_same(a: RequestId, b: RequestId, r: bool)
    requires
        call_ensures(RequestId::same, (&a, &b), r),
    ensures
        r <==> match (a, b) {
            (RequestId::Number(m), RequestId::Number(n)) => m == n,
            (RequestId::Text(t), RequestId::Text(u)) => t@ == u@,
            _ => false,
        },
{
}

} // verus!
