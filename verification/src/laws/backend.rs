//! What becomes of the messages of the backend.
use crate::cache::{CacheDir, CacheWrite};
use crate::message::{
    ClientMessageView, InitializeResultView, ListToolsView, RequestIdView, ResultBodyView,
    ServerMessageView,
};
use crate::model::{AppStateView, BackendOutcome, ProxyStateView};
use crate::state::{BufferMode, SseAction};
use vstd::prelude::*;

verus! {

/// The awaited response is a response with the identifier that is waited for, whatever it
/// holds; no error, request or notification is.
pub proof fn law_awaited_response(s: AppStateView, message: ServerMessageView)
    ensures
        s.is_init_response(message) <==> message is Response && {
            ||| s.state == ProxyStateView::WaitingForServerInit(message->Response_id)
            ||| s.state == ProxyStateView::WaitingForServerInitHidden(message->Response_id)
        },
{
}

/// A response to a request that was passed on reaches the client under the identifier that
/// the request had, with the result that the backend gave, whatever it is. The request is
/// then known no more; tools in the response are kept; and nothing else changes.
pub proof fn law_response_is_forwarded_whole(
    s: AppStateView,
    id: RequestIdView,
    result: ResultBodyView,
    fresh_id: Seq<char>,
    now: u64,
)
    requires
        s.id_map.contains_key(id.key()),
        s.state != ProxyStateView::WaitingForServerInit(s.id_map[id.key()]),
        s.state != ProxyStateView::WaitingForServerInitHidden(s.id_map[id.key()]),
    ensures
        ({
            let message = ServerMessageView::Response { id, result };
            let original = s.id_map[id.key()];
            let (next, outcome) = s.receive(message, fresh_id, now);
            &&& outcome == BackendOutcome::Forward(
                ServerMessageView::Response { id: original, result },
            )
            &&& result matches ResultBodyView::Other(body) ==> outcome == BackendOutcome::Forward(
                ServerMessageView::Response { id: original, result: ResultBodyView::Other(body) },
            )
            &&& result matches ResultBodyView::ListTools(tools) ==> next.tools_cache == Some(tools)
            &&& !(result is ListTools) ==> next.tools_cache == s.tools_cache
            &&& next == AppStateView {
                id_map: s.id_map.remove(id.key()),
                last_heartbeat: now,
                tools_cache: next.tools_cache,
                ..s
            }
        }),
{
}

/// An error in answer to a request that was passed on reaches the client in every state,
/// under the identifier that the request had, as the backend gave it. The request is then
/// known no more, and nothing else changes.
pub proof fn law_error_is_forwarded_whole(
    s: AppStateView,
    id: RequestIdView,
    error: rmcp::model::ErrorData,
    fresh_id: Seq<char>,
    now: u64,
)
    requires
        s.id_map.contains_key(id.key()),
    ensures
        ({
            let (next, outcome) = s.receive(
                ServerMessageView::Error { id, error },
                fresh_id,
                now,
            );
            &&& outcome == BackendOutcome::Forward(
                ServerMessageView::Error { id: s.id_map[id.key()], error },
            )
            &&& next == AppStateView {
                id_map: s.id_map.remove(id.key()),
                last_heartbeat: now,
                ..s
            }
        }),
{
}

/// An answer to no request that was passed on does not reach the client, whatever it holds
/// and in whatever state it comes; it is but a sign of life.
pub proof fn law_stray_answer_does_nothing(
    s: AppStateView,
    id: RequestIdView,
    result: ResultBodyView,
    error: rmcp::model::ErrorData,
    fresh_id: Seq<char>,
    now: u64,
)
    requires
        !s.id_map.contains_key(id.key()),
    ensures
        ({
            let (next, outcome) = s.receive(
                ServerMessageView::Response { id, result },
                fresh_id,
                now,
            );
            &&& outcome == BackendOutcome::Skip
            &&& next == AppStateView { last_heartbeat: now, ..s }
        }),
        ({
            let (next, outcome) = s.receive(
                ServerMessageView::Error { id, error },
                fresh_id,
                now,
            );
            &&& outcome == BackendOutcome::Skip
            &&& next == AppStateView { last_heartbeat: now, ..s }
        }),
{
    assert(s.id_map.remove(id.key()) =~= s.id_map);
}

/// A request of the backend reaches the client in every state, whole, under the fresh
/// identifier, and its own identifier is kept under that one. Nothing else changes.
pub proof fn law_request_is_forwarded_whole(
    s: AppStateView,
    id: RequestIdView,
    request: rmcp::model::ServerRequest,
    fresh_id: Seq<char>,
    now: u64,
)
    ensures
        ({
            let (next, outcome) = s.receive(
                ServerMessageView::Request { id, request },
                fresh_id,
                now,
            );
            &&& outcome == BackendOutcome::Forward(
                ServerMessageView::Request { id: RequestIdView::Text(fresh_id), request },
            )
            &&& next == AppStateView {
                id_map: s.id_map.insert(fresh_id, id),
                last_heartbeat: now,
                ..s
            }
        }),
{
}

/// A notification of the backend reaches the client in every state, as it is; it is a sign of
/// life and changes nothing else.
pub proof fn law_notification_is_forwarded_whole(
    s: AppStateView,
    notification: rmcp::model::ServerNotification,
    fresh_id: Seq<char>,
    now: u64,
)
    ensures
        ({
            let message = ServerMessageView::Notification { notification };
            let (next, outcome) = s.receive(message, fresh_id, now);
            &&& outcome == BackendOutcome::Forward(message)
            &&& next == AppStateView { last_heartbeat: now, ..s }
        }),
{
}

/// The response to a replayed `initialize` request, whatever it holds, is not shown: it
/// connects the proxy, which no longer knows the request and is otherwise as it was.
pub proof fn law_hidden_response_connects(
    s: AppStateView,
    id: RequestIdView,
    result: ResultBodyView,
    fresh_id: Seq<char>,
    now: u64,
)
    requires
        s.id_map.contains_key(id.key()),
        s.state == ProxyStateView::WaitingForServerInitHidden(s.id_map[id.key()]),
    ensures
        ({
            let (next, outcome) = s.receive(
                ServerMessageView::Response { id, result },
                fresh_id,
                now,
            );
            &&& outcome == BackendOutcome::CompleteHandshake
            &&& next == AppStateView {
                id_map: s.id_map.remove(id.key()),
                state: ProxyStateView::Connected,
                connect_tries: 0,
                disconnected_since: None,
                buf_mode: BufferMode::Store,
                reconnect_scheduled: false,
                transport_valid: true,
                last_heartbeat: now,
                ..s
            }
        }),
{
}

/// The response to the client's own `initialize` request is shown under the identifier that
/// the request had. Of an `initialize` result the version of the protocol alone is changed,
/// and only where the proxy is told one; any other result is shown as it is. The proxy then
/// waits for the client.
pub proof fn law_shown_response_is_whole(
    s: AppStateView,
    id: RequestIdView,
    result: ResultBodyView,
    fresh_id: Seq<char>,
    now: u64,
)
    requires
        s.id_map.contains_key(id.key()),
        s.state == ProxyStateView::WaitingForServerInit(s.id_map[id.key()]),
    ensures
        ({
            let original = s.id_map[id.key()];
            let (next, outcome) = s.receive(
                ServerMessageView::Response { id, result },
                fresh_id,
                now,
            );
            &&& s.override_protocol_version is None || !(result is Initialize) ==> outcome
                == BackendOutcome::Forward(ServerMessageView::Response { id: original, result })
            &&& result matches ResultBodyView::Initialize(r) ==> (
            s.override_protocol_version matches Some(version) ==> outcome
                == BackendOutcome::Forward(
                ServerMessageView::Response {
                    id: original,
                    result: ResultBodyView::Initialize(
                        InitializeResultView {
                            protocol_version: version,
                            capabilities: r.capabilities,
                            server_info: r.server_info,
                            instructions: r.instructions,
                        },
                    ),
                },
            ))
            &&& result matches ResultBodyView::ListTools(tools) ==> next.tools_cache == Some(tools)
            &&& !(result is ListTools) ==> next.tools_cache == s.tools_cache
            &&& next == AppStateView {
                id_map: s.id_map.remove(id.key()),
                state: ProxyStateView::WaitingForClientInitialized,
                last_heartbeat: now,
                tools_cache: next.tools_cache,
                ..s
            }
        }),
{
}

/// Naming another version of the protocol changes that version in an `initialize` result, and
/// changes no other part of it and no other message.
pub proof fn law_version_alone_is_overridden(
    s: AppStateView,
    id: RequestIdView,
    r: InitializeResultView,
    other: ServerMessageView,
)
    requires
        !(other is Response && other->Response_result is Initialize),
    ensures
        ({
            let message = ServerMessageView::Response { id, result: ResultBodyView::Initialize(r) };
            let shown = s.with_overridden_version(message);
            &&& s.override_protocol_version is None ==> shown == message
            &&& s.override_protocol_version matches Some(version) ==> shown
                == ServerMessageView::Response {
                id,
                result: ResultBodyView::Initialize(
                    InitializeResultView {
                        protocol_version: version,
                        capabilities: r.capabilities,
                        server_info: r.server_info,
                        instructions: r.instructions,
                    },
                ),
            }
        }),
        s.with_overridden_version(other) == other,
        forall|version: Seq<char>| #[trigger] other.with_protocol_version(version) == other,
{
}

/// A `tools/list` response of whatever tools, in whatever number and on whatever page, lists
/// those tools; they are kept in place of what was known before, and nothing else changes.
pub proof fn law_all_listed_tools_are_kept(
    s: AppStateView,
    id: RequestIdView,
    tools: ListToolsView,
)
    ensures
        ({
            let message = ServerMessageView::Response {
                id,
                result: ResultBodyView::ListTools(tools),
            };
            &&& message.listed_tools() == Some(tools)
            &&& s.cache_tools(message) == AppStateView { tools_cache: Some(tools), ..s }
        }),
{
}

/// No message but a `tools/list` response lists tools or changes those that are known.
pub proof fn law_other_messages_list_no_tools(s: AppStateView, message: ServerMessageView)
    requires
        !(message is Response && message->Response_result is ListTools),
    ensures
        message.listed_tools() is None,
        s.cache_tools(message) == s,
{
}

/// What is written for a `tools/list` response, whatever tools it lists, is those tools: it is
/// written wherever there is a directory, to the file of the URL in it, and reading the file
/// gives those tools back where any file could hold them.
pub proof fn law_all_listed_tools_are_written<P>(
    write: Option<CacheWrite<P>>,
    dir: CacheDir<P>,
    url: Seq<char>,
    id: RequestIdView,
    tools: ListToolsView,
    bytes: Seq<u8>,
)
    requires
        crate::cache::is_write_of(
            write,
            Some(dir),
            url,
            ServerMessageView::Response {
                id,
                result: ResultBodyView::ListTools(tools),
            }.listed_tools(),
        ),
    ensures
        write is Some,
        write->0.file.dir == dir,
        write->0.file.filename@.len() == url.len() + 11,
        write->0.bytes is None ==> crate::outside::bytes_of_tools_result(tools) is None,
        write->0.bytes matches Some(b) ==> crate::outside::bytes_of_tools_result(tools) == Some(
            b@,
        ),
        crate::outside::tools_result_in_bytes(bytes) == Some(tools) ==> write->0.bytes is Some
            && crate::outside::tools_result_in_bytes(write->0.bytes->0@) == Some(tools),
{
    reveal_strlit(".tools.json");
}

/// Nothing is written without a directory, nor for a message that lists no tools.
pub proof fn law_nothing_else_is_written<P>(
    write: Option<CacheWrite<P>>,
    dir: Option<CacheDir<P>>,
    url: Seq<char>,
    message: ServerMessageView,
)
    requires
        dir is None || !(message is Response && message->Response_result is ListTools),
        crate::cache::is_write_of(write, dir, url, message.listed_tools()),
    ensures
        write is None,
{
}

/// What is done after a message of the backend is what the message leads to: the message that
/// is sent is the one to forward, its tools are written wherever there is a directory, and
/// nothing is sent or written otherwise.
pub proof fn law_outcome_is_carried_out<P>(
    action: SseAction<P>,
    outcome: BackendOutcome,
    dir: Option<CacheDir<P>>,
    url: Seq<char>,
)
    requires
        action.carries_out(outcome, dir, url),
    ensures
        outcome is Skip ==> action is Skip,
        outcome is CompleteHandshake ==> action is CompleteHandshake,
        outcome matches BackendOutcome::Forward(sent) ==> {
            &&& action matches SseAction::Forward { message, write }
            &&& message@ == sent
            &&& dir is None ==> write is None
            &&& !(sent is Response && sent->Response_result is ListTools) ==> write is None
            &&& dir is Some && sent is Response ==> (
            sent->Response_result matches ResultBodyView::ListTools(tools) ==> {
                &&& write is Some
                &&& write->0.file.dir == dir->0
                &&& crate::outside::bytes_of_tools_result(tools) == match write->0.bytes {
                    Some(b) => Some(b@),
                    None => None,
                }
            })
        },
{
}

/// Passing on a request keeps its identifier, of whatever kind, under the one that it is
/// passed on under, in place of what was kept there, and changes nothing else.
pub proof fn law_identifier_is_kept(s: AppStateView, proxy_id: Seq<char>, original: RequestIdView)
    ensures
        s.remember_id(proxy_id, original).id_map == s.id_map.insert(proxy_id, original),
        s.remember_id(proxy_id, original) == (AppStateView {
            id_map: s.id_map.insert(proxy_id, original),
            ..s
        }),
        s.remember_id(proxy_id, original).original_id(RequestIdView::Text(proxy_id)) == Some(
            original,
        ),
{
}

/// An identifier is looked up under its text, and forgotten under that text alone.
pub proof fn law_identifier_is_looked_up(s: AppStateView, current: RequestIdView)
    ensures
        s.id_map.contains_key(current.key()) ==> s.original_id(current) == Some(
            s.id_map[current.key()],
        ),
        !s.id_map.contains_key(current.key()) ==> s.original_id(current) is None,
        s.forget_id(current) == (AppStateView { id_map: s.id_map.remove(current.key()), ..s }),
{
}

/// An answer of either side to a request that is known goes on whole, under the identifier
/// that the request had; the request is then known no more, and nothing else changes.
pub proof fn law_known_answer_goes_on_whole(
    s: AppStateView,
    id: RequestIdView,
    from_client: rmcp::model::ClientResult,
    from_server: ResultBodyView,
    error: rmcp::model::ErrorData,
)
    requires
        s.id_map.contains_key(id.key()),
    ensures
        ({
            let original = s.id_map[id.key()];
            let next = AppStateView { id_map: s.id_map.remove(id.key()), ..s };
            let response = ClientMessageView::Response { id, result: from_client };
            let failure = ClientMessageView::Error { id, error };
            let server_response = ServerMessageView::Response { id, result: from_server };
            let server_failure = ServerMessageView::Error { id, error };
            &&& s.mapped_client_message(response) == Some(
                ClientMessageView::Response { id: original, result: from_client },
            )
            &&& s.after_client_mapping(response) == next
            &&& s.mapped_client_message(failure) == Some(
                ClientMessageView::Error { id: original, error },
            )
            &&& s.after_client_mapping(failure) == next
            &&& s.mapped_server_message(server_response) == Some(
                ServerMessageView::Response { id: original, result: from_server },
            )
            &&& s.after_server_mapping(server_response) == next
            &&& s.mapped_server_message(server_failure) == Some(
                ServerMessageView::Error { id: original, error },
            )
            &&& s.after_server_mapping(server_failure) == next
        }),
{
}

/// An answer of either side to a request that is not known goes nowhere, and changes nothing.
pub proof fn law_stray_answer_goes_nowhere(
    s: AppStateView,
    id: RequestIdView,
    from_client: rmcp::model::ClientResult,
    from_server: ResultBodyView,
    error: rmcp::model::ErrorData,
)
    requires
        !s.id_map.contains_key(id.key()),
    ensures
        ({
            let response = ClientMessageView::Response { id, result: from_client };
            let failure = ClientMessageView::Error { id, error };
            let server_response = ServerMessageView::Response { id, result: from_server };
            let server_failure = ServerMessageView::Error { id, error };
            &&& s.mapped_client_message(response) is None
            &&& s.after_client_mapping(response) == s
            &&& s.mapped_client_message(failure) is None
            &&& s.after_client_mapping(failure) == s
            &&& s.mapped_server_message(server_response) is None
            &&& s.after_server_mapping(server_response) == s
            &&& s.mapped_server_message(server_failure) is None
            &&& s.after_server_mapping(server_failure) == s
        }),
{
    assert(s.id_map.remove(id.key()) =~= s.id_map);
}

/// Requests and notifications of either side are mapped to themselves, and change nothing.
pub proof fn law_no_answer_is_mapped(
    s: AppStateView,
    from_client: ClientMessageView,
    from_server: ServerMessageView,
)
    requires
        from_client is Request || from_client is Notification,
        from_server is Request || from_server is Notification,
    ensures
        s.mapped_client_message(from_client) == Some(from_client),
        s.after_client_mapping(from_client) == s,
        s.mapped_server_message(from_server) == Some(from_server),
        s.after_server_mapping(from_server) == s,
{
}

} // verus!
