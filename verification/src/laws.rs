//! What holds of the proxy as a whole.
use crate::cache::{CacheDir, CacheFile, CacheWrite};
use crate::message::{
    ClientMessageView, ListToolsView, NotificationBody, RequestBody, RequestIdView,
    ResultBodyView, ServerMessageView,
};
use crate::model::{AppStateView, BackendOutcome, OfflineActionView, ProxyStateView};
use crate::state::{ReconnectFailureReason, Timers};
use vstd::prelude::*;

pub mod backend;
pub mod connection;
pub mod exchanging;
pub mod identifiers;
pub mod offline;
pub mod reconnecting;
pub mod relaying;
pub mod starting;
pub mod startup;
pub mod views;

verus! {

/// The file that is read for a URL at startup is the one that was written for it, and the
/// tools that were written are read back.
pub proof fn law_saved_tools_are_loaded<P>(
    dir: CacheDir<P>,
    url: Seq<char>,
    tools: ListToolsView,
    write: CacheWrite<P>,
    file: CacheFile<P>,
)
    requires
        write.persists(dir, url, tools),
        file.dir == dir,
        file.filename@ == crate::cache::cache_filename(url),
        crate::outside::readable(tools),
    ensures
        file.dir == write.file.dir,
        file.filename@ == write.file.filename@,
        write.bytes is Some,
        crate::cache::loaded(Some(write.bytes->0@)) == Some(tools),
{
}

/// A proxy that is started with what was saved of a URL answers `tools/list` with the
/// saved tools before its backend has come up.
pub proof fn law_next_session_serves_saved_tools<P>(
    dir: CacheDir<P>,
    url: Seq<char>,
    tools: ListToolsView,
    write: CacheWrite<P>,
    s: AppStateView,
    id: RequestIdView,
    body: rmcp::model::ClientRequest,
)
    requires
        write.persists(dir, url, tools),
        crate::outside::readable(tools),
        s.tools_cache == crate::model::startup_choice(
            None,
            crate::cache::loaded(
                match write.bytes {
                    Some(bytes) => Some(bytes@),
                    None => None,
                },
            ),
        ),
    ensures
        s.offline_action(
            ClientMessageView::Request { id, request: RequestBody::ListTools(body) },
        ) == OfflineActionView::Reply(
            ServerMessageView::Response { id, result: ResultBodyView::ListTools(tools) },
        ),
{
}

/// While the proxy is offline each request of the client is answered under its own
/// identifier, buffered behind what is buffered already, or refused under its own
/// identifier; no request is answered or refused and buffered too, and none is lost.
pub proof fn law_offline_request_is_served(s: AppStateView, id: RequestIdView, request: RequestBody)
    ensures
        ({
            let message = ClientMessageView::Request { id, request };
            let next = s.after_offline_message(message);
            match s.offline_action(message) {
                OfflineActionView::Reply(reply) => {
                    &&& reply.answered_id() == Some(id)
                    &&& reply is Response
                    &&& next.in_buf == s.in_buf
                },
                OfflineActionView::ReplyDisconnected(refused) => {
                    &&& refused == id
                    &&& s.buf_mode is Fail
                    &&& request is Other
                    &&& next == s
                },
                OfflineActionView::Nothing => {
                    &&& s.buf_mode is Store
                    &&& request is Other
                    &&& next.in_buf == s.in_buf.push(message)
                },
            }
        }),
{
}

/// `initialize`, `ping` and `tools/list` are answered while the proxy is offline, whether
/// or not it buffers.
pub proof fn law_offline_local_requests_are_answered(
    s: AppStateView,
    id: RequestIdView,
    request: RequestBody,
)
    requires
        !(request is Other),
    ensures
        s.offline_action(ClientMessageView::Request { id, request }) is Reply,
{
}

/// The state after messages that arrived offline, one after the other.
pub open spec fn after_offline_messages(
    s: AppStateView,
    messages: Seq<ClientMessageView>,
) -> AppStateView
    decreases messages.len(),
{
    if messages.len() == 0 {
        s
    } else {
        after_offline_messages(s, messages.drop_last()).after_offline_message(messages.last())
    }
}

/// Of the messages that arrive offline, a buffering proxy keeps exactly those that need
/// the backend, in the order of their arrival.
pub proof fn law_offline_messages_are_buffered_in_order(
    s: AppStateView,
    messages: Seq<ClientMessageView>,
)
    requires
        s.buf_mode is Store,
    ensures
        after_offline_messages(s, messages).in_buf == s.in_buf + messages.filter(
            |m: ClientMessageView| s.needs_backend(m),
        ),
        after_offline_messages(s, messages).buf_mode is Store,
    decreases messages.len(),
{
    let keeps = |m: ClientMessageView| s.needs_backend(m);
    reveal(Seq::filter);
    if messages.len() == 0 {
        assert(s.in_buf + messages.filter(keeps) =~= s.in_buf);
    } else {
        law_offline_messages_are_buffered_in_order(s, messages.drop_last());
        let before = after_offline_messages(s, messages.drop_last());
        let last = messages.last();
        assert(before.needs_backend(last) == s.needs_backend(last));
        if s.needs_backend(last) {
            assert(!last.is_initialize());
            assert(before.in_buf.push(last) =~= s.in_buf + messages.drop_last().filter(keeps).push(
                last,
            ));
        }
    }
}

/// A proxy that does not buffer keeps no message that arrives offline.
pub proof fn law_failing_proxy_buffers_nothing(s: AppStateView, messages: Seq<ClientMessageView>)
    requires
        s.buf_mode is Fail,
    ensures
        after_offline_messages(s, messages).in_buf == s.in_buf,
        after_offline_messages(s, messages).buf_mode is Fail,
    decreases messages.len(),
{
    if messages.len() > 0 {
        law_failing_proxy_buffers_nothing(s, messages.drop_last());
    }
}

/// The `initialize` request that is kept for replay is the first one of the client.
pub proof fn law_first_initialize_is_kept(s: AppStateView, messages: Seq<ClientMessageView>)
    requires
        s.init_message is Some,
    ensures
        after_offline_messages(s, messages).init_message == s.init_message,
    decreases messages.len(),
{
    if messages.len() > 0 {
        law_first_initialize_is_kept(s, messages.drop_last());
    }
}

/// A proxy that has kept no `initialize` request keeps the one that arrives, as it is.
pub proof fn law_initialize_is_kept_for_replay(
    s: AppStateView,
    id: RequestIdView,
    request: RequestBody,
)
    requires
        s.init_message is None,
        request is Initialize,
    ensures
        s.after_offline_message(ClientMessageView::Request { id, request }).init_message == Some(
            ClientMessageView::Request { id, request },
        ),
{
}

/// The tools that the backend listed last are the ones that a client is given once the
/// backend is gone.
pub proof fn law_listed_tools_are_served_offline(
    s: AppStateView,
    message: ServerMessageView,
    fresh_id: Seq<char>,
    now: u64,
    gone: u64,
    id: RequestIdView,
    body: rmcp::model::ClientRequest,
)
    requires
        s.receive(message, fresh_id, now).1 is Forward,
        message.listed_tools() is Some,
    ensures
        s.receive(message, fresh_id, now).0.fatal_transport_error(gone).offline_action(
            ClientMessageView::Request { id, request: RequestBody::ListTools(body) },
        ) == OfflineActionView::Reply(
            ServerMessageView::Response {
                id,
                result: ResultBodyView::ListTools(message.listed_tools()->0),
            },
        ),
{
}

/// Without known tools a client is given an empty list.
pub proof fn law_no_tools_are_served_as_an_empty_list(
    s: AppStateView,
    id: RequestIdView,
    body: rmcp::model::ClientRequest,
)
    requires
        s.tools_cache is None,
    ensures
        s.offline_action(
            ClientMessageView::Request { id, request: RequestBody::ListTools(body) },
        ) == OfflineActionView::Reply(
            ServerMessageView::Response {
                id,
                result: ResultBodyView::ListTools(
                    ListToolsView { tools: Seq::empty(), next_cursor: None },
                ),
            },
        ),
{
}

/// Whether two states hold the same messages, tools and identifiers for the same backend.
pub open spec fn same_holdings(a: AppStateView, b: AppStateView) -> bool {
    &&& a.url == b.url
    &&& a.in_buf == b.in_buf
    &&& a.init_message == b.init_message
    &&& a.tools_cache == b.tools_cache
    &&& a.id_map == b.id_map
}

/// What happens to the connection leaves alone what client and backend have entrusted to
/// the proxy: buffered messages, the `initialize` request, known tools and identifiers.
pub proof fn law_connection_keeps_holdings(
    s: AppStateView,
    outcome: Result<(), ReconnectFailureReason>,
    now: u64,
)
    ensures
        same_holdings(s.connected(now), s),
        same_holdings(s.disconnected(now), s),
        same_holdings(s.fatal_transport_error(now), s),
        same_holdings(s.schedule_reconnect(), s),
        same_holdings(s.schedule_flush_timer(), s),
        same_holdings(s.update_heartbeat(now), s),
        same_holdings(s.after_reconnect(outcome, now), s),
{
}

/// A message of the backend changes neither what is buffered for it nor the `initialize`
/// request that is kept for replay.
pub proof fn law_backend_message_keeps_buffer(
    s: AppStateView,
    message: ServerMessageView,
    fresh_id: Seq<char>,
    now: u64,
)
    ensures
        s.receive(message, fresh_id, now).0.in_buf == s.in_buf,
        s.receive(message, fresh_id, now).0.init_message == s.init_message,
{
}

/// A request of the server goes to the client under the fresh identifier, and the
/// client's answer goes back under the identifier of the request. The proxy then knows
/// the fresh identifier no more, so a second answer is dropped.
pub proof fn law_server_request_is_answered_once(
    s: AppStateView,
    id: RequestIdView,
    request: rmcp::model::ServerRequest,
    fresh_id: Seq<char>,
    now: u64,
    answer: ClientMessageView,
)
    requires
        answer.answered_id() == Some(RequestIdView::Text(fresh_id)),
    ensures
        ({
            let (asked, outcome) = s.receive(
                ServerMessageView::Request { id, request },
                fresh_id,
                now,
            );
            let answered = asked.after_client_mapping(answer);
            &&& outcome == BackendOutcome::Forward(
                ServerMessageView::Request { id: RequestIdView::Text(fresh_id), request },
            )
            &&& asked.mapped_client_message(answer) == Some(answer.with_id(id))
            &&& answered.id_map == s.id_map.remove(fresh_id)
            &&& answered.mapped_client_message(answer) is None
        }),
{
    let asked = s.receive(ServerMessageView::Request { id, request }, fresh_id, now).0;
    assert(asked.after_client_mapping(answer).id_map =~= s.id_map.remove(fresh_id));
}

/// A request that was passed on under an identifier is answered under its own one, once,
/// and the answer changes nothing for requests passed on under other identifiers.
pub proof fn law_passed_on_request_is_answered_once(
    s: AppStateView,
    proxy_id: Seq<char>,
    original: RequestIdView,
    answer: ServerMessageView,
)
    requires
        answer.answered_id() matches Some(id) && id.key() == proxy_id,
    ensures
        ({
            let asked = s.remember_id(proxy_id, original);
            let answered = asked.after_server_mapping(answer);
            &&& asked.mapped_server_message(answer) == Some(answer.with_id(original))
            &&& answered.id_map == s.id_map.remove(proxy_id)
            &&& answered.mapped_server_message(answer) is None
            &&& forall|other: RequestIdView|
                other.key() != proxy_id ==> #[trigger] answered.original_id(other)
                    == s.original_id(other)
        }),
{
    let asked = s.remember_id(proxy_id, original);
    assert(asked.after_server_mapping(answer).id_map =~= s.id_map.remove(proxy_id));
}

/// An answer to no known request is never passed on, in either direction, and changes no
/// mapping.
pub proof fn law_unknown_answer_is_dropped(
    s: AppStateView,
    id: RequestIdView,
    from_server: ServerMessageView,
    from_client: ClientMessageView,
    fresh_id: Seq<char>,
    now: u64,
)
    requires
        !s.id_map.contains_key(id.key()),
        from_server.answered_id() == Some(id),
        from_client.answered_id() == Some(id),
    ensures
        s.receive(from_server, fresh_id, now) == (s.update_heartbeat(now), BackendOutcome::Skip),
        s.mapped_client_message(from_client) is None,
        s.after_client_mapping(from_client) == s,
{
    assert(s.id_map.remove(id.key()) =~= s.id_map);
}

/// A notification of the server reaches the client as it is.
pub proof fn law_server_notification_is_forwarded(
    s: AppStateView,
    notification: rmcp::model::ServerNotification,
    fresh_id: Seq<char>,
    now: u64,
)
    ensures
        s.receive(ServerMessageView::Notification { notification }, fresh_id, now) == (
            s.update_heartbeat(now),
            BackendOutcome::Forward(ServerMessageView::Notification { notification }),
        ),
{
}

/// The response to a replayed `initialize` request is never shown to the client: it
/// connects the proxy. Its errors do not.
pub proof fn law_hidden_handshake_is_hidden(
    s: AppStateView,
    message: ServerMessageView,
    fresh_id: Seq<char>,
    now: u64,
)
    requires
        s.state matches ProxyStateView::WaitingForServerInitHidden(init_id)
            && s.mapped_server_message(message) matches Some(mapped) && mapped.answered_id()
            == Some(init_id),
    ensures
        message is Response ==> {
            let (next, outcome) = s.receive(message, fresh_id, now);
            &&& outcome is CompleteHandshake
            &&& next.state is Connected
            &&& next.in_buf == s.in_buf
        },
        message is Error ==> {
            let (next, outcome) = s.receive(message, fresh_id, now);
            &&& outcome == BackendOutcome::Forward(s.mapped_server_message(message)->0)
            &&& next.state == s.state
        },
{
}

/// The response to the client's own `initialize` request is shown to it, under its own
/// identifier, with the protocol version that the proxy is told to name.
pub proof fn law_client_handshake_is_shown(
    s: AppStateView,
    id: RequestIdView,
    result: ResultBodyView,
    fresh_id: Seq<char>,
    now: u64,
)
    requires
        s.state matches ProxyStateView::WaitingForServerInit(init_id) && s.original_id(id) == Some(
            init_id,
        ),
        result is Initialize,
    ensures
        ({
            let init_id = s.state->WaitingForServerInit_0;
            let (next, outcome) = s.receive(
                ServerMessageView::Response { id, result },
                fresh_id,
                now,
            );
            &&& next.state is WaitingForClientInitialized
            &&& outcome matches BackendOutcome::Forward(
                ServerMessageView::Response { id: shown_id, result: shown },
            )
            &&& shown_id == init_id
            &&& shown is Initialize
            &&& shown->Initialize_0.protocol_version == (match s.override_protocol_version {
                Some(version) => version,
                None => result->Initialize_0.protocol_version,
            })
            &&& shown->Initialize_0.capabilities == result->Initialize_0.capabilities
            &&& shown->Initialize_0.server_info == result->Initialize_0.server_info
            &&& shown->Initialize_0.instructions == result->Initialize_0.instructions
        }),
{
}

/// The delay before a try doubles with each try, from one second up to eight, and stays
/// there.
pub proof fn law_backoff_doubles(s: AppStateView)
    ensures
        s.connect_tries == 0 ==> s.backoff_secs() == 1,
        s.connect_tries == 1 ==> s.backoff_secs() == 2,
        s.connect_tries == 2 ==> s.backoff_secs() == 4,
        s.connect_tries >= 3 ==> s.backoff_secs() == 8,
        1 <= s.backoff_secs() <= 8,
{
    vstd::arithmetic::power2::lemma2_to64();
}

/// More tries never shorten the delay.
pub proof fn law_backoff_grows(a: AppStateView, b: AppStateView)
    requires
        a.connect_tries <= b.connect_tries,
    ensures
        a.backoff_secs() <= b.backoff_secs(),
{
    law_backoff_doubles(a);
    law_backoff_doubles(b);
}

/// At most one reconnect is scheduled and one flush timer runs at a time: asking again
/// starts nothing and changes nothing.
pub proof fn law_timers_run_once(s: AppStateView)
    ensures
        s.schedule_reconnect().reconnect_delay() is None,
        s.schedule_reconnect().schedule_reconnect() == s.schedule_reconnect(),
        s.schedule_flush_timer().flush_delay() is None,
        s.schedule_flush_timer().schedule_flush_timer() == s.schedule_flush_timer(),
{
}

/// A transport error that follows another one starts nothing and changes nothing, so the
/// proxy knows since when it has been disconnected.
pub proof fn law_transport_error_is_handled_once(s: AppStateView, first: u64, second: u64)
    ensures
        s.fatal_transport_error(first).fatal_transport_error(second) == s.fatal_transport_error(
            first,
        ),
        s.fatal_transport_error(first).fatal_timers(second) == (Timers {
            flush_in: None,
            reconnect_in: None,
        }),
        !(s.state is Disconnected) ==> s.fatal_transport_error(first).disconnected_since == Some(
            first,
        ),
{
}

/// Without a limit a proxy is never disconnected for too long.
pub proof fn law_no_limit_is_infinite(s: AppStateView, now: u64)
    requires
        s.max_disconnected_time is None,
    ensures
        !s.disconnected_too_long(now),
{
}

/// Time alone never ends a disconnection that has lasted too long; a connection does.
pub proof fn law_too_long_lasts_until_connected(s: AppStateView, now: u64, later: u64)
    requires
        now <= later,
    ensures
        s.disconnected_too_long(now) ==> s.disconnected_too_long(later),
        !s.connected(now).disconnected_too_long(later),
{
    if s.disconnected_too_long(now) {
        let since = s.disconnected_since->0;
        assert((now - since) / 1_000_000_000 <= (later - since) / 1_000_000_000);
    }
}

/// Naming another protocol version changes no message but the response to an
/// `initialize` request, and doing so twice is doing so once.
pub proof fn law_version_override_is_limited(s: AppStateView, message: ServerMessageView)
    ensures
        s.with_overridden_version(s.with_overridden_version(message)) == s.with_overridden_version(
            message,
        ),
        s.override_protocol_version is None ==> s.with_overridden_version(message) == message,
        !(message matches ServerMessageView::Response { result: ResultBodyView::Initialize(_), .. })
            ==> s.with_overridden_version(message) == message,
        s.with_overridden_version(message).answered_id() == message.answered_id(),
{
}

/// Tools given inline take precedence over those of the cache file, which are taken where
/// none are given.
pub proof fn law_inline_tools_take_precedence(
    inline: Option<ListToolsView>,
    cached: Option<ListToolsView>,
)
    ensures
        inline is Some ==> crate::model::startup_choice(inline, cached) == inline,
        inline is None ==> crate::model::startup_choice(inline, cached) == cached,
{
}

/// A proxy that has given up what it buffered refuses each further request that it cannot
/// answer by itself.
pub proof fn law_flushed_proxy_refuses(
    s: AppStateView,
    id: RequestIdView,
    body: rmcp::model::ClientRequest,
)
    ensures
        s.flushed().offline_action(
            ClientMessageView::Request { id, request: RequestBody::Other(body) },
        ) == OfflineActionView::ReplyDisconnected(id),
{
}

/// A reconnected backend that answers the replay of the client's `initialize` request
/// connects the proxy, without a message to the client. What was buffered is then sent to
/// it as it was.
pub proof fn law_replay_reconnects(
    s: AppStateView,
    proxy_id: Seq<char>,
    result: ResultBodyView,
    fresh_id: Seq<char>,
    now: u64,
)
    requires
        s.replayed_id() is Some,
    ensures
        ({
            let asked = s.handshake_started().remember_id(proxy_id, s.replayed_id()->0);
            let (next, outcome) = asked.receive(
                ServerMessageView::Response { id: RequestIdView::Text(proxy_id), result },
                fresh_id,
                now,
            );
            &&& outcome is CompleteHandshake
            &&& next.state is Connected
            &&& next.in_buf == s.in_buf
            &&& next.id_map == s.id_map.remove(proxy_id)
        }),
{
    let asked = s.handshake_started().remember_id(proxy_id, s.replayed_id()->0);
    assert(asked.id_map.remove(proxy_id) =~= s.id_map.remove(proxy_id));
}

/// The client's own handshake: its `initialize` request is kept, the response to it is
/// shown under its own identifier, and its notification that it is initialized connects
/// the proxy.
pub proof fn law_client_handshake_connects(
    s: AppStateView,
    id: RequestIdView,
    body: rmcp::model::ClientRequest,
    proxy_id: Seq<char>,
    result: ResultBodyView,
    done: rmcp::model::ClientNotification,
    fresh_id: Seq<char>,
    now: u64,
)
    requires
        s.state is WaitingForClientInit,
    ensures
        ({
            let request = ClientMessageView::Request { id, request: RequestBody::Initialize(body) };
            let asked = s.after_live_message(request, now).remember_id(proxy_id, id);
            let (answered, outcome) = asked.receive(
                ServerMessageView::Response { id: RequestIdView::Text(proxy_id), result },
                fresh_id,
                now,
            );
            let notification = ClientMessageView::Notification {
                notification: NotificationBody::Initialized(done),
            };
            &&& asked.init_message == Some(request)
            &&& outcome matches BackendOutcome::Forward(shown) && shown.answered_id() == Some(id)
            &&& answered.ends_client_handshake(notification)
            &&& answered.after_live_message(notification, now).state is Connected
        }),
{
}

/// A proxy that reconnects is as if it had never lost the backend, but for a flush timer
/// that may still run.
pub proof fn law_reconnection_restores(s: AppStateView, gone: u64, now: u64)
    ensures
        s.fatal_transport_error(gone).connected(now) == (AppStateView {
            flush_timer_active: s.fatal_transport_error(gone).flush_timer_active,
            ..s.connected(now)
        }),
{
}

} // verus!
