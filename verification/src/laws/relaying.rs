//! What becomes of the client's messages while there is a backend, and of what was kept for
//! it.
use crate::message::{ClientMessageView, NotificationBody, RequestBody, RequestIdView};
use crate::model::{AppStateView, ProxyStateView};
use crate::state::BufferMode;
use vstd::prelude::*;

verus! {

/// An `initialize` request that is kept is replayed whatever its identifier, a number or a
/// text: the proxy then waits for the response to that identifier, and changes nothing else.
pub proof fn law_every_initialize_is_replayed(
    s: AppStateView,
    id: RequestIdView,
    body: rmcp::model::ClientRequest,
)
    requires
        s.init_message == Some(
            ClientMessageView::Request { id, request: RequestBody::Initialize(body) },
        ),
    ensures
        s.replayed_id() == Some(id),
        s.handshake_started() == (AppStateView {
            state: ProxyStateView::WaitingForServerInitHidden(id),
            ..s
        }),
{
}

/// A replay is started exactly where an `initialize` request is kept; where none is, nothing
/// changes.
pub proof fn law_replay_needs_an_initialize(s: AppStateView)
    ensures
        s.wf() ==> (s.replayed_id() is Some <==> s.init_message is Some),
        s.init_message is None ==> s.replayed_id() is None,
        s.init_message matches Some(message) ==> (s.replayed_id() is Some <==> message is Request
            && message->Request_request is Initialize),
        s.replayed_id() is None ==> s.handshake_started() == s,
        s.replayed_id() matches Some(id) ==> s.handshake_started().state
            == ProxyStateView::WaitingForServerInitHidden(id),
{
}

/// A proxy that kept an `initialize` request while it was offline replays that very request
/// once it has a transport again, and waits for the response to it.
pub proof fn law_offline_initialize_is_replayed(
    s: AppStateView,
    id: RequestIdView,
    body: rmcp::model::ClientRequest,
    now: u64,
)
    requires
        s.init_message is None,
    ensures
        ({
            let request = ClientMessageView::Request { id, request: RequestBody::Initialize(body) };
            let next = s.after_offline_message(request).after_reconnect(Ok(()), now);
            &&& next.init_message == Some(request)
            &&& next.replayed_id() == Some(id)
            &&& next.handshake_started().state == ProxyStateView::WaitingForServerInitHidden(id)
            &&& next.handshake_started().in_buf == s.in_buf
        }),
{
}

/// The client's `initialize` request, with whatever identifier, is kept whole, and its
/// response waited for, exactly where the proxy waits for it. Nothing else changes.
pub proof fn law_live_initialize_is_kept(
    s: AppStateView,
    id: RequestIdView,
    body: rmcp::model::ClientRequest,
    now: u64,
)
    ensures
        ({
            let request = ClientMessageView::Request { id, request: RequestBody::Initialize(body) };
            let next = s.after_live_message(request, now);
            &&& s.state == ProxyStateView::WaitingForClientInit ==> next == AppStateView {
                init_message: Some(request),
                state: ProxyStateView::WaitingForServerInit(id),
                ..s
            }
            &&& s.state != ProxyStateView::WaitingForClientInit ==> next == s
            &&& !s.ends_client_handshake(request)
        }),
{
}

/// The notification that the client is initialized connects the proxy exactly where it waits
/// for that notification.
pub proof fn law_live_initialized_connects(
    s: AppStateView,
    body: rmcp::model::ClientNotification,
    now: u64,
)
    ensures
        ({
            let message = ClientMessageView::Notification {
                notification: NotificationBody::Initialized(body),
            };
            let next = s.after_live_message(message, now);
            &&& s.state == ProxyStateView::WaitingForClientInitialized ==> {
                &&& s.ends_client_handshake(message)
                &&& next == AppStateView {
                    state: ProxyStateView::Connected,
                    connect_tries: 0,
                    disconnected_since: None,
                    buf_mode: BufferMode::Store,
                    reconnect_scheduled: false,
                    transport_valid: true,
                    last_heartbeat: now,
                    ..s
                }
            }
            &&& s.state != ProxyStateView::WaitingForClientInitialized ==> {
                &&& !s.ends_client_handshake(message)
                &&& next == s
            }
        }),
{
}

/// No other message of the client changes anything on its way to the backend, in any state,
/// nor ends the handshake.
pub proof fn law_other_live_messages_change_nothing(
    s: AppStateView,
    message: ClientMessageView,
    now: u64,
)
    requires
        !(message is Request && message->Request_request is Initialize),
        !(message is Notification && message->notification is Initialized),
    ensures
        s.after_live_message(message, now) == s,
        !s.ends_client_handshake(message),
{
}

/// A flushed proxy buffers nothing and refuses what needs the backend; nothing else changes.
pub proof fn law_flush_empties_the_buffer(s: AppStateView)
    ensures
        s.flushed().in_buf.len() == 0,
        s.flushed().buf_mode == BufferMode::Fail,
        s == (AppStateView { in_buf: s.in_buf, buf_mode: s.buf_mode, ..s.flushed() }),
{
}

/// Every buffered request is refused, under its own identifier, of whatever kind, behind those
/// that were buffered before it; nothing that is no request is.
pub proof fn law_every_buffered_request_is_refused(
    messages: Seq<ClientMessageView>,
    id: RequestIdView,
    request: RequestBody,
    other: ClientMessageView,
)
    requires
        !(other is Request),
    ensures
        crate::relay::request_ids(Seq::empty()) == Seq::<RequestIdView>::empty(),
        crate::relay::request_ids(messages.push(ClientMessageView::Request { id, request }))
            == crate::relay::request_ids(messages).push(id),
        crate::relay::request_ids(messages.push(other)) == crate::relay::request_ids(messages),
{
    let last = ClientMessageView::Request { id, request };
    assert(messages.push(last).drop_last() =~= messages);
    assert(messages.push(other).drop_last() =~= messages);
}

/// What is refused of two buffers, one behind the other, is what is refused of the first and
/// then what is refused of the second.
pub proof fn law_refusals_keep_the_order(a: Seq<ClientMessageView>, b: Seq<ClientMessageView>)
    ensures
        crate::relay::request_ids(a + b) == crate::relay::request_ids(a)
            + crate::relay::request_ids(b),
    decreases b.len(),
{
    if b.len() == 0 {
        assert(a + b =~= a);
    } else {
        law_refusals_keep_the_order(a, b.drop_last());
        assert((a + b).drop_last() =~= a + b.drop_last());
        assert((a + b).last() == b.last());
    }
}

/// A buffer of requests alone has as many refused as it holds, each in its place.
pub proof fn law_requests_are_refused_one_by_one(messages: Seq<ClientMessageView>)
    requires
        forall|i: int| 0 <= i < messages.len() ==> #[trigger] messages[i] is Request,
    ensures
        crate::relay::request_ids(messages).len() == messages.len(),
        forall|i: int|
            0 <= i < messages.len() ==> #[trigger] crate::relay::request_ids(messages)[i]
                == messages[i]->Request_id,
    decreases messages.len(),
{
    if messages.len() > 0 {
        let before = messages.drop_last();
        assert forall|i: int| 0 <= i < before.len() implies #[trigger] before[i] is Request by {
            assert(messages[i] is Request);
        }
        law_requests_are_refused_one_by_one(before);
        assert(messages[messages.len() - 1] is Request);
        assert forall|i: int| 0 <= i < messages.len() implies #[trigger] crate::relay::request_ids(
            messages,
        )[i] == messages[i]->Request_id by {
            if i < before.len() {
                assert(crate::relay::request_ids(before)[i] == before[i]->Request_id);
            }
        }
    }
}

} // verus!
