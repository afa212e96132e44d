//! What losing and finding the backend does to the proxy.
use crate::message::ClientMessageView;
use crate::model::{AppStateView, ProxyStateView};
use crate::state::{BufferMode, ReconnectAction, ReconnectFailureReason, Timers};
use vstd::prelude::*;

verus! {

/// The proxy is disconnected for too long exactly once a whole second more than its limit has
/// passed since it was; never without a limit, and never where it is not disconnected.
pub proof fn law_too_long_is_exact(s: AppStateView, now: u64)
    ensures
        s.disconnected_too_long(now) <==> {
            &&& s.max_disconnected_time is Some
            &&& s.disconnected_since is Some
            &&& now - s.disconnected_since->0 >= (s.max_disconnected_time->0 + 1) * 1_000_000_000
        },
        s.max_disconnected_time is None ==> !s.disconnected_too_long(now),
        s.disconnected_since is None ==> !s.disconnected_too_long(now),
{
}

/// A refused connection is tried again from every state, whether the backend was lost or has
/// never been there, until the time limit is exceeded: only then is what is buffered given up.
/// The next try comes after 2, 4 or 8 seconds, by the number of tries before; none is
/// scheduled beside another one. Nothing that the proxy holds is lost.
pub proof fn law_refused_connection_is_tried_again(s: AppStateView, cause: String, now: u64)
    ensures
        ({
            let refused = Err(ReconnectFailureReason::ConnectionFailed(cause));
            let next = s.after_reconnect(refused, now);
            let action = s.reconnect_action(refused, now);
            let over = s.max_disconnected_time is Some && s.disconnected_since is Some && now
                - s.disconnected_since->0 >= (s.max_disconnected_time->0 + 1) * 1_000_000_000;
            &&& next.connect_tries == s.connect_tries + 1
            &&& action is FlushBuffer <==> over
            &&& action is Retry <==> !over
            &&& over ==> next.reconnect_scheduled == s.reconnect_scheduled
            &&& !over && s.reconnect_tx ==> next.reconnect_scheduled
            &&& !over && !s.reconnect_tx ==> next.reconnect_scheduled
                == s.reconnect_scheduled
            &&& !over && s.reconnect_tx && !s.reconnect_scheduled ==> action
                == ReconnectAction::Retry(
                Some(
                    if s.connect_tries == 0 {
                        2
                    } else if s.connect_tries == 1 {
                        4
                    } else {
                        8
                    },
                ),
            )
            &&& !over && (s.reconnect_scheduled || !s.reconnect_tx) ==> action
                == ReconnectAction::Retry(None)
            &&& next == AppStateView {
                connect_tries: next.connect_tries,
                reconnect_scheduled: next.reconnect_scheduled,
                ..s
            }
        }),
{
    vstd::arithmetic::power2::lemma2_to64();
}

/// Running out of time counts as a try and gives up what is buffered; it schedules nothing.
pub proof fn law_timed_out_connection_gives_up(s: AppStateView, now: u64)
    ensures
        s.reconnect_action(Err(ReconnectFailureReason::TimeoutExceeded), now)
            == ReconnectAction::FlushBuffer,
        s.after_reconnect(Err(ReconnectFailureReason::TimeoutExceeded), now) == (AppStateView {
            connect_tries: s.connect_tries + 1,
            ..s
        }),
{
}

/// A new transport is valid. The client's `initialize` request is replayed on it where there
/// is one, else the proxy waits for it. Nothing else changes.
pub proof fn law_new_transport_is_used(s: AppStateView, now: u64)
    ensures
        s.init_message is Some ==> {
            &&& s.reconnect_action(Ok(()), now) == ReconnectAction::Handshake
            &&& s.after_reconnect(Ok(()), now) == AppStateView { transport_valid: true, ..s }
        },
        s.init_message is None ==> {
            &&& s.reconnect_action(Ok(()), now) == ReconnectAction::Ready
            &&& s.after_reconnect(Ok(()), now) == AppStateView {
                transport_valid: true,
                state: ProxyStateView::WaitingForClientInit,
                ..s
            }
        },
{
}

/// The proxy is offline exactly where its backend has never come up or was lost.
pub proof fn law_offline_phases(phase: ProxyStateView)
    ensures
        match phase {
            ProxyStateView::Connecting => phase.is_offline(),
            ProxyStateView::Disconnected => phase.is_offline(),
            ProxyStateView::Connected => !phase.is_offline(),
            ProxyStateView::WaitingForClientInit => !phase.is_offline(),
            ProxyStateView::WaitingForServerInit(_) => !phase.is_offline(),
            ProxyStateView::WaitingForServerInitHidden(_) => !phase.is_offline(),
            ProxyStateView::WaitingForClientInitialized => !phase.is_offline(),
        },
{
}

/// A connection clears whatever a loss had left: tries, the moment of the loss, refusing and
/// the scheduled reconnect. It counts as a sign of life, and changes nothing else.
pub proof fn law_connection_clears_the_loss(s: AppStateView, now: u64)
    ensures
        ({
            let next = s.connected(now);
            &&& next.state is Connected
            &&& next.connect_tries == 0
            &&& next.disconnected_since is None
            &&& next.buf_mode is Store
            &&& !next.reconnect_scheduled
            &&& next.transport_valid
            &&& next.last_heartbeat == now
            &&& s == AppStateView {
                state: s.state,
                connect_tries: s.connect_tries,
                disconnected_since: s.disconnected_since,
                buf_mode: s.buf_mode,
                reconnect_scheduled: s.reconnect_scheduled,
                transport_valid: s.transport_valid,
                last_heartbeat: s.last_heartbeat,
                ..next
            }
        }),
{
}

/// A loss counts as a try. The first one is dated, invalidates the transport and returns to
/// buffering, from every state; one that follows it changes nothing else. Neither changes
/// anything beside that.
pub proof fn law_loss_is_dated_once(s: AppStateView, now: u64)
    ensures
        ({
            let next = s.disconnected(now);
            &&& next.state is Disconnected
            &&& next.connect_tries == s.connect_tries + 1
            &&& s.state is Disconnected ==> s == AppStateView {
                connect_tries: s.connect_tries,
                ..next
            }
            &&& !(s.state is Disconnected) ==> {
                &&& next.disconnected_since == Some(now)
                &&& next.buf_mode is Store
                &&& !next.transport_valid
                &&& s == AppStateView {
                    state: s.state,
                    connect_tries: s.connect_tries,
                    disconnected_since: s.disconnected_since,
                    buf_mode: s.buf_mode,
                    transport_valid: s.transport_valid,
                    ..next
                }
            }
        }),
{
}

/// A reconnect is scheduled exactly where none is and somebody waits for it: after 1, 2, 4 or
/// 8 seconds, by the number of tries. Only that it is scheduled changes.
pub proof fn law_reconnect_is_scheduled(s: AppStateView)
    ensures
        s.reconnect_delay() is Some <==> !s.reconnect_scheduled && s.reconnect_tx,
        s.reconnect_delay() matches Some(secs) ==> {
            &&& s.connect_tries == 0 ==> secs == 1
            &&& s.connect_tries == 1 ==> secs == 2
            &&& s.connect_tries == 2 ==> secs == 4
            &&& s.connect_tries >= 3 ==> secs == 8
        },
        s.can_schedule_reconnect() <==> !s.reconnect_scheduled && s.reconnect_tx,
        s.schedule_reconnect().reconnect_scheduled <==> s.reconnect_scheduled || s.reconnect_tx,
        s.schedule_reconnect() == (AppStateView {
            reconnect_scheduled: s.schedule_reconnect().reconnect_scheduled,
            ..s
        }),
{
    vstd::arithmetic::power2::lemma2_to64();
}

/// A flush timer of 20 seconds is started exactly where none runs and somebody waits for it.
/// Only that it runs changes.
pub proof fn law_flush_timer_is_started(s: AppStateView)
    ensures
        !s.flush_timer_active && s.timer_tx ==> s.flush_delay() == Some(20u64),
        s.flush_timer_active || !s.timer_tx ==> s.flush_delay() is None,
        s.can_schedule_flush_timer() <==> !s.flush_timer_active && s.timer_tx,
        s.schedule_flush_timer().flush_timer_active <==> s.flush_timer_active || s.timer_tx,
        s.schedule_flush_timer() == (AppStateView {
            flush_timer_active: s.schedule_flush_timer().flush_timer_active,
            ..s
        }),
{
}

/// A sign of life is dated, and changes nothing else.
pub proof fn law_heartbeat_is_dated(s: AppStateView, now: u64)
    ensures
        s.update_heartbeat(now).last_heartbeat == now,
        s.update_heartbeat(now) == (AppStateView { last_heartbeat: now, ..s }),
{
}

/// A failed transport, in whatever state it fails, leaves the proxy disconnected since then,
/// buffering, with a flush timer and a reconnect under way where somebody waits for them: the
/// flush after 20 seconds, the reconnect after 2, 4 or 8, by the number of tries before.
pub proof fn law_failed_transport_is_left(s: AppStateView, now: u64)
    requires
        !(s.state is Disconnected),
    ensures
        ({
            let next = s.fatal_transport_error(now);
            let timers = s.fatal_timers(now);
            &&& next.state is Disconnected
            &&& next.disconnected_since == Some(now)
            &&& next.connect_tries == s.connect_tries + 1
            &&& next.buf_mode is Store
            &&& !next.transport_valid
            &&& s.timer_tx ==> next.flush_timer_active
            &&& s.reconnect_tx ==> next.reconnect_scheduled
            &&& !s.timer_tx ==> next.flush_timer_active == s.flush_timer_active
            &&& !s.reconnect_tx ==> next.reconnect_scheduled == s.reconnect_scheduled
            &&& timers.flush_in == (if s.timer_tx && !s.flush_timer_active {
                Some(20u64)
            } else {
                None
            })
            &&& timers.reconnect_in is Some <==> s.reconnect_tx && !s.reconnect_scheduled
            &&& timers.reconnect_in matches Some(secs) ==> secs == (if s.connect_tries == 0 {
                2
            } else if s.connect_tries == 1 {
                4
            } else {
                8u64
            })
            &&& s == AppStateView {
                state: s.state,
                disconnected_since: s.disconnected_since,
                connect_tries: s.connect_tries,
                buf_mode: s.buf_mode,
                transport_valid: s.transport_valid,
                flush_timer_active: s.flush_timer_active,
                reconnect_scheduled: s.reconnect_scheduled,
                ..next
            }
        }),
{
    vstd::arithmetic::power2::lemma2_to64();
}

/// A failed transport is no news to a disconnected proxy.
pub proof fn law_failed_transport_is_no_news(s: AppStateView, now: u64)
    requires
        s.state is Disconnected,
    ensures
        s.fatal_transport_error(now) == s,
        s.fatal_timers(now) == (Timers { flush_in: None, reconnect_in: None }),
{
}

/// What every operation keeps: the request that is kept for replay is an `initialize` request,
/// a disconnected proxy knows since when it is, and a connected one has a valid transport, is
/// not counted as disconnected and buffers.
pub proof fn law_invariant(s: AppStateView)
    ensures
        s.wf() <==> {
            &&& s.init_message is Some ==> {
                &&& s.init_message->0 is Request
                &&& s.init_message->0->Request_request is Initialize
            }
            &&& s.state is Disconnected ==> s.disconnected_since is Some
            &&& s.state is Connected ==> s.transport_valid && s.disconnected_since is None
                && s.buf_mode == BufferMode::Store
        },
{
}

/// The error codes that a client gets: one where the backend is gone, another where a request
/// cannot be sent to it.
pub proof fn law_error_codes()
    ensures
        crate::state::DISCONNECTED_ERROR_CODE == -32010,
        crate::state::TRANSPORT_SEND_ERROR_CODE == -32011,
{
}

/// An `initialize` request of the client is one under every identifier, and nothing else is.
pub proof fn law_initialize_requests(message: ClientMessageView)
    ensures
        message.is_initialize() <==> message is Request
            && message->Request_request is Initialize,
{
}

} // verus!
