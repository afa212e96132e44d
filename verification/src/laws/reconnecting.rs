//! What calls do that follow the connection to the backend.
use crate::message::{ClientMessage, ClientMessageView, RequestBody, RequestIdView};
use crate::model::{AppStateView, ProxyStateView};
use crate::state::{
    AppState, BufferMode, HandshakeAction, LoopAction, ReconnectAction, ReconnectFailureReason,
    Timers,
};
use vstd::prelude::*;

verus! {

/// After a refused connection the proxy tries again, in every state, until its time limit is
/// exceeded by a whole second; only then is what is buffered given up. Where somebody waits
/// for it and no try is scheduled yet, one is, after 2, 4 or 8 seconds by the number of tries
/// before.
pub proof fn law_call_reconnect_refused(
    s: &mut AppState,
    cause: String,
    now: u64,
    action: ReconnectAction,
)
    requires
        call_ensures(
            AppState::reconnect_attempted,
            (s, Err(ReconnectFailureReason::ConnectionFailed(cause)), now),
            action,
        ),
    ensures
        ({
            let (a, b) = (old(s)@, final(s)@);
            let over = a.max_disconnected_time is Some && a.disconnected_since is Some && now
                - a.disconnected_since->0 >= (a.max_disconnected_time->0 + 1) * 1_000_000_000;
            &&& action is FlushBuffer <==> over
            &&& action is Retry <==> !over
            &&& !over && a.reconnect_tx ==> b.reconnect_scheduled
            &&& over || !a.reconnect_tx ==> b.reconnect_scheduled == a.reconnect_scheduled
            &&& action matches ReconnectAction::Retry(delay) ==> {
                &&& delay is Some <==> a.reconnect_tx && !a.reconnect_scheduled
                &&& delay matches Some(secs) ==> secs == (if a.connect_tries == 0 {
                    2
                } else if a.connect_tries == 1 {
                    4
                } else {
                    8u64
                })
            }
            &&& b == AppStateView {
                connect_tries: a.connect_tries + 1,
                reconnect_scheduled: b.reconnect_scheduled,
                ..a
            }
        }),
{
    vstd::arithmetic::power2::lemma2_to64();
}

/// Without a time limit, or where the backend has never been there, a refused connection is
/// always tried again.
pub proof fn law_call_reconnect_never_gives_up(
    s: &mut AppState,
    cause: String,
    now: u64,
    action: ReconnectAction,
)
    requires
        call_ensures(
            AppState::reconnect_attempted,
            (s, Err(ReconnectFailureReason::ConnectionFailed(cause)), now),
            action,
        ),
        old(s).max_disconnected_time is None || old(s).disconnected_since is None,
    ensures
        action is Retry,
        old(s).reconnect_tx ==> final(s).reconnect_scheduled,
{
}

/// Running out of time counts as a try and gives up what is buffered.
pub proof fn law_call_reconnect_timed_out(s: &mut AppState, now: u64, action: ReconnectAction)
    requires
        call_ensures(
            AppState::reconnect_attempted,
            (s, Err(ReconnectFailureReason::TimeoutExceeded), now),
            action,
        ),
    ensures
        action is FlushBuffer,
        final(s)@ == (AppStateView { connect_tries: old(s)@.connect_tries + 1, ..old(s)@ }),
{
}

/// A new transport is valid; the client's `initialize` request is replayed on it where one is
/// kept, else it is waited for.
pub proof fn law_call_reconnected(s: &mut AppState, now: u64, action: ReconnectAction)
    requires
        call_ensures(AppState::reconnect_attempted, (s, Ok(()), now), action),
    ensures
        old(s).init_message is Some ==> {
            &&& action is Handshake
            &&& final(s)@ == AppStateView { transport_valid: true, ..old(s)@ }
        },
        old(s).init_message is None ==> {
            &&& action is Ready
            &&& final(s)@ == AppStateView {
                transport_valid: true,
                state: ProxyStateView::WaitingForClientInit,
                ..old(s)@
            }
        },
{
}

/// The `initialize` request that is kept, whatever its identifier, is sent again as it is, and
/// the response to that identifier is waited for. Nothing else changes.
pub proof fn law_call_replay(
    s: &mut AppState,
    replay: Option<ClientMessage>,
    id: RequestIdView,
    body: rmcp::model::ClientRequest,
)
    requires
        call_ensures(AppState::initiate_post_reconnect_handshake, (s,), replay),
        old(s)@.init_message == Some(
            ClientMessageView::Request { id, request: RequestBody::Initialize(body) },
        ),
    ensures
        replay is Some,
        replay->0@ == (ClientMessageView::Request { id, request: RequestBody::Initialize(body) }),
        final(s)@ == (AppStateView {
            state: ProxyStateView::WaitingForServerInitHidden(id),
            ..old(s)@
        }),
{
}

/// Where no `initialize` request is kept there is nothing to send again, and nothing changes;
/// where one is, there is.
pub proof fn law_call_replay_where_kept(s: &mut AppState, replay: Option<ClientMessage>)
    requires
        call_ensures(AppState::initiate_post_reconnect_handshake, (s,), replay),
        old(s)@.wf(),
    ensures
        replay is Some <==> old(s).init_message is Some,
        replay is Some ==> old(s)@.init_message == Some(replay->0@) && final(s)@.state
            is WaitingForServerInitHidden,
        replay is None ==> final(s)@ == old(s)@,
{
}

/// A connection is noted whole.
pub proof fn law_call_connected(s: &mut AppState, now: u64)
    requires
        call_ensures(AppState::connected, (s, now), ()),
    ensures
        final(s)@ == (AppStateView {
            state: ProxyStateView::Connected,
            connect_tries: 0,
            disconnected_since: None,
            buf_mode: BufferMode::Store,
            reconnect_scheduled: false,
            transport_valid: true,
            last_heartbeat: now,
            ..old(s)@
        }),
{
}

/// A loss is dated the first time, and counts as a try each time.
pub proof fn law_call_disconnected(s: &mut AppState, now: u64)
    requires
        call_ensures(AppState::disconnected, (s, now), ()),
    ensures
        old(s).state is Disconnected ==> final(s)@ == (AppStateView {
            connect_tries: old(s)@.connect_tries + 1,
            ..old(s)@
        }),
        !(old(s).state is Disconnected) ==> final(s)@ == (AppStateView {
            state: ProxyStateView::Disconnected,
            disconnected_since: Some(now),
            buf_mode: BufferMode::Store,
            transport_valid: false,
            connect_tries: old(s)@.connect_tries + 1,
            ..old(s)@
        }),
{
}

/// The proxy is disconnected for too long once a second more than its limit has passed.
pub proof fn law_call_too_long(s: AppState, now: u64, r: bool)
    requires
        call_ensures(AppState::disconnected_too_long, (&s, now), r),
    ensures
        r <==> {
            &&& s.max_disconnected_time is Some
            &&& s.disconnected_since is Some
            &&& now - s.disconnected_since->0 >= (s.max_disconnected_time->0 + 1) * 1_000_000_000
        },
{
}

/// The delay before a try is 1, 2, 4 or 8 seconds, by the number of tries.
pub proof fn law_call_backoff(s: AppState, secs: u64)
    requires
        call_ensures(AppState::get_backoff_duration, (&s,), secs),
    ensures
        s.connect_tries == 0 ==> secs == 1,
        s.connect_tries == 1 ==> secs == 2,
        s.connect_tries == 2 ==> secs == 4,
        s.connect_tries >= 3 ==> secs == 8,
{
    vstd::arithmetic::power2::lemma2_to64();
}

/// A reconnect is scheduled where none is and somebody waits for it, and only there.
pub proof fn law_call_schedule_reconnect(s: &mut AppState, delay: Option<u64>)
    requires
        call_ensures(AppState::schedule_reconnect, (s,), delay),
    ensures
        delay is Some <==> !old(s).reconnect_scheduled && old(s).reconnect_tx,
        delay matches Some(secs) ==> {
            &&& old(s).connect_tries == 0 ==> secs == 1
            &&& old(s).connect_tries == 1 ==> secs == 2
            &&& old(s).connect_tries == 2 ==> secs == 4
            &&& old(s).connect_tries >= 3 ==> secs == 8
        },
        final(s)@ == (AppStateView {
            reconnect_scheduled: old(s).reconnect_scheduled || old(s).reconnect_tx,
            ..old(s)@
        }),
{
    vstd::arithmetic::power2::lemma2_to64();
}

/// A flush timer of 20 seconds is started where none runs and somebody waits for it, and only
/// there.
pub proof fn law_call_schedule_flush_timer(s: &mut AppState, delay: Option<u64>)
    requires
        call_ensures(AppState::schedule_flush_timer, (s,), delay),
    ensures
        delay == (if !old(s).flush_timer_active && old(s).timer_tx {
            Some(20u64)
        } else {
            None
        }),
        final(s)@ == (AppStateView {
            flush_timer_active: old(s).flush_timer_active || old(s).timer_tx,
            ..old(s)@
        }),
{
}

/// A sign of life is dated.
pub proof fn law_call_update_heartbeat(s: &mut AppState, now: u64)
    requires
        call_ensures(AppState::update_heartbeat, (s, now), ()),
    ensures
        final(s)@ == (AppStateView { last_heartbeat: now, ..old(s)@ }),
{
}

/// A failed transport leaves the proxy disconnected since then, with a flush timer and a
/// reconnect under way where somebody waits for them; a disconnected proxy is left alone.
pub proof fn law_call_fatal_transport_error(s: &mut AppState, now: u64, timers: Timers)
    requires
        call_ensures(AppState::handle_fatal_transport_error, (s, now), timers),
    ensures
        ({
            let (a, b) = (old(s)@, final(s)@);
            &&& a.state is Disconnected ==> b == a && timers.flush_in is None
                && timers.reconnect_in is None
            &&& !(a.state is Disconnected) ==> {
                &&& b == AppStateView {
                    state: ProxyStateView::Disconnected,
                    disconnected_since: Some(now),
                    buf_mode: BufferMode::Store,
                    transport_valid: false,
                    connect_tries: a.connect_tries + 1,
                    flush_timer_active: a.flush_timer_active || a.timer_tx,
                    reconnect_scheduled: a.reconnect_scheduled || a.reconnect_tx,
                    ..a
                }
                &&& timers.flush_in == if a.timer_tx && !a.flush_timer_active {
                    Some(20u64)
                } else {
                    None
                }
                &&& timers.reconnect_in is Some <==> a.reconnect_tx && !a.reconnect_scheduled
                &&& timers.reconnect_in matches Some(secs) ==> secs == if a.connect_tries == 0 {
                    2
                } else if a.connect_tries == 1 {
                    4
                } else {
                    8u64
                }
            }
        }),
{
    vstd::arithmetic::power2::lemma2_to64();
}

/// A handshake that was completed changes nothing and lets what is buffered go; one that was
/// not is a failed transport.
pub proof fn law_call_handshake_completed(
    s: &mut AppState,
    sent: bool,
    now: u64,
    action: HandshakeAction,
)
    requires
        call_ensures(AppState::handshake_completed, (s, sent, now), action),
    ensures
        sent ==> final(s)@ == old(s)@ && action is ProcessBuffered,
        !sent ==> {
            &&& final(s)@ == old(s)@.fatal_transport_error(now)
            &&& action == HandshakeAction::Reconnect(old(s)@.fatal_timers(now))
        },
        !sent && old(s).state is Disconnected ==> final(s)@ == old(s)@ && action
            == HandshakeAction::Reconnect(Timers { flush_in: None, reconnect_in: None }),
        !sent && !(old(s).state is Disconnected) ==> {
            &&& final(s)@.state is Disconnected
            &&& final(s)@.disconnected_since == Some(now)
            &&& !final(s)@.transport_valid
            &&& final(s)@.in_buf == old(s)@.in_buf
            &&& action matches HandshakeAction::Reconnect(timers)
            &&& timers.reconnect_in is Some <==> old(s).reconnect_tx && !old(s).reconnect_scheduled
            &&& timers.flush_in is Some <==> old(s).timer_tx && !old(s).flush_timer_active
        },
{
}

/// A reconnect signal ends the scheduled reconnect, and leads to a try in either offline state
/// and in no other.
pub proof fn law_call_reconnect_signal(s: &mut AppState, attempt: bool)
    requires
        call_ensures(AppState::handle_reconnect_signal, (s,), attempt),
    ensures
        attempt <==> old(s).state is Connecting || old(s).state is Disconnected,
        final(s)@ == (AppStateView { reconnect_scheduled: false, ..old(s)@ }),
{
}

/// Once a reconnect signal is handled the proxy goes on unless it has been disconnected for too
/// long; then it stops, and first refuses what it buffers, where it does.
pub proof fn law_call_after_reconnect_signal(s: AppState, now: u64, action: LoopAction)
    requires
        call_ensures(AppState::after_reconnect_signal, (&s, now), action),
    ensures
        ({
            let over = s.max_disconnected_time is Some && s.disconnected_since is Some && now
                - s.disconnected_since->0 >= (s.max_disconnected_time->0 + 1) * 1_000_000_000;
            &&& action is Continue <==> !over
            &&& action is FlushAndStop <==> over && s.in_buf@.len() > 0 && s.buf_mode
                == BufferMode::Store
        }),
{
}

/// The flush timer ends when it fires, and leads to a flush where the backend was lost and is
/// still gone, and only there.
pub proof fn law_call_timer_signal(s: &mut AppState, flush: bool)
    requires
        call_ensures(AppState::handle_timer_signal, (s,), flush),
    ensures
        flush <==> old(s).state is Disconnected,
        final(s)@ == (AppStateView { flush_timer_active: false, ..old(s)@ }),
{
}

/// The backend is checked where the proxy is connected, and only there.
pub proof fn law_call_heartbeat_tick(s: AppState, check: bool)
    requires
        call_ensures(AppState::handle_heartbeat_tick, (&s,), check),
    ensures
        check <==> s.state is Connected,
{
}

/// A backend that is found alive is noted so; one that is found gone is a failed transport; a
/// check that was not due changes nothing.
pub proof fn law_call_heartbeat_checked(
    s: &mut AppState,
    alive: Option<bool>,
    now: u64,
    timers: Option<Timers>,
)
    requires
        call_ensures(AppState::heartbeat_checked, (s, alive, now), timers),
    ensures
        alive is None ==> final(s)@ == old(s)@ && timers is None,
        alive == Some(true) ==> timers is None && final(s)@ == (AppStateView {
            last_heartbeat: now,
            ..old(s)@
        }),
        alive == Some(false) ==> {
            &&& final(s)@ == old(s)@.fatal_transport_error(now)
            &&& timers == Some(old(s)@.fatal_timers(now))
        },
        alive == Some(false) && old(s).state is Disconnected ==> final(s)@ == old(s)@ && timers
            == Some(Timers { flush_in: None, reconnect_in: None }),
        alive == Some(false) && !(old(s).state is Disconnected) ==> {
            &&& final(s)@.state is Disconnected
            &&& final(s)@.disconnected_since == Some(now)
            &&& !final(s)@.transport_valid
            &&& timers matches Some(t)
            &&& t.reconnect_in is Some <==> old(s).reconnect_tx && !old(s).reconnect_scheduled
            &&& t.flush_in is Some <==> old(s).timer_tx && !old(s).flush_timer_active
        },
{
}

/// Messages of the backend are read over a transport that is there and valid, and only there.
pub proof fn law_call_reads_backend(s: AppState, has_transport: bool, r: bool)
    requires
        call_ensures(AppState::reads_backend, (&s, has_transport), r),
    ensures
        r <==> s.transport_valid && has_transport,
{
}

} // verus!
