//! The proxy as a mathematical state machine: its states, and what each event makes of
//! them.
use crate::message::{
    Capabilities, ClientMessageView, ImplementationView, InitializeResultView,
    ListToolsView, RequestBody, RequestIdView, ResultBodyView,
    ServerMessageView, ToolsCapability,
};
use crate::state::{BufferMode, ReconnectAction, ReconnectFailureReason, Timers};
use vstd::arithmetic::power2::pow2;
use vstd::prelude::*;

verus! {

/// Nanoseconds in a second.
pub const NANOS_PER_SEC: u64 = 1_000_000_000;

/// Seconds after which a proxy that is still disconnected answers what it has buffered.
pub const FLUSH_DELAY_SECS: u64 = 20;

/// The protocol version that the proxy names to a client before the backend has.
pub const OFFLINE_PROTOCOL_VERSION: &'static str = "2025-03-26";

/// The name that the proxy gives itself in its own `initialize` response.
pub const OFFLINE_SERVER_NAME: &'static str = "mcp-proxy-cached";

/// What the proxy tells a client in its own `initialize` response.
pub const OFFLINE_INSTRUCTIONS: &'static str =
    "Proxy responding before backend has connected. tools/list is served from disk cache; tool calls buffer until the backend is ready.";

/// The model of a [`ProxyState`](crate::state::ProxyState).
pub enum ProxyStateView {
    Connecting,
    Connected,
    Disconnected,
    WaitingForClientInit,
    WaitingForServerInit(RequestIdView),
    WaitingForServerInitHidden(RequestIdView),
    WaitingForClientInitialized,
}

impl ProxyStateView {
    /// Whether there is no backend: it has never come up yet, or it was up and died.
    pub open spec fn is_offline(self) -> bool {
        self is Connecting || self is Disconnected
    }
}

/// Whole seconds between two moments; none where the second is not after the first.
pub open spec fn elapsed_secs(since: u64, now: u64) -> int {
    if now > since {
        (now - since) / (NANOS_PER_SEC as int)
    } else {
        0
    }
}

/// The tools that the proxy knows at startup: those given inline, else those of the
/// cache file.
pub open spec fn startup_choice(
    inline: Option<ListToolsView>,
    cached: Option<ListToolsView>,
) -> Option<ListToolsView> {
    match inline {
        Some(tools) => Some(tools),
        None => cached,
    }
}

/// The `initialize` result that the proxy gives without a live backend.
pub open spec fn local_initialize_result(
    override_protocol_version: Option<Seq<char>>,
    proxy_version: Seq<char>,
) -> InitializeResultView {
    InitializeResultView {
        protocol_version: match override_protocol_version {
            Some(version) => version,
            None => OFFLINE_PROTOCOL_VERSION@,
        },
        capabilities: Capabilities {
            tools: Some(ToolsCapability { list_changed: Some(true) }),
            others: None,
        },
        server_info: ImplementationView {
            name: OFFLINE_SERVER_NAME@,
            title: None,
            version: proxy_version,
            icons: None,
            website_url: None,
        },
        instructions: Some(OFFLINE_INSTRUCTIONS@),
    }
}

/// The model of an [`OfflineAction`](crate::state::OfflineAction).
pub enum OfflineActionView {
    Nothing,
    Reply(ServerMessageView),
    ReplyDisconnected(RequestIdView),
}

/// What a message from the backend leads to, without the cache file.
pub enum BackendOutcome {
    Skip,
    CompleteHandshake,
    Forward(ServerMessageView),
}

/// The model of an [`AppState`](crate::state::AppState).
pub struct AppStateView {
    pub url: Seq<char>,
    pub max_disconnected_time: Option<u64>,
    pub override_protocol_version: Option<Seq<char>>,
    pub disconnected_since: Option<u64>,
    pub state: ProxyStateView,
    pub connect_tries: nat,
    pub init_message: Option<ClientMessageView>,
    pub id_map: Map<Seq<char>, RequestIdView>,
    pub in_buf: Seq<ClientMessageView>,
    pub buf_mode: BufferMode,
    pub flush_timer_active: bool,
    pub reconnect_tx: bool,
    pub timer_tx: bool,
    pub reconnect_scheduled: bool,
    pub transport_valid: bool,
    pub last_heartbeat: u64,
    pub tools_cache: Option<ListToolsView>,
    pub proxy_version: Seq<char>,
}

impl AppStateView {
    /// What a new proxy has and every operation keeps: only an `initialize` request is kept for
    /// replay; a disconnected proxy knows since when it is; a connected proxy has a
    /// valid transport, is not counted as disconnected and buffers messages.
    pub open spec fn wf(self) -> bool {
        &&& self.init_message matches Some(message) ==> message.is_initialize()
        &&& self.state is Disconnected ==> self.disconnected_since is Some
        &&& self.state is Connected ==> {
            &&& self.transport_valid
            &&& self.disconnected_since is None
            &&& self.buf_mode is Store
        }
    }

    /// The backend is connected.
    pub open spec fn connected(self, now: u64) -> AppStateView {
        AppStateView {
            state: ProxyStateView::Connected,
            connect_tries: 0,
            disconnected_since: None,
            buf_mode: BufferMode::Store,
            reconnect_scheduled: false,
            transport_valid: true,
            last_heartbeat: now,
            ..self
        }
    }

    /// The backend is found gone. Only the first time tells since when, and returns to
    /// buffering; each time counts as a try.
    pub open spec fn disconnected(self, now: u64) -> AppStateView {
        let counted = AppStateView { connect_tries: self.connect_tries + 1, ..self };
        if self.state is Disconnected {
            counted
        } else {
            AppStateView {
                state: ProxyStateView::Disconnected,
                disconnected_since: Some(now),
                buf_mode: BufferMode::Store,
                transport_valid: false,
                ..counted
            }
        }
    }

    /// Whether the proxy has been disconnected for more than the time it is given;
    /// never where it is given no limit or is not disconnected.
    pub open spec fn disconnected_too_long(self, now: u64) -> bool {
        match (self.max_disconnected_time, self.disconnected_since) {
            (Some(max_time), Some(since)) => elapsed_secs(since, now) > max_time,
            _ => false,
        }
    }

    /// Seconds before the next try to connect: two to the number of tries, eight at
    /// most.
    pub open spec fn backoff_secs(self) -> u64 {
        pow2(
            if self.connect_tries < 3 {
                self.connect_tries
            } else {
                3
            },
        ) as u64
    }

    /// Whether a reconnect would be scheduled now: none is yet, and there is somebody
    /// to tell.
    pub open spec fn can_schedule_reconnect(self) -> bool {
        !self.reconnect_scheduled && self.reconnect_tx
    }

    /// A reconnect is asked for.
    pub open spec fn schedule_reconnect(self) -> AppStateView {
        AppStateView {
            reconnect_scheduled: self.reconnect_scheduled || self.reconnect_tx,
            ..self
        }
    }

    /// The delay of the reconnect that is scheduled, where one is.
    pub open spec fn reconnect_delay(self) -> Option<u64> {
        if self.can_schedule_reconnect() {
            Some(self.backoff_secs())
        } else {
            None
        }
    }

    /// Whether a flush timer would be started now: none runs, and there is somebody to
    /// tell.
    pub open spec fn can_schedule_flush_timer(self) -> bool {
        !self.flush_timer_active && self.timer_tx
    }

    /// A flush timer is asked for.
    pub open spec fn schedule_flush_timer(self) -> AppStateView {
        AppStateView { flush_timer_active: self.flush_timer_active || self.timer_tx, ..self }
    }

    /// The delay of the flush timer that is started, where one is.
    pub open spec fn flush_delay(self) -> Option<u64> {
        if self.can_schedule_flush_timer() {
            Some(FLUSH_DELAY_SECS)
        } else {
            None
        }
    }

    /// A sign of life of the backend.
    pub open spec fn update_heartbeat(self, now: u64) -> AppStateView {
        AppStateView { last_heartbeat: now, ..self }
    }

    /// The transport failed: an error that a disconnected proxy has seen already.
    pub open spec fn fatal_transport_error(self, now: u64) -> AppStateView {
        if self.state is Disconnected {
            self
        } else {
            self.disconnected(now).schedule_flush_timer().schedule_reconnect()
        }
    }

    /// The timers that a failed transport starts.
    pub open spec fn fatal_timers(self, now: u64) -> Timers {
        if self.state is Disconnected {
            Timers { flush_in: None, reconnect_in: None }
        } else {
            Timers {
                flush_in: self.flush_delay(),
                reconnect_in: self.disconnected(now).reconnect_delay(),
            }
        }
    }

    /// A request is passed on under the identifier `proxy_id`.
    pub open spec fn remember_id(self, proxy_id: Seq<char>, original: RequestIdView) -> AppStateView {
        AppStateView { id_map: self.id_map.insert(proxy_id, original), ..self }
    }

    /// The identifier that a request had before it was passed on.
    pub open spec fn original_id(self, current: RequestIdView) -> Option<RequestIdView> {
        if self.id_map.contains_key(current.key()) {
            Some(self.id_map[current.key()])
        } else {
            None
        }
    }

    /// A request that was passed on is answered.
    pub open spec fn forget_id(self, current: RequestIdView) -> AppStateView {
        AppStateView { id_map: self.id_map.remove(current.key()), ..self }
    }

    /// The state after a message of the client was mapped back.
    pub open spec fn after_client_mapping(self, message: ClientMessageView) -> AppStateView {
        match message.answered_id() {
            Some(id) => self.forget_id(id),
            None => self,
        }
    }

    /// A message of the client with its identifier mapped back: a response or an error
    /// under the identifier of the request that it answers, none where no such request
    /// is known; any other message as it is.
    pub open spec fn mapped_client_message(self, message: ClientMessageView) -> Option<
        ClientMessageView,
    > {
        match message.answered_id() {
            Some(id) => match self.original_id(id) {
                Some(original) => Some(message.with_id(original)),
                None => None,
            },
            None => Some(message),
        }
    }

    /// The state after a message of the server was mapped back.
    pub open spec fn after_server_mapping(self, message: ServerMessageView) -> AppStateView {
        match message.answered_id() {
            Some(id) => self.forget_id(id),
            None => self,
        }
    }

    /// A message of the server with its identifier mapped back: a response or an error
    /// under the identifier of the request that it answers, none where no such request
    /// is known; any other message as it is.
    pub open spec fn mapped_server_message(self, message: ServerMessageView) -> Option<
        ServerMessageView,
    > {
        match message.answered_id() {
            Some(id) => match self.original_id(id) {
                Some(original) => Some(message.with_id(original)),
                None => None,
            },
            None => Some(message),
        }
    }

    /// A message of the server with the protocol version that the proxy is told to name.
    pub open spec fn with_overridden_version(self, message: ServerMessageView) -> ServerMessageView {
        match self.override_protocol_version {
            Some(version) => message.with_protocol_version(version),
            None => message,
        }
    }

    /// The tools of a `tools/list` response are kept.
    pub open spec fn cache_tools(self, message: ServerMessageView) -> AppStateView {
        match message.listed_tools() {
            Some(tools) => AppStateView { tools_cache: Some(tools), ..self },
            None => self,
        }
    }

    /// Whether a message is the response to the `initialize` request that the proxy
    /// waits for. An error is not.
    pub open spec fn is_init_response(self, message: ServerMessageView) -> bool {
        match (message, self.state) {
            (
                ServerMessageView::Response { id, .. },
                ProxyStateView::WaitingForServerInit(init_id),
            ) => id == init_id,
            (
                ServerMessageView::Response { id, .. },
                ProxyStateView::WaitingForServerInitHidden(init_id),
            ) => id == init_id,
            _ => false,
        }
    }

    /// What a message of the backend leads to, once its identifier is mapped back.
    pub open spec fn receive_mapped(self, message: ServerMessageView, now: u64) -> (
        AppStateView,
        BackendOutcome,
    ) {
        if self.is_init_response(message) {
            if self.state is WaitingForServerInitHidden {
                (self.connected(now), BackendOutcome::CompleteHandshake)
            } else {
                let shown = self.with_overridden_version(message);
                (
                    AppStateView {
                        state: ProxyStateView::WaitingForClientInitialized,
                        ..self
                    }.cache_tools(shown),
                    BackendOutcome::Forward(shown),
                )
            }
        } else {
            (self.cache_tools(message), BackendOutcome::Forward(message))
        }
    }

    /// What a message of the backend leads to. A request goes to the client under a
    /// fresh identifier; anything else is mapped back first, and dropped where it
    /// answers no known request.
    pub open spec fn receive(self, message: ServerMessageView, fresh_id: Seq<char>, now: u64) -> (
        AppStateView,
        BackendOutcome,
    ) {
        let alive = self.update_heartbeat(now);
        match message {
            ServerMessageView::Request { id, .. } => (
                alive.remember_id(fresh_id, id),
                BackendOutcome::Forward(message.with_id(RequestIdView::Text(fresh_id))),
            ),
            _ => match alive.mapped_server_message(message) {
                Some(mapped) => alive.after_server_mapping(message).receive_mapped(mapped, now),
                None => (alive.after_server_mapping(message), BackendOutcome::Skip),
            },
        }
    }

    /// The tools that the proxy answers with while it is offline.
    pub open spec fn offline_tools(self) -> ListToolsView {
        match self.tools_cache {
            Some(tools) => tools,
            None => ListToolsView { tools: Seq::empty(), next_cursor: None },
        }
    }

    /// What the proxy answers to a request of the client by itself, where it does.
    pub open spec fn local_result(self, request: RequestBody) -> Option<ResultBodyView> {
        match request {
            RequestBody::Ping(_) => Some(ResultBodyView::Empty),
            RequestBody::Initialize(_) => Some(
                ResultBodyView::Initialize(
                    local_initialize_result(self.override_protocol_version, self.proxy_version),
                ),
            ),
            RequestBody::ListTools(_) => Some(ResultBodyView::ListTools(self.offline_tools())),
            RequestBody::Other(_) => None,
        }
    }

    /// Whether a message of the client has to wait for the backend: any but a request
    /// that the proxy answers by itself and the notification that the client is
    /// initialized.
    pub open spec fn needs_backend(self, message: ClientMessageView) -> bool {
        match message {
            ClientMessageView::Request { request, .. } => self.local_result(request) is None,
            ClientMessageView::Notification { notification } => notification is Other,
            _ => true,
        }
    }

    /// The state after a message of the client arrived offline: the first `initialize`
    /// request is kept for replay, and what needs the backend is buffered while the
    /// proxy buffers.
    pub open spec fn after_offline_message(self, message: ClientMessageView) -> AppStateView {
        if message.is_initialize() && self.init_message is None {
            AppStateView { init_message: Some(message), ..self }
        } else if self.needs_backend(message) && self.buf_mode is Store {
            AppStateView { in_buf: self.in_buf.push(message), ..self }
        } else {
            self
        }
    }

    /// What the client is told of a message that arrived offline: requests that the
    /// proxy answers by itself get their answer, other requests are refused where they
    /// are not buffered, and nothing else is answered.
    pub open spec fn offline_action(self, message: ClientMessageView) -> OfflineActionView {
        match message {
            ClientMessageView::Request { id, request } => match self.local_result(request) {
                Some(result) => OfflineActionView::Reply(ServerMessageView::Response { id, result }),
                None => if self.buf_mode is Store {
                    OfflineActionView::Nothing
                } else {
                    OfflineActionView::ReplyDisconnected(id)
                },
            },
            _ => OfflineActionView::Nothing,
        }
    }

    /// The state after a try to connect. A new transport is valid at once, and waits for
    /// the client where it has not sent its `initialize` request; a failure counts as a
    /// try, and asks for the next one unless time is up.
    pub open spec fn after_reconnect(
        self,
        outcome: Result<(), ReconnectFailureReason>,
        now: u64,
    ) -> AppStateView {
        let counted = AppStateView { connect_tries: self.connect_tries + 1, ..self };
        match outcome {
            Ok(_) => AppStateView {
                transport_valid: true,
                state: if self.init_message is Some {
                    self.state
                } else {
                    ProxyStateView::WaitingForClientInit
                },
                ..self
            },
            Err(ReconnectFailureReason::TimeoutExceeded) => counted,
            Err(ReconnectFailureReason::ConnectionFailed(_)) => {
                if self.disconnected_too_long(now) {
                    counted
                } else {
                    counted.schedule_reconnect()
                }
            },
        }
    }

    /// What to do after a try to connect: replay the client's `initialize` request where
    /// there is one, else wait for it; after a failure try again, or flush where time is
    /// up.
    pub open spec fn reconnect_action(
        self,
        outcome: Result<(), ReconnectFailureReason>,
        now: u64,
    ) -> ReconnectAction {
        match outcome {
            Ok(_) => if self.init_message is Some {
                ReconnectAction::Handshake
            } else {
                ReconnectAction::Ready
            },
            Err(ReconnectFailureReason::TimeoutExceeded) => ReconnectAction::FlushBuffer,
            Err(ReconnectFailureReason::ConnectionFailed(_)) => {
                if self.disconnected_too_long(now) {
                    ReconnectAction::FlushBuffer
                } else {
                    ReconnectAction::Retry(
                        AppStateView {
                            connect_tries: self.connect_tries + 1,
                            ..self
                        }.reconnect_delay(),
                    )
                }
            },
        }
    }
}

} // verus!
