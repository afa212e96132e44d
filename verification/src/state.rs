//! The state of the proxy and the decisions that it takes on each event.
//!
//! Sending and receiving, timers and the clock are outside: a handler takes what came
//! in and what the clock shows, changes the state and returns what is to be done.
//! Moments are nanoseconds since an arbitrary start that does not change.
use crate::cache::{parse_inline, save, CacheDir, CacheWrite};
use crate::message::{
    Capabilities, ClientMessage, Implementation, InitializeResult, ListToolsResult,
    NotificationBody, ProtocolVersion, RequestBody, RequestId, RequestIdView, ResultBody,
    ServerMessage, ToolsCapability,
};
use crate::model::{
    AppStateView, BackendOutcome, OfflineActionView, ProxyStateView, FLUSH_DELAY_SECS,
    NANOS_PER_SEC, OFFLINE_INSTRUCTIONS, OFFLINE_PROTOCOL_VERSION, OFFLINE_SERVER_NAME,
};
use crate::outside::request_id_text;
use vstd::hash_map::StringHashMap;
use vstd::prelude::*;

verus! {

/// Reasons why a reconnection attempt might fail.
#[derive(Debug)]
pub enum ReconnectFailureReason {
    TimeoutExceeded,
    ConnectionFailed(String),
}

/// Buffer mode for message handling during disconnection
#[derive(Debug, Clone, Copy, PartialEq, Eq, Structural)]
pub enum BufferMode {
    Store,
    Fail,
}

/// Proxy state to track connection and message handling
#[derive(Debug, PartialEq, Eq)]
pub enum ProxyState {
    Connecting,
    Connected,
    Disconnected,
    WaitingForClientInit,
    WaitingForServerInit(RequestId),
    WaitingForServerInitHidden(RequestId),
    WaitingForClientInitialized,
}

impl View for ProxyState {
    type V = ProxyStateView;

    open spec fn view(&self) -> ProxyStateView {
        match self {
            ProxyState::Connecting => ProxyStateView::Connecting,
            ProxyState::Connected => ProxyStateView::Connected,
            ProxyState::Disconnected => ProxyStateView::Disconnected,
            ProxyState::WaitingForClientInit => ProxyStateView::WaitingForClientInit,
            ProxyState::WaitingForServerInit(id) => ProxyStateView::WaitingForServerInit(id@),
            ProxyState::WaitingForServerInitHidden(
                id,
            ) => ProxyStateView::WaitingForServerInitHidden(id@),
            ProxyState::WaitingForClientInitialized => ProxyStateView::WaitingForClientInitialized,
        }
    }
}

impl Clone for ProxyState {
    fn clone(&self) -> (copy: Self)
        ensures
            copy@ == self@,
    {
        match self {
            ProxyState::Connecting => ProxyState::Connecting,
            ProxyState::Connected => ProxyState::Connected,
            ProxyState::Disconnected => ProxyState::Disconnected,
            ProxyState::WaitingForClientInit => ProxyState::WaitingForClientInit,
            ProxyState::WaitingForServerInit(id) => ProxyState::WaitingForServerInit(id.clone()),
            ProxyState::WaitingForServerInitHidden(id) => ProxyState::WaitingForServerInitHidden(
                id.clone(),
            ),
            ProxyState::WaitingForClientInitialized => ProxyState::WaitingForClientInitialized,
        }
    }
}

impl ProxyState {
    /// Whether there is no backend: it has never come up yet, or it was up and died.
    pub fn is_offline(&self) -> (r: bool)
        ensures
            r == self@.is_offline(),
    {
        matches!(self, ProxyState::Connecting | ProxyState::Disconnected)
    }
}

/// Timers to start, each by its delay in seconds.
#[derive(Debug, Clone, Copy, PartialEq, Eq)]
pub struct Timers {
    /// When to call [`AppState::handle_timer_signal`].
    pub flush_in: Option<u64>,
    /// When to call [`AppState::handle_reconnect_signal`].
    pub reconnect_in: Option<u64>,
}

/// What to do with a message that arrived while there is no backend.
#[derive(Debug)]
pub enum OfflineAction {
    /// Nothing is sent.
    Nothing,
    /// Send this message to the client; a failure to send it is no error.
    Reply(ServerMessage),
    /// Tell the client, by an error with the code [`DISCONNECTED_ERROR_CODE`], that the
    /// request with this identifier is not served.
    ReplyDisconnected(RequestId),
}

impl View for OfflineAction {
    type V = OfflineActionView;

    open spec fn view(&self) -> OfflineActionView {
        match self {
            OfflineAction::Nothing => OfflineActionView::Nothing,
            OfflineAction::Reply(message) => OfflineActionView::Reply(message@),
            OfflineAction::ReplyDisconnected(id) => OfflineActionView::ReplyDisconnected(id@),
        }
    }
}

/// The proxy is not offline, so a message has to go to the backend.
#[derive(Debug, Clone, Copy, PartialEq, Eq)]
pub struct NotOffline;

/// What to do after a message of the backend.
#[derive(Debug)]
pub enum SseAction<P> {
    /// Nothing; go on.
    Skip,
    /// The transport is gone: start these timers and go on.
    Reconnect(Timers),
    /// Send `notifications/initialized` to the backend and report by
    /// [`AppState::handshake_completed`] whether it was sent.
    CompleteHandshake,
    /// Write the cache file, where there is one to write, and send the message to the
    /// client; go on if it was sent, else stop.
    Forward { message: ServerMessage, write: Option<CacheWrite<P>> },
}

impl<P> SseAction<P> {
    /// Whether this is what a message of the backend leads to, with the cache file of
    /// the tools that the message lists.
    pub open spec fn carries_out(
        self,
        outcome: BackendOutcome,
        dir: Option<CacheDir<P>>,
        url: Seq<char>,
    ) -> bool {
        match outcome {
            BackendOutcome::Skip => self is Skip,
            BackendOutcome::CompleteHandshake => self is CompleteHandshake,
            BackendOutcome::Forward(sent) => {
                &&& self matches SseAction::Forward { message, write }
                &&& message@ == sent
                &&& crate::cache::is_write_of(write, dir, url, sent.listed_tools())
            },
        }
    }
}

/// What to do after the handshake of a reconnected backend.
#[derive(Debug, Clone, Copy, PartialEq, Eq)]
pub enum HandshakeAction {
    /// Send what was buffered to the backend.
    ProcessBuffered,
    /// The transport is gone: start these timers.
    Reconnect(Timers),
}

/// What to do after a try to connect.
#[derive(Debug, Clone, Copy, PartialEq, Eq)]
pub enum ReconnectAction {
    /// Replay the client's `initialize` request on the new transport.
    Handshake,
    /// The new transport is ready for the client's own `initialize` request.
    Ready,
    /// Try again after this many seconds, where a timer is to be started.
    Retry(Option<u64>),
    /// Answer what is buffered with errors.
    FlushBuffer,
}

/// What to do once a reconnect signal has been handled.
#[derive(Debug, Clone, Copy, PartialEq, Eq)]
pub enum LoopAction {
    Continue,
    Stop,
    /// Answer what is buffered with errors, then stop.
    FlushAndStop,
}

/// The code of the error that a request gets while the backend is gone.
pub const DISCONNECTED_ERROR_CODE: i32 = -32010;

/// The code of the error that a request gets where it cannot be sent to the backend.
pub const TRANSPORT_SEND_ERROR_CODE: i32 = -32011;

/// Application state for the proxy
pub struct AppState {
    /// URL of the SSE server
    pub url: String,
    /// Maximum time to try reconnecting in seconds (None = infinity)
    pub max_disconnected_time: Option<u64>,
    /// Override protocol version
    pub override_protocol_version: Option<ProtocolVersion>,
    /// When we were disconnected
    pub disconnected_since: Option<u64>,
    /// Current state of the application
    pub state: ProxyState,
    /// Number of connection attempts
    pub connect_tries: u32,
    /// The initialization message (for reconnection)
    pub init_message: Option<ClientMessage>,
    /// Map of generated IDs to original IDs
    pub id_map: StringHashMap<RequestId>,
    /// Buffer for holding messages during reconnection
    pub in_buf: Vec<ClientMessage>,
    /// Buffer mode (store or fail)
    pub buf_mode: BufferMode,
    /// Whether a flush timer is in progress
    pub flush_timer_active: bool,
    /// Whether somebody waits for reconnect events
    pub reconnect_tx: bool,
    /// Whether somebody waits for timer events
    pub timer_tx: bool,
    /// Whether reconnect is already scheduled
    pub reconnect_scheduled: bool,
    /// Whether the transport is still valid
    pub transport_valid: bool,
    /// Time of last heartbeat check
    pub last_heartbeat: u64,
    /// Cached `tools/list` result, known at startup and refreshed whenever the backend
    /// returns a fresh `tools/list` response. Used to answer client `tools/list`
    /// requests when the backend is unreachable.
    pub tools_cache: Option<ListToolsResult>,
    /// The version that the proxy gives itself
    pub proxy_version: String,
}

impl View for AppState {
    type V = AppStateView;

    open spec fn view(&self) -> AppStateView {
        AppStateView {
            url: self.url@,
            max_disconnected_time: self.max_disconnected_time,
            override_protocol_version: match self.override_protocol_version {
                Some(version) => Some(version@),
                None => None,
            },
            disconnected_since: self.disconnected_since,
            state: self.state@,
            connect_tries: self.connect_tries as nat,
            init_message: match self.init_message {
                Some(message) => Some(message@),
                None => None,
            },
            id_map: self.id_map@.map_values(|id: RequestId| id@),
            in_buf: self.in_buf@.map_values(|message: ClientMessage| message@),
            buf_mode: self.buf_mode,
            flush_timer_active: self.flush_timer_active,
            reconnect_tx: self.reconnect_tx,
            timer_tx: self.timer_tx,
            reconnect_scheduled: self.reconnect_scheduled,
            transport_valid: self.transport_valid,
            last_heartbeat: self.last_heartbeat,
            tools_cache: crate::message::tools_view(self.tools_cache),
            proxy_version: self.proxy_version@,
        }
    }
}

/// The tools that the proxy knows at startup: those given inline, else those of the
/// cache file.
pub fn startup_tools(inline: Option<ListToolsResult>, cached: Option<ListToolsResult>) -> (tools:
    Option<ListToolsResult>)
    ensures
        tools == (if inline is Some {
            inline
        } else {
            cached
        }),
{
    match inline {
        Some(tools) => Some(tools),
        None => cached,
    }
}

/// Build an `initialize` response the proxy can send without a live backend.
///
/// It advertises `tools.listChanged: true` so well-behaved clients know to refresh on
/// the eventual `notifications/tools/list_changed` emission.
pub fn local_initialize_response(
    id: RequestId,
    override_protocol_version: &Option<ProtocolVersion>,
    proxy_version: &str,
) -> (response: ServerMessage)
    ensures
        response@ == (crate::message::ServerMessageView::Response {
            id: id@,
            result: crate::message::ResultBodyView::Initialize(
                crate::model::local_initialize_result(
                    match *override_protocol_version {
                        Some(version) => Some(version@),
                        None => None,
                    },
                    proxy_version@,
                ),
            ),
        }),
{
    let protocol_version = match override_protocol_version {
        Some(version) => version.clone(),
        None => ProtocolVersion { text: OFFLINE_PROTOCOL_VERSION.to_string() },
    };
    let capabilities = Capabilities {
        tools: Some(ToolsCapability { list_changed: Some(true) }),
        others: None,
    };
    let server_info = Implementation {
        name: OFFLINE_SERVER_NAME.to_string(),
        title: None,
        version: proxy_version.to_string(),
        icons: None,
        website_url: None,
    };
    let instructions = Some(OFFLINE_INSTRUCTIONS.to_string());
    let result = InitializeResult { protocol_version, capabilities, server_info, instructions };
    ServerMessage::Response { id, result: ResultBody::Initialize(result) }
}

impl AppState {
    /// A proxy for the backend at `url`, without a transport. Tools given inline take
    /// precedence over those of the cache file; inline JSON that holds no tools counts
    /// as none given.
    pub fn new(
        url: String,
        max_disconnected_time: Option<u64>,
        override_protocol_version: Option<ProtocolVersion>,
        inline_tools_json: Option<&str>,
        cached: Option<ListToolsResult>,
        proxy_version: String,
        now: u64,
    ) -> (s: Self)
        ensures
            s@ == (AppStateView {
                url: url@,
                max_disconnected_time,
                override_protocol_version: match override_protocol_version {
                    Some(version) => Some(version@),
                    None => None,
                },
                disconnected_since: None,
                state: ProxyStateView::Connecting,
                connect_tries: 0,
                init_message: None,
                id_map: Map::empty(),
                in_buf: Seq::empty(),
                buf_mode: BufferMode::Store,
                flush_timer_active: false,
                reconnect_tx: false,
                timer_tx: false,
                reconnect_scheduled: false,
                transport_valid: false,
                last_heartbeat: now,
                tools_cache: crate::model::startup_choice(
                    match inline_tools_json {
                        Some(json) => crate::cache::inline_tools_in(json@),
                        None => None,
                    },
                    crate::message::tools_view(cached),
                ),
                proxy_version: proxy_version@,
            }),
            s@.wf(),
    {
        let inline = match inline_tools_json {
            Some(json) => parse_inline(json),
            None => None,
        };
        let s = AppState {
            tools_cache: startup_tools(inline, cached),
            url,
            max_disconnected_time,
            override_protocol_version,
            disconnected_since: None,
            state: ProxyState::Connecting,
            connect_tries: 0,
            init_message: None,
            id_map: StringHashMap::new(),
            in_buf: Vec::new(),
            buf_mode: BufferMode::Store,
            flush_timer_active: false,
            reconnect_tx: false,
            timer_tx: false,
            reconnect_scheduled: false,
            transport_valid: false,
            last_heartbeat: now,
            proxy_version,
        };
        assert(s@.id_map =~= Map::empty());
        assert(s@.in_buf =~= Seq::empty());
        s
    }

    /// The backend is connected.
    pub fn connected(&mut self, now: u64)
        ensures
            final(self)@ == old(self)@.connected(now),
            old(self)@.wf() ==> final(self)@.wf(),
    {
        self.state = ProxyState::Connected;
        self.connect_tries = 0;
        self.disconnected_since = None;
        self.buf_mode = BufferMode::Store;
        self.reconnect_scheduled = false;
        self.transport_valid = true;
        self.last_heartbeat = now;
    }

    /// The backend is found gone.
    pub fn disconnected(&mut self, now: u64)
        requires
            old(self).connect_tries < u32::MAX,
        ensures
            final(self)@ == old(self)@.disconnected(now),
            old(self)@.wf() ==> final(self)@.wf(),
    {
        if !matches!(self.state, ProxyState::Disconnected) {
            self.state = ProxyState::Disconnected;
            self.disconnected_since = Some(now);
            self.buf_mode = BufferMode::Store;
            self.transport_valid = false;
        }
        self.connect_tries += 1;
    }

    /// Whether the proxy has been disconnected for more than the time it is given.
    pub fn disconnected_too_long(&self, now: u64) -> (r: bool)
        ensures
            r == self@.disconnected_too_long(now),
    {
        match (self.max_disconnected_time, self.disconnected_since) {
            (Some(max_time), Some(since)) => now.saturating_sub(since) / NANOS_PER_SEC > max_time,
            _ => false,
        }
    }

    /// Seconds before the next try to connect: two to the number of tries, eight at
    /// most.
    pub fn get_backoff_duration(&self) -> (secs: u64)
        ensures
            secs == self@.backoff_secs(),
    {
        proof {
            vstd::arithmetic::power2::lemma2_to64();
        }
        match self.connect_tries {
            0 => 1,
            1 => 2,
            2 => 4,
            _ => 8,
        }
    }

    /// Asks for a reconnect. Returns the delay of the timer to start, if any: none is
    /// started while one is scheduled, or where nobody waits for it.
    pub fn schedule_reconnect(&mut self) -> (delay: Option<u64>)
        ensures
            final(self)@ == old(self)@.schedule_reconnect(),
            delay == old(self)@.reconnect_delay(),
            old(self)@.wf() ==> final(self)@.wf(),
    {
        if !self.reconnect_scheduled {
            if self.reconnect_tx {
                let backoff: u64 = self.get_backoff_duration();
                self.reconnect_scheduled = true;
                return Some(backoff);
            }
        }
        None
    }

    /// Asks for a flush timer. Returns its delay if it is to be started: it is not while
    /// one runs, or where nobody waits for it.
    pub fn schedule_flush_timer(&mut self) -> (delay: Option<u64>)
        ensures
            final(self)@ == old(self)@.schedule_flush_timer(),
            delay == old(self)@.flush_delay(),
            old(self)@.wf() ==> final(self)@.wf(),
    {
        if !self.flush_timer_active {
            if self.timer_tx {
                self.flush_timer_active = true;
                return Some(FLUSH_DELAY_SECS);
            }
        }
        None
    }

    /// A sign of life of the backend.
    pub fn update_heartbeat(&mut self, now: u64)
        ensures
            final(self)@ == old(self)@.update_heartbeat(now),
            old(self)@.wf() ==> final(self)@.wf(),
    {
        self.last_heartbeat = now;
    }

    /// Handles common logic for fatal transport errors:
    /// Sets state to disconnected and schedules timer/reconnect.
    pub fn handle_fatal_transport_error(&mut self, now: u64) -> (timers: Timers)
        requires
            old(self)@.state is Disconnected || old(self).connect_tries < u32::MAX,
        ensures
            final(self)@ == old(self)@.fatal_transport_error(now),
            timers == old(self)@.fatal_timers(now),
            old(self)@.wf() ==> final(self)@.wf(),
    {
        if !matches!(self.state, ProxyState::Disconnected) {
            self.disconnected(now);
            let flush_in = self.schedule_flush_timer();
            let reconnect_in = self.schedule_reconnect();
            Timers { flush_in, reconnect_in }
        } else {
            Timers { flush_in: None, reconnect_in: None }
        }
    }

    /// Keeps the identifier that a request had before it is passed on as `proxy_id`.
    pub fn remember_id(&mut self, proxy_id: String, original: RequestId)
        ensures
            final(self)@ == old(self)@.remember_id(proxy_id@, original@),
            old(self)@.wf() ==> final(self)@.wf(),
    {
        self.id_map.insert(proxy_id, original);
        assert(self@.id_map =~= old(self)@.id_map.insert(proxy_id@, original@));
    }

    /// The identifier that the request answered under `current_id` had before it was
    /// passed on. It is forgotten.
    pub fn lookup_and_remove_original_id(&mut self, current_id: &RequestId) -> (original: Option<
        RequestId,
    >)
        ensures
            final(self)@ == old(self)@.forget_id(current_id@),
            match original {
                Some(id) => old(self)@.original_id(current_id@) == Some(id@),
                None => old(self)@.original_id(current_id@) is None,
            },
            old(self)@.wf() ==> final(self)@.wf(),
    {
        let lookup_key = request_id_text(current_id);
        let original = match self.id_map.get(lookup_key.as_str()) {
            Some(id) => Some(id.clone()),
            None => None,
        };
        self.id_map.remove(lookup_key.as_str());
        assert(self@.id_map =~= old(self)@.id_map.remove(current_id@.key()));
        original
    }

    /// Checks if a client message (Response or Error) has an ID corresponding to a
    /// mapped server request ID. If found, replaces the message's ID with the original
    /// server ID; otherwise the message is not to be forwarded. Requests and
    /// notifications pass as they are.
    pub fn map_client_response_error_id(&mut self, message: ClientMessage) -> (mapped: Option<
        ClientMessage,
    >)
        ensures
            final(self)@ == old(self)@.after_client_mapping(message@),
            match mapped {
                Some(m) => old(self)@.mapped_client_message(message@) == Some(m@),
                None => old(self)@.mapped_client_message(message@) is None,
            },
            old(self)@.wf() ==> final(self)@.wf(),
    {
        match message {
            ClientMessage::Response { id, result } => match self.lookup_and_remove_original_id(&id) {
                Some(original) => Some(ClientMessage::Response { id: original, result }),
                None => None,
            },
            ClientMessage::Error { id, error } => match self.lookup_and_remove_original_id(&id) {
                Some(original) => Some(ClientMessage::Error { id: original, error }),
                None => None,
            },
            other => Some(other),
        }
    }

    /// Checks if a server message (Response or Error) has an ID corresponding to a
    /// mapped client request ID. If found, replaces the message's ID with the original
    /// client ID; otherwise the message is not to be forwarded. Requests and
    /// notifications pass as they are.
    pub fn map_server_response_error_id(&mut self, message: ServerMessage) -> (mapped: Option<
        ServerMessage,
    >)
        ensures
            final(self)@ == old(self)@.after_server_mapping(message@),
            match mapped {
                Some(m) => old(self)@.mapped_server_message(message@) == Some(m@),
                None => old(self)@.mapped_server_message(message@) is None,
            },
            old(self)@.wf() ==> final(self)@.wf(),
    {
        match message {
            ServerMessage::Response { id, result } => match self.lookup_and_remove_original_id(&id) {
                Some(original) => Some(ServerMessage::Response { id: original, result }),
                None => None,
            },
            ServerMessage::Error { id, error } => match self.lookup_and_remove_original_id(&id) {
                Some(original) => Some(ServerMessage::Error { id: original, error }),
                None => None,
            },
            other => Some(other),
        }
    }

    /// The message with the protocol version that the proxy is told to name, where it is
    /// told one and the message is the response to an `initialize` request.
    pub fn maybe_overwrite_protocol_version(&self, message: ServerMessage) -> (shown: ServerMessage)
        ensures
            shown@ == self@.with_overridden_version(message@),
    {
        match &self.override_protocol_version {
            Some(protocol_version) => match message {
                ServerMessage::Response { id, result: ResultBody::Initialize(result) } => {
                    let overridden = InitializeResult {
                        protocol_version: protocol_version.clone(),
                        capabilities: result.capabilities,
                        server_info: result.server_info,
                        instructions: result.instructions,
                    };
                    ServerMessage::Response { id, result: ResultBody::Initialize(overridden) }
                },
                other => other,
            },
            None => message,
        }
    }

    /// If the incoming server message is a `tools/list` response, keeps its tools and
    /// returns what is to be saved to disk, so future sessions can answer the client
    /// before the backend is up.
    pub fn maybe_cache_tools_result<P>(
        &mut self,
        message: &ServerMessage,
        dir: Option<CacheDir<P>>,
    ) -> (write: Option<CacheWrite<P>>)
        ensures
            final(self)@ == old(self)@.cache_tools(message@),
            crate::cache::is_write_of(write, dir, old(self)@.url, message@.listed_tools()),
            old(self)@.wf() ==> final(self)@.wf(),
    {
        match message {
            ServerMessage::Response { result: ResultBody::ListTools(tools), .. } => {
                let write = save(dir, self.url.as_str(), tools);
                self.tools_cache = Some(tools.clone());
                write
            },
            _ => None,
        }
    }

    /// Whether a message is the response to the `initialize` request that the proxy waits
    /// for. Errors related to that request are no such response.
    fn is_init_response(&self, message: &ServerMessage) -> (r: bool)
        ensures
            r == self@.is_init_response(message@),
    {
        match message {
            ServerMessage::Response { id, .. } => match &self.state {
                ProxyState::WaitingForServerInit(init_request_id) => init_request_id.same(id),
                ProxyState::WaitingForServerInitHidden(init_request_id) => init_request_id.same(id),
                _ => false,
            },
            _ => false,
        }
    }

    /// Handles messages received from the SSE transport; `None` is the end of the stream.
    ///
    /// `fresh_id` is the identifier under which a request of the server goes to the
    /// client, and `dir` the directory for cache files.
    pub fn handle_sse_message<P>(
        &mut self,
        result: Option<ServerMessage>,
        fresh_id: String,
        dir: Option<CacheDir<P>>,
        now: u64,
    ) -> (action: SseAction<P>)
        requires
            result is Some || old(self)@.state is Disconnected || old(self).connect_tries
                < u32::MAX,
        ensures
            match result {
                Some(message) => {
                    let (next, outcome) = old(self)@.receive(message@, fresh_id@, now);
                    &&& final(self)@ == next
                    &&& action.carries_out(outcome, dir, old(self)@.url)
                },
                None => {
                    &&& final(self)@ == old(self)@.fatal_transport_error(now)
                    &&& action == SseAction::<P>::Reconnect(old(self)@.fatal_timers(now))
                },
            },
            old(self)@.wf() ==> final(self)@.wf(),
    {
        match result {
            Some(message) => {
                self.update_heartbeat(now);
                let forwarded = match message {
                    ServerMessage::Request { id, request } => {
                        self.remember_id(fresh_id.clone(), id);
                        ServerMessage::Request { id: RequestId::Text(fresh_id), request }
                    },
                    answer => {
                        let mapped = match self.map_server_response_error_id(answer) {
                            Some(mapped) => mapped,
                            None => return SseAction::Skip,
                        };
                        if self.is_init_response(&mapped) {
                            if matches!(self.state, ProxyState::WaitingForServerInitHidden(_)) {
                                self.connected(now);
                                return SseAction::CompleteHandshake;
                            }
                            self.state = ProxyState::WaitingForClientInitialized;
                            self.maybe_overwrite_protocol_version(mapped)
                        } else {
                            mapped
                        }
                    },
                };
                // Intercept `tools/list` responses on their way to the client so
                // subsequent sessions can serve them from disk even when the backend isn't
                // up yet.
                let write = self.maybe_cache_tools_result(&forwarded, dir);
                SseAction::Forward { message: forwarded, write }
            },
            None => SseAction::Reconnect(self.handle_fatal_transport_error(now)),
        }
    }

    /// Goes on after [`SseAction::CompleteHandshake`]: `sent` says whether the
    /// notification reached the backend.
    pub fn handshake_completed(&mut self, sent: bool, now: u64) -> (action: HandshakeAction)
        requires
            sent || old(self)@.state is Disconnected || old(self).connect_tries < u32::MAX,
        ensures
            sent ==> final(self)@ == old(self)@ && action is ProcessBuffered,
            !sent ==> {
                &&& final(self)@ == old(self)@.fatal_transport_error(now)
                &&& action == HandshakeAction::Reconnect(old(self)@.fatal_timers(now))
            },
            old(self)@.wf() ==> final(self)@.wf(),
    {
        if sent {
            HandshakeAction::ProcessBuffered
        } else {
            HandshakeAction::Reconnect(self.handle_fatal_transport_error(now))
        }
    }

    /// Handles messages received from stdin: the message to process, or `None` to stop
    /// where the stream has ended or cannot be read.
    pub fn handle_stdin_message<E>(&self, msg: Option<Result<ClientMessage, E>>) -> (message:
        Option<ClientMessage>)
        ensures
            message == (match msg {
                Some(Ok(m)) => Some(m),
                _ => None,
            }),
    {
        match msg {
            Some(Ok(message)) => Some(message),
            Some(Err(_)) => None,
            None => None,
        }
    }

    /// Handles a message of the client while there is no backend, whether it has never
    /// come up yet or was up and died: responds to `initialize`, `ping` and `tools/list`
    /// locally and buffers everything else until the backend arrives.
    pub fn maybe_handle_message_while_disconnected(&mut self, message: ClientMessage) -> (action:
        Result<OfflineAction, NotOffline>)
        ensures
            match action {
                Ok(a) => {
                    &&& old(self)@.state.is_offline()
                    &&& final(self)@ == old(self)@.after_offline_message(message@)
                    &&& a@ == old(self)@.offline_action(message@)
                },
                Err(_) => !old(self)@.state.is_offline() && final(self)@ == old(self)@,
            },
            old(self)@.wf() ==> final(self)@.wf(),
    {
        if !self.state.is_offline() {
            return Err(NotOffline);
        }
        match message {
            ClientMessage::Request { id, request } => match request {
                RequestBody::Ping(_) => {
                    Ok(
                        OfflineAction::Reply(
                            ServerMessage::Response { id, result: ResultBody::Empty },
                        ),
                    )
                },
                RequestBody::Initialize(_) => {
                    let response = local_initialize_response(
                        id.clone(),
                        &self.override_protocol_version,
                        self.proxy_version.as_str(),
                    );
                    // Remember the full init message so that when the backend eventually
                    // connects, the hidden-init flow can replay it.
                    if self.init_message.is_none() {
                        self.init_message = Some(ClientMessage::Request { id, request });
                    }
                    Ok(OfflineAction::Reply(response))
                },
                RequestBody::ListTools(_) => {
                    let tools = match &self.tools_cache {
                        Some(cached) => cached.clone(),
                        None => ListToolsResult { tools: Vec::new(), next_cursor: None },
                    };
                    Ok(
                        OfflineAction::Reply(
                            ServerMessage::Response { id, result: ResultBody::ListTools(tools) },
                        ),
                    )
                },
                RequestBody::Other(_) => {
                    if self.buf_mode == BufferMode::Store {
                        self.buffer(ClientMessage::Request { id, request });
                        Ok(OfflineAction::Nothing)
                    } else {
                        Ok(OfflineAction::ReplyDisconnected(id))
                    }
                },
            },
            ClientMessage::Notification { notification } => {
                match notification {
                    NotificationBody::Initialized(_) => {
                        // Replayed by the hidden handshake when the backend connects.
                    },
                    NotificationBody::Other(_) => {
                        if self.buf_mode == BufferMode::Store {
                            self.buffer(ClientMessage::Notification { notification });
                        }
                    },
                }
                Ok(OfflineAction::Nothing)
            },
            other => {
                if self.buf_mode == BufferMode::Store {
                    self.buffer(other);
                }
                Ok(OfflineAction::Nothing)
            },
        }
    }

    /// Keeps a message for the backend, after those that are kept already.
    fn buffer(&mut self, message: ClientMessage)
        ensures
            final(self)@ == (AppStateView {
                in_buf: old(self)@.in_buf.push(message@),
                ..old(self)@
            }),
    {
        self.in_buf.push(message);
        assert(self@.in_buf =~= old(self)@.in_buf.push(message@));
    }

    /// Handles the reconnect signal: whether to try to connect, and report by
    /// [`AppState::reconnect_attempted`]. Fires for both the initial connection and every
    /// subsequent reconnect, so it does in either offline state.
    pub fn handle_reconnect_signal(&mut self) -> (attempt: bool)
        ensures
            final(self)@ == (AppStateView { reconnect_scheduled: false, ..old(self)@ }),
            attempt == old(self)@.state.is_offline(),
            old(self)@.wf() ==> final(self)@.wf(),
    {
        self.reconnect_scheduled = false;
        self.state.is_offline()
    }

    /// Goes on after a try to connect.
    pub fn reconnect_attempted(
        &mut self,
        outcome: Result<(), ReconnectFailureReason>,
        now: u64,
    ) -> (action: ReconnectAction)
        requires
            outcome is Ok || old(self).connect_tries < u32::MAX,
        ensures
            final(self)@ == old(self)@.after_reconnect(outcome, now),
            action == old(self)@.reconnect_action(outcome, now),
            old(self)@.wf() ==> final(self)@.wf(),
    {
        match outcome {
            Ok(_) => {
                self.transport_valid = true;
                // The handshake re-uses the client's stored init_message (if any). On
                // initial connect with no client-init-yet, there's nothing to replay: the
                // client's eventual `initialize` will flow through normally.
                if self.init_message.is_some() {
                    ReconnectAction::Handshake
                } else {
                    self.state = ProxyState::WaitingForClientInit;
                    ReconnectAction::Ready
                }
            },
            Err(reason) => {
                self.connect_tries += 1;
                match reason {
                    ReconnectFailureReason::TimeoutExceeded => ReconnectAction::FlushBuffer,
                    ReconnectFailureReason::ConnectionFailed(_) => {
                        if !self.disconnected_too_long(now) {
                            ReconnectAction::Retry(self.schedule_reconnect())
                        } else {
                            ReconnectAction::FlushBuffer
                        }
                    },
                }
            },
        }
    }

    /// What the main loop does once a reconnect signal has been handled: it gives up
    /// where the proxy has been disconnected for too long.
    pub fn after_reconnect_signal(&self, now: u64) -> (action: LoopAction)
        ensures
            action == (if !self@.disconnected_too_long(now) {
                LoopAction::Continue
            } else if self@.in_buf.len() > 0 && self@.buf_mode is Store {
                LoopAction::FlushAndStop
            } else {
                LoopAction::Stop
            }),
    {
        if self.disconnected_too_long(now) {
            if self.in_buf.len() > 0 && self.buf_mode == BufferMode::Store {
                LoopAction::FlushAndStop
            } else {
                LoopAction::Stop
            }
        } else {
            LoopAction::Continue
        }
    }

    /// Handles the flush timer signal: whether to answer what is buffered with errors.
    pub fn handle_timer_signal(&mut self) -> (flush: bool)
        ensures
            final(self)@ == (AppStateView { flush_timer_active: false, ..old(self)@ }),
            flush == (old(self)@.state is Disconnected),
            old(self)@.wf() ==> final(self)@.wf(),
    {
        self.flush_timer_active = false;
        matches!(self.state, ProxyState::Disconnected)
    }

    /// Handles the heartbeat interval tick: whether to check the backend, and report by
    /// [`AppState::heartbeat_checked`].
    pub fn handle_heartbeat_tick(&self) -> (check: bool)
        ensures
            check == (self@.state is Connected),
    {
        matches!(self.state, ProxyState::Connected)
    }

    /// Goes on after a check of the backend, which found it alive, found it gone or was
    /// not due. Returns the timers to start, if it is gone.
    pub fn heartbeat_checked(&mut self, alive: Option<bool>, now: u64) -> (timers: Option<Timers>)
        requires
            alive != Some(false) || old(self)@.state is Disconnected || old(self).connect_tries
                < u32::MAX,
        ensures
            match alive {
                Some(true) => {
                    &&& final(self)@ == old(self)@.update_heartbeat(now)
                    &&& timers is None
                },
                Some(false) => {
                    &&& final(self)@ == old(self)@.fatal_transport_error(now)
                    &&& timers == Some(old(self)@.fatal_timers(now))
                },
                None => final(self)@ == old(self)@ && timers is None,
            },
            old(self)@.wf() ==> final(self)@.wf(),
    {
        match alive {
            Some(true) => {
                self.update_heartbeat(now);
                None
            },
            Some(false) => Some(self.handle_fatal_transport_error(now)),
            None => None,
        }
    }

    /// Whether messages of the backend are to be read.
    pub fn reads_backend(&self, has_transport: bool) -> (r: bool)
        ensures
            r == (self@.transport_valid && has_transport),
    {
        self.transport_valid && has_transport
    }
}

} // verus!
