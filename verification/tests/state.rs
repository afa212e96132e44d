use mcp_proxy::cache::{cache_dir, load, CacheDir};
use mcp_proxy::message::{
    Capabilities, ClientMessage, Implementation, InitializeResult, ListToolsResult,
    NotificationBody, ProtocolVersion, RequestBody, RequestId, ResultBody, ServerMessage,
    ToolsCapability,
};
use mcp_proxy::state::{
    local_initialize_response, startup_tools, AppState, BufferMode, HandshakeAction, LoopAction,
    NotOffline, OfflineAction, ProxyState, ReconnectAction, ReconnectFailureReason, SseAction,
    Timers, DISCONNECTED_ERROR_CODE, TRANSPORT_SEND_ERROR_CODE,
};

const SEC: u64 = 1_000_000_000;

fn proxy() -> AppState {
    let mut s = AppState::new(
        "http://localhost:9712/mcp".to_string(),
        Some(10),
        None,
        None,
        None,
        "1.2.3".to_string(),
        0,
    );
    s.reconnect_tx = true;
    s.timer_tx = true;
    s
}

fn text(t: &str) -> RequestId {
    RequestId::Text(t.to_string())
}

fn tool(name: &str) -> rmcp::model::Tool {
    rmcp::model::Tool::new(name.to_string(), "d", serde_json::Map::new())
}

fn tools(names: &[&str]) -> ListToolsResult {
    ListToolsResult { tools: names.iter().map(|n| tool(n)).collect(), next_cursor: None }
}

fn dir() -> Option<CacheDir<&'static str>> {
    cache_dir(Some("/x"), false, None)
}

fn ping(id: RequestId) -> ClientMessage {
    let body = rmcp::model::ClientRequest::PingRequest(Default::default());
    ClientMessage::Request { id, request: RequestBody::Ping(body) }
}

fn initialize(id: RequestId) -> ClientMessage {
    let param = rmcp::model::InitializeRequestParam::default();
    let body = rmcp::model::ClientRequest::InitializeRequest(rmcp::model::Request::new(param));
    ClientMessage::Request { id, request: RequestBody::Initialize(body) }
}

fn list_tools(id: RequestId) -> ClientMessage {
    let body = rmcp::model::ClientRequest::ListToolsRequest(Default::default());
    ClientMessage::Request { id, request: RequestBody::ListTools(body) }
}

fn list_prompts(id: RequestId) -> ClientMessage {
    let body = rmcp::model::ClientRequest::ListPromptsRequest(Default::default());
    ClientMessage::Request { id, request: RequestBody::Other(body) }
}

fn initialized() -> ClientMessage {
    let body = rmcp::model::ClientNotification::InitializedNotification(Default::default());
    ClientMessage::Notification { notification: NotificationBody::Initialized(body) }
}

fn roots_changed() -> ClientMessage {
    let body = rmcp::model::ClientNotification::RootsListChangedNotification(Default::default());
    ClientMessage::Notification { notification: NotificationBody::Other(body) }
}

fn client_response(id: RequestId) -> ClientMessage {
    ClientMessage::Response { id, result: rmcp::model::ClientResult::empty(()) }
}

fn error_data() -> rmcp::model::ErrorData {
    rmcp::model::ErrorData::internal_error("broken", None)
}

fn init_result(version: &str) -> InitializeResult {
    InitializeResult {
        protocol_version: ProtocolVersion { text: version.to_string() },
        capabilities: Capabilities { tools: None, others: None },
        server_info: Implementation {
            name: "backend".to_string(),
            title: None,
            version: "9".to_string(),
            icons: None,
            website_url: None,
        },
        instructions: None,
    }
}

fn reply(action: Result<OfflineAction, NotOffline>) -> (RequestId, ResultBody) {
    match action {
        Ok(OfflineAction::Reply(ServerMessage::Response { id, result })) => (id, result),
        other => panic!("{:?}", other),
    }
}

#[test]
fn new_proxy_is_connecting() {
    let s = AppState::new("u".to_string(), None, None, None, None, "1".to_string(), 7);
    assert_eq!(s.state, ProxyState::Connecting);
    assert_eq!(s.url, "u");
    assert_eq!(s.connect_tries, 0);
    assert_eq!(s.buf_mode, BufferMode::Store);
    assert_eq!(s.last_heartbeat, 7);
    assert!(s.id_map.is_empty() && s.in_buf.is_empty());
    assert!(s.tools_cache.is_none() && s.init_message.is_none());
    assert!(!s.transport_valid && !s.reconnect_scheduled && !s.flush_timer_active);
}

#[test]
fn inline_tools_take_precedence_over_the_cache() {
    let new = |inline: Option<&str>, cached: Option<ListToolsResult>| {
        AppState::new("u".to_string(), None, None, inline, cached, "1".to_string(), 0).tools_cache
    };
    let inline = r#"[{"name":"inline","inputSchema":{}}]"#;
    let both = new(Some(inline), Some(tools(&["cached"]))).unwrap();
    assert_eq!(both.tools[0].name, "inline");
    let broken = new(Some("{"), Some(tools(&["cached"]))).unwrap();
    assert_eq!(broken.tools[0].name, "cached");
    assert_eq!(new(None, Some(tools(&["cached"]))).unwrap().tools[0].name, "cached");
    assert_eq!(new(Some(inline), None).unwrap().tools[0].name, "inline");
    assert!(new(Some("{"), None).is_none());
    assert!(startup_tools(None, None).is_none());
    let picked = startup_tools(Some(tools(&["a"])), Some(tools(&["b"]))).unwrap();
    assert_eq!(picked.tools[0].name, "a");
}

#[test]
fn connected_and_disconnected_switch_the_state() {
    let mut s = proxy();
    s.connected(3);
    assert_eq!(s.state, ProxyState::Connected);
    assert!(s.transport_valid);
    s.buf_mode = BufferMode::Fail;
    s.disconnected(4);
    assert_eq!(s.state, ProxyState::Disconnected);
    assert_eq!(s.disconnected_since, Some(4));
    assert_eq!((s.connect_tries, s.buf_mode), (1, BufferMode::Store));
    assert!(!s.transport_valid);
    s.buf_mode = BufferMode::Fail;
    s.disconnected(5);
    assert_eq!(s.disconnected_since, Some(4));
    assert_eq!((s.connect_tries, s.buf_mode), (2, BufferMode::Fail));
    s.connected(6);
    assert_eq!((s.connect_tries, s.disconnected_since), (0, None));
    assert_eq!(s.last_heartbeat, 6);
}

#[test]
fn disconnected_too_long_counts_whole_seconds() {
    let mut s = proxy();
    assert!(!s.disconnected_too_long(100 * SEC));
    s.disconnected(5);
    assert!(!s.disconnected_too_long(0));
    assert!(!s.disconnected_too_long(10 * SEC + 5));
    assert!(!s.disconnected_too_long(11 * SEC + 4));
    assert!(s.disconnected_too_long(11 * SEC + 5));
    s.max_disconnected_time = None;
    assert!(!s.disconnected_too_long(u64::MAX));
}

#[test]
fn backoff_doubles_up_to_eight_seconds() {
    let mut s = proxy();
    let mut seen = Vec::new();
    for tries in 0..6 {
        s.connect_tries = tries;
        seen.push(s.get_backoff_duration());
    }
    assert_eq!(seen, vec![1, 2, 4, 8, 8, 8]);
    s.connect_tries = u32::MAX;
    assert_eq!(s.get_backoff_duration(), 8);
}

#[test]
fn timers_are_scheduled_once() {
    let mut s = proxy();
    assert_eq!(s.schedule_reconnect(), Some(1));
    assert_eq!(s.schedule_reconnect(), None);
    assert_eq!(s.schedule_flush_timer(), Some(20));
    assert_eq!(s.schedule_flush_timer(), None);
    let mut unattached = proxy();
    unattached.reconnect_tx = false;
    unattached.timer_tx = false;
    assert_eq!(unattached.schedule_reconnect(), None);
    assert_eq!(unattached.schedule_flush_timer(), None);
    assert!(!unattached.reconnect_scheduled && !unattached.flush_timer_active);
}

#[test]
fn fatal_transport_error_is_handled_once() {
    let mut s = proxy();
    s.connected(1);
    let timers = s.handle_fatal_transport_error(2);
    assert_eq!(timers, Timers { flush_in: Some(20), reconnect_in: Some(2) });
    let again = s.handle_fatal_transport_error(3);
    assert_eq!(again, Timers { flush_in: None, reconnect_in: None });
    assert_eq!(s.disconnected_since, Some(2));
    assert_eq!(s.connect_tries, 1);
}

#[test]
fn reconnection_keeps_what_is_held() {
    let mut s = proxy();
    s.tools_cache = Some(tools(&["a"]));
    s.remember_id("p".to_string(), RequestId::Number(1));
    let _ = s.maybe_handle_message_while_disconnected(list_prompts(text("x")));
    s.connected(1);
    s.handle_fatal_transport_error(2);
    s.connected(3);
    assert_eq!(s.in_buf.len(), 1);
    assert_eq!(s.id_map.len(), 1);
    assert_eq!(s.tools_cache.unwrap().tools.len(), 1);
    assert!(s.flush_timer_active && !s.reconnect_scheduled);
}

#[test]
fn offline_ping_is_answered() {
    let mut s = proxy();
    let (id, result) = reply(s.maybe_handle_message_while_disconnected(ping(RequestId::Number(4))));
    assert_eq!(id, RequestId::Number(4));
    assert!(matches!(result, ResultBody::Empty));
    assert!(s.in_buf.is_empty());
}

#[test]
fn offline_initialize_is_answered_and_the_first_is_kept() {
    let mut s = proxy();
    let (id, result) = reply(s.maybe_handle_message_while_disconnected(initialize(text("i"))));
    assert_eq!(id, text("i"));
    let ResultBody::Initialize(result) = result else { panic!("no initialize result") };
    assert_eq!(result.protocol_version.text, "2025-03-26");
    assert_eq!(result.server_info.name, "mcp-proxy-cached");
    assert_eq!(result.server_info.version, "1.2.3");
    assert_eq!(result.server_info.title, None);
    assert!(matches!(
        result.capabilities,
        Capabilities { tools: Some(ToolsCapability { list_changed: Some(true) }), others: None }
    ));
    assert_eq!(
        result.instructions.unwrap(),
        "Proxy responding before backend has connected. \
         tools/list is served from disk cache; tool calls buffer until the backend is ready."
    );
    assert_eq!(s.state, ProxyState::Connecting);
    let _ = reply(s.maybe_handle_message_while_disconnected(initialize(text("second"))));
    match s.init_message {
        Some(ClientMessage::Request { id, request: RequestBody::Initialize(_) }) => {
            assert_eq!(id, text("i"))
        }
        other => panic!("{:?}", other),
    }
    assert!(s.in_buf.is_empty());
}

#[test]
fn local_initialize_response_names_the_overriding_version() {
    let version = Some(ProtocolVersion { text: "2024-11-05".to_string() });
    match local_initialize_response(RequestId::Number(1), &version, "7") {
        ServerMessage::Response { id, result: ResultBody::Initialize(result) } => {
            assert_eq!(id, RequestId::Number(1));
            assert_eq!(result.protocol_version.text, "2024-11-05");
            assert_eq!(result.server_info.version, "7");
        }
        other => panic!("{:?}", other),
    }
}

#[test]
fn offline_tools_come_from_the_cache() {
    let mut s = proxy();
    let (id, result) = reply(s.maybe_handle_message_while_disconnected(list_tools(text("a"))));
    assert_eq!(id, text("a"));
    let ResultBody::ListTools(empty) = result else { panic!("no tools") };
    assert!(empty.tools.is_empty() && empty.next_cursor.is_none());
    let mut cached = tools(&["one", "two"]);
    cached.next_cursor = Some("c".to_string());
    s.tools_cache = Some(cached);
    for _ in 0..2 {
        let (_, result) = reply(s.maybe_handle_message_while_disconnected(list_tools(text("b"))));
        let ResultBody::ListTools(listed) = result else { panic!("no tools") };
        assert_eq!(listed.tools, vec![tool("one"), tool("two")]);
        assert_eq!(listed.next_cursor, Some("c".to_string()));
    }
}

#[test]
fn offline_messages_are_buffered_in_order() {
    let mut s = proxy();
    s.disconnected(1);
    let messages = vec![
        list_prompts(text("first")),
        ping(text("p")),
        initialized(),
        roots_changed(),
        client_response(text("answer")),
        ClientMessage::Error { id: text("failed"), error: error_data() },
        list_prompts(RequestId::Number(2)),
    ];
    for message in messages {
        assert!(s.maybe_handle_message_while_disconnected(message).is_ok());
    }
    assert_eq!(s.in_buf.len(), 5);
    assert!(matches!(&s.in_buf[0], ClientMessage::Request { id, .. } if *id == text("first")));
    assert!(matches!(&s.in_buf[1], ClientMessage::Notification { .. }));
    assert!(matches!(&s.in_buf[2], ClientMessage::Response { .. }));
    assert!(matches!(&s.in_buf[3], ClientMessage::Error { .. }));
    assert!(
        matches!(&s.in_buf[4], ClientMessage::Request { id, .. } if *id == RequestId::Number(2))
    );
}

#[test]
fn failing_proxy_refuses_requests_and_drops_the_rest() {
    let mut s = proxy();
    s.disconnected(1);
    s.buf_mode = BufferMode::Fail;
    match s.maybe_handle_message_while_disconnected(list_prompts(text("r"))) {
        Ok(OfflineAction::ReplyDisconnected(id)) => assert_eq!(id, text("r")),
        other => panic!("{:?}", other),
    }
    for message in [roots_changed(), client_response(text("a"))] {
        assert!(matches!(
            s.maybe_handle_message_while_disconnected(message),
            Ok(OfflineAction::Nothing)
        ));
    }
    assert!(s.in_buf.is_empty());
    let _ = reply(s.maybe_handle_message_while_disconnected(ping(text("p"))));
    assert_eq!(DISCONNECTED_ERROR_CODE, -32010);
    assert_eq!(TRANSPORT_SEND_ERROR_CODE, -32011);
}

#[test]
fn a_proxy_that_is_not_offline_handles_no_message_itself() {
    let mut s = proxy();
    s.connected(1);
    assert!(matches!(s.maybe_handle_message_while_disconnected(ping(text("p"))), Err(NotOffline)));
    s.state = ProxyState::WaitingForClientInit;
    assert!(matches!(
        s.maybe_handle_message_while_disconnected(list_prompts(text("p"))),
        Err(NotOffline)
    ));
    assert!(s.in_buf.is_empty());
}

#[test]
fn server_request_is_answered_once() {
    let mut s = proxy();
    s.connected(1);
    let request = rmcp::model::ServerRequest::PingRequest(Default::default());
    let message = ServerMessage::Request { id: RequestId::Number(11), request };
    match s.handle_sse_message(Some(message), "fresh".to_string(), dir(), 9) {
        SseAction::Forward { message: ServerMessage::Request { id, .. }, write: None } => {
            assert_eq!(id, text("fresh"))
        }
        other => panic!("{:?}", other),
    }
    assert_eq!(s.last_heartbeat, 9);
    match s.map_client_response_error_id(client_response(text("fresh"))) {
        Some(ClientMessage::Response { id, .. }) => assert_eq!(id, RequestId::Number(11)),
        other => panic!("{:?}", other),
    }
    assert!(s.map_client_response_error_id(client_response(text("fresh"))).is_none());
    assert!(s.id_map.is_empty());
}

#[test]
fn client_messages_other_than_answers_pass_unmapped() {
    let mut s = proxy();
    s.remember_id("x".to_string(), RequestId::Number(1));
    match s.map_client_response_error_id(ping(text("x"))) {
        Some(ClientMessage::Request { id, .. }) => assert_eq!(id, text("x")),
        other => panic!("{:?}", other),
    }
    assert!(s.map_client_response_error_id(roots_changed()).is_some());
    let error = ClientMessage::Error { id: text("x"), error: error_data() };
    match s.map_client_response_error_id(error) {
        Some(ClientMessage::Error { id, .. }) => assert_eq!(id, RequestId::Number(1)),
        other => panic!("{:?}", other),
    }
}

#[test]
fn numeric_identifiers_are_looked_up_in_decimal() {
    let mut s = proxy();
    for (key, n) in [("0", 0), ("42", 42), ("-17", -17)] {
        s.remember_id(key.to_string(), text("original"));
        assert_eq!(
            s.lookup_and_remove_original_id(&RequestId::Number(n)),
            Some(text("original"))
        );
        assert_eq!(s.lookup_and_remove_original_id(&RequestId::Number(n)), None);
    }
    s.remember_id("-9223372036854775808".to_string(), text("least"));
    assert_eq!(
        s.lookup_and_remove_original_id(&RequestId::Number(i64::MIN)),
        Some(text("least"))
    );
}

#[test]
fn server_answers_are_mapped_back_or_dropped() {
    let mut s = proxy();
    s.connected(1);
    s.remember_id("p".to_string(), RequestId::Number(5));
    s.remember_id("q".to_string(), text("other"));
    let answer = |id: RequestId| {
        let result = ResultBody::Other(rmcp::model::ServerResult::empty(()));
        Some(ServerMessage::Response { id, result })
    };
    match s.handle_sse_message(answer(text("p")), "f".to_string(), dir(), 2) {
        SseAction::Forward { message: ServerMessage::Response { id, .. }, write: None } => {
            assert_eq!(id, RequestId::Number(5))
        }
        other => panic!("{:?}", other),
    }
    let again = s.handle_sse_message(answer(text("p")), "f".to_string(), dir(), 3);
    assert!(matches!(again, SseAction::Skip));
    let error = ServerMessage::Error { id: text("q"), error: error_data() };
    match s.handle_sse_message(Some(error), "f".to_string(), dir(), 4) {
        SseAction::Forward { message: ServerMessage::Error { id, .. }, .. } => {
            assert_eq!(id, text("other"))
        }
        other => panic!("{:?}", other),
    }
    let notification =
        rmcp::model::ServerNotification::ToolListChangedNotification(Default::default());
    let message = ServerMessage::Notification { notification };
    assert!(matches!(
        s.handle_sse_message(Some(message), "f".to_string(), dir(), 5),
        SseAction::Forward { message: ServerMessage::Notification { .. }, write: None }
    ));
    assert_eq!((s.last_heartbeat, s.id_map.len()), (5, 0));
    assert!(s
        .map_server_response_error_id(ServerMessage::Error { id: text("q"), error: error_data() })
        .is_none());
}

#[test]
fn listed_tools_are_cached_and_served_offline() {
    let mut s = proxy();
    s.connected(1);
    s.remember_id("p".to_string(), text("list"));
    let message = ServerMessage::Response {
        id: text("p"),
        result: ResultBody::ListTools(tools(&["live"])),
    };
    match s.handle_sse_message(Some(message), "f".to_string(), dir(), 2) {
        SseAction::Forward { message: ServerMessage::Response { id, result }, write } => {
            assert_eq!(id, text("list"));
            assert!(matches!(result, ResultBody::ListTools(t) if t.tools == vec![tool("live")]));
            let write = write.unwrap();
            assert_eq!(write.file.filename, "http___localhost_9712_mcp.tools.json");
            let saved = load(Some(&write.bytes.unwrap())).unwrap();
            assert_eq!(saved.tools, vec![tool("live")]);
        }
        other => panic!("{:?}", other),
    }
    s.handle_fatal_transport_error(3);
    let (_, result) = reply(s.maybe_handle_message_while_disconnected(list_tools(text("z"))));
    assert!(matches!(result, ResultBody::ListTools(t) if t.tools == vec![tool("live")]));
}

#[test]
fn next_session_serves_saved_tools() {
    let mut first = proxy();
    let message = ServerMessage::Response {
        id: text("p"),
        result: ResultBody::ListTools(tools(&["one", "two"])),
    };
    let write = first.maybe_cache_tools_result(&message, dir()).unwrap();
    let cached = load(write.bytes.as_deref());
    let mut next =
        AppState::new(first.url.clone(), None, None, None, cached, "1".to_string(), 0);
    let (id, result) = reply(next.maybe_handle_message_while_disconnected(list_tools(text("l"))));
    assert_eq!(id, text("l"));
    assert!(
        matches!(result, ResultBody::ListTools(t) if t.tools == vec![tool("one"), tool("two")])
    );
}

#[test]
fn tools_are_cached_without_a_directory() {
    let mut s = proxy();
    let message = ServerMessage::Response {
        id: text("p"),
        result: ResultBody::ListTools(tools(&["live"])),
    };
    assert!(s.maybe_cache_tools_result(&message, cache_dir::<&str>(None, false, None)).is_none());
    assert_eq!(s.tools_cache.as_ref().unwrap().tools, vec![tool("live")]);
    let other = ServerMessage::Response { id: text("p"), result: ResultBody::Empty };
    assert!(s.maybe_cache_tools_result(&other, dir()).is_none());
    assert_eq!(s.tools_cache.as_ref().unwrap().tools, vec![tool("live")]);
}

#[test]
fn hidden_handshake_is_not_shown() {
    let mut s = proxy();
    s.disconnected(1);
    s.state = ProxyState::WaitingForServerInitHidden(text("i"));
    s.remember_id("p".to_string(), text("i"));
    let message = ServerMessage::Response {
        id: text("p"),
        result: ResultBody::Initialize(init_result("2025-06-18")),
    };
    assert!(matches!(
        s.handle_sse_message(Some(message), "f".to_string(), dir(), 2),
        SseAction::CompleteHandshake
    ));
    assert_eq!(s.state, ProxyState::Connected);
    assert_eq!(s.handshake_completed(true, 3), HandshakeAction::ProcessBuffered);
    assert_eq!(s.state, ProxyState::Connected);
    assert_eq!(
        s.handshake_completed(false, 4),
        HandshakeAction::Reconnect(Timers { flush_in: Some(20), reconnect_in: Some(2) })
    );
    assert_eq!(s.state, ProxyState::Disconnected);
}

#[test]
fn hidden_handshake_error_is_forwarded() {
    let mut s = proxy();
    s.state = ProxyState::WaitingForServerInitHidden(text("i"));
    s.remember_id("p".to_string(), text("i"));
    let message = ServerMessage::Error { id: text("p"), error: error_data() };
    assert!(matches!(
        s.handle_sse_message(Some(message), "f".to_string(), dir(), 2),
        SseAction::Forward { message: ServerMessage::Error { .. }, .. }
    ));
    assert_eq!(s.state, ProxyState::WaitingForServerInitHidden(text("i")));
}

#[test]
fn client_handshake_is_shown_with_the_overriding_version() {
    let mut s = proxy();
    s.override_protocol_version = Some(ProtocolVersion { text: "2024-11-05".to_string() });
    s.state = ProxyState::WaitingForServerInit(RequestId::Number(0));
    s.remember_id("p".to_string(), RequestId::Number(0));
    let message = ServerMessage::Response {
        id: text("p"),
        result: ResultBody::Initialize(init_result("2025-06-18")),
    };
    match s.handle_sse_message(Some(message), "f".to_string(), dir(), 2) {
        SseAction::Forward {
            message: ServerMessage::Response { id, result: ResultBody::Initialize(result) },
            write: None,
        } => {
            assert_eq!(id, RequestId::Number(0));
            assert_eq!(result.protocol_version.text, "2024-11-05");
            assert_eq!(result.server_info.name, "backend");
        }
        other => panic!("{:?}", other),
    }
    assert_eq!(s.state, ProxyState::WaitingForClientInitialized);
}

#[test]
fn version_is_kept_without_an_override() {
    let s = proxy();
    let message = ServerMessage::Response {
        id: text("p"),
        result: ResultBody::Initialize(init_result("2025-06-18")),
    };
    match s.maybe_overwrite_protocol_version(message) {
        ServerMessage::Response { result: ResultBody::Initialize(result), .. } => {
            assert_eq!(result.protocol_version.text, "2025-06-18")
        }
        other => panic!("{:?}", other),
    }
}

#[test]
fn other_responses_do_not_end_the_handshake() {
    let mut s = proxy();
    s.state = ProxyState::WaitingForServerInit(RequestId::Number(1));
    s.remember_id("p".to_string(), text("1"));
    let message = ServerMessage::Response { id: text("p"), result: ResultBody::Empty };
    assert!(matches!(
        s.handle_sse_message(Some(message), "f".to_string(), dir(), 2),
        SseAction::Forward { .. }
    ));
    assert_eq!(s.state, ProxyState::WaitingForServerInit(RequestId::Number(1)));
}

#[test]
fn end_of_the_stream_disconnects() {
    let mut s = proxy();
    s.connected(1);
    match s.handle_sse_message(None, "f".to_string(), dir(), 2) {
        SseAction::Reconnect(timers) => {
            assert_eq!(timers, Timers { flush_in: Some(20), reconnect_in: Some(2) })
        }
        other => panic!("{:?}", other),
    }
    assert_eq!((s.state, s.last_heartbeat), (ProxyState::Disconnected, 1));
}

#[test]
fn reconnect_signal_tries_only_offline() {
    let mut s = proxy();
    s.reconnect_scheduled = true;
    assert!(s.handle_reconnect_signal());
    assert!(!s.reconnect_scheduled);
    s.connected(1);
    assert!(!s.handle_reconnect_signal());
    s.state = ProxyState::WaitingForClientInitialized;
    assert!(!s.handle_reconnect_signal());
    s.state = ProxyState::Disconnected;
    assert!(s.handle_reconnect_signal());
}

#[test]
fn a_new_transport_replays_or_waits_for_initialize() {
    let mut s = proxy();
    assert_eq!(s.reconnect_attempted(Ok(()), 1), ReconnectAction::Ready);
    assert_eq!(s.state, ProxyState::WaitingForClientInit);
    assert!(s.transport_valid);
    let mut s = proxy();
    let _ = s.maybe_handle_message_while_disconnected(initialize(text("i")));
    assert_eq!(s.reconnect_attempted(Ok(()), 1), ReconnectAction::Handshake);
    assert_eq!(s.state, ProxyState::Connecting);
    assert!(s.transport_valid);
}

#[test]
fn a_failed_try_is_repeated_until_time_is_up() {
    let failed = || Err(ReconnectFailureReason::ConnectionFailed("refused".to_string()));
    let mut s = proxy();
    s.disconnected(0);
    assert_eq!(s.reconnect_attempted(failed(), SEC), ReconnectAction::Retry(Some(4)));
    assert_eq!(s.reconnect_attempted(failed(), SEC), ReconnectAction::Retry(None));
    assert_eq!(s.connect_tries, 3);
    assert!(s.handle_reconnect_signal());
    assert_eq!(s.reconnect_attempted(failed(), 11 * SEC), ReconnectAction::FlushBuffer);
    assert!(!s.reconnect_scheduled);
    assert_eq!(
        s.reconnect_attempted(Err(ReconnectFailureReason::TimeoutExceeded), SEC),
        ReconnectAction::FlushBuffer
    );
    assert_eq!(s.connect_tries, 5);
}

#[test]
fn the_loop_gives_up_after_too_long() {
    let mut s = proxy();
    s.disconnected(0);
    assert_eq!(s.after_reconnect_signal(10 * SEC), LoopAction::Continue);
    assert_eq!(s.after_reconnect_signal(11 * SEC), LoopAction::Stop);
    let _ = s.maybe_handle_message_while_disconnected(list_prompts(text("x")));
    assert_eq!(s.after_reconnect_signal(11 * SEC), LoopAction::FlushAndStop);
    s.buf_mode = BufferMode::Fail;
    assert_eq!(s.after_reconnect_signal(11 * SEC), LoopAction::Stop);
}

#[test]
fn flush_timer_flushes_only_a_disconnected_proxy() {
    let mut s = proxy();
    s.schedule_flush_timer();
    assert!(!s.handle_timer_signal());
    assert!(!s.flush_timer_active);
    s.disconnected(1);
    assert!(s.handle_timer_signal());
}

#[test]
fn heartbeat_is_checked_only_when_connected() {
    let mut s = proxy();
    assert!(!s.handle_heartbeat_tick());
    s.connected(1);
    assert!(s.handle_heartbeat_tick());
    assert_eq!(s.heartbeat_checked(None, 5), None);
    assert_eq!(s.last_heartbeat, 1);
    assert_eq!(s.heartbeat_checked(Some(true), 6), None);
    assert_eq!(s.last_heartbeat, 6);
    let timers = s.heartbeat_checked(Some(false), 7).unwrap();
    assert_eq!(timers, Timers { flush_in: Some(20), reconnect_in: Some(2) });
    assert_eq!(s.state, ProxyState::Disconnected);
}

#[test]
fn stdin_stops_at_its_end_and_on_errors() {
    let s = proxy();
    assert!(s.handle_stdin_message(Some(Ok::<_, ()>(ping(text("p"))))).is_some());
    assert!(s.handle_stdin_message(Some(Err("unreadable"))).is_none());
    assert!(s.handle_stdin_message::<()>(None).is_none());
}

#[test]
fn backend_is_read_over_a_valid_transport() {
    let mut s = proxy();
    assert!(!s.reads_backend(true));
    s.connected(1);
    assert!(s.reads_backend(true));
    assert!(!s.reads_backend(false));
}
