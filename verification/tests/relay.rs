use mcp_proxy::cache::{cache_dir, CacheDir};
use mcp_proxy::message::{
    ClientMessage, NotificationBody, RequestBody, RequestId, ResultBody, ServerMessage,
};
use mcp_proxy::relay::ClientAction;
use mcp_proxy::state::{AppState, BufferMode, OfflineAction, ProxyState, SseAction};

fn proxy() -> AppState {
    AppState::new("u".to_string(), None, None, None, None, "1".to_string(), 0)
}

fn text(t: &str) -> RequestId {
    RequestId::Text(t.to_string())
}

fn dir() -> Option<CacheDir<&'static str>> {
    cache_dir(None, false, None)
}

fn list_prompts(id: RequestId) -> ClientMessage {
    let body = rmcp::model::ClientRequest::ListPromptsRequest(Default::default());
    ClientMessage::Request { id, request: RequestBody::Other(body) }
}

fn initialize(id: RequestId) -> ClientMessage {
    let mut param = rmcp::model::InitializeRequestParam::default();
    param.client_info.name = "a client".to_string();
    let body = rmcp::model::ClientRequest::InitializeRequest(rmcp::model::Request::new(param));
    ClientMessage::Request { id, request: RequestBody::Initialize(body) }
}

fn initialized() -> ClientMessage {
    let body = rmcp::model::ClientNotification::InitializedNotification(Default::default());
    ClientMessage::Notification { notification: NotificationBody::Initialized(body) }
}

fn roots_changed() -> ClientMessage {
    let body = rmcp::model::ClientNotification::RootsListChangedNotification(Default::default());
    ClientMessage::Notification { notification: NotificationBody::Other(body) }
}

fn answer(id: RequestId) -> Option<ServerMessage> {
    Some(ServerMessage::Response { id, result: ResultBody::Empty })
}

#[test]
fn flush_refuses_buffered_requests_in_order() {
    let mut s = proxy();
    for message in [list_prompts(text("a")), roots_changed(), list_prompts(RequestId::Number(2))] {
        assert!(matches!(
            s.process_client_request(message, 1),
            ClientAction::Local(OfflineAction::Nothing)
        ));
    }
    assert_eq!(s.in_buf.len(), 3);
    assert_eq!(s.flush_buffer_with_errors(), vec![text("a"), RequestId::Number(2)]);
    assert!(s.in_buf.is_empty());
    assert_eq!(s.buf_mode, BufferMode::Fail);
    match s.process_client_request(list_prompts(text("b")), 2) {
        ClientAction::Local(OfflineAction::ReplyDisconnected(id)) => assert_eq!(id, text("b")),
        other => panic!("{:?}", other),
    }
    assert!(s.flush_buffer_with_errors().is_empty());
}

#[test]
fn unknown_answers_of_the_client_are_skipped() {
    let mut s = proxy();
    let result = rmcp::model::ClientResult::empty(());
    let message = ClientMessage::Response { id: text("?"), result };
    assert!(matches!(s.process_client_request(message, 1), ClientAction::Skip));
    assert!(s.in_buf.is_empty());
}

#[test]
fn requests_are_passed_on_under_another_identifier() {
    let mut s = proxy();
    s.connected(1);
    let ClientAction::Send(message) = s.process_client_request(list_prompts(text("own")), 2) else {
        panic!("not sent")
    };
    match s.pass_on(message, "p".to_string()) {
        (ClientMessage::Request { id, .. }, Some(original)) => {
            assert_eq!((id, original), (text("p"), text("own")))
        }
        other => panic!("{:?}", other),
    }
    match s.handle_sse_message(answer(text("p")), "f".to_string(), dir(), 3) {
        SseAction::Forward { message: ServerMessage::Response { id, .. }, .. } => {
            assert_eq!(id, text("own"))
        }
        other => panic!("{:?}", other),
    }
    assert!(matches!(
        s.pass_on(roots_changed(), "q".to_string()),
        (ClientMessage::Notification { .. }, None)
    ));
    assert!(s.id_map.is_empty());
}

#[test]
fn client_handshake_connects() {
    let mut s = proxy();
    s.state = ProxyState::WaitingForClientInit;
    let ClientAction::Send(message) = s.process_client_request(initialize(text("i")), 1) else {
        panic!("not sent")
    };
    assert_eq!(s.state, ProxyState::WaitingForServerInit(text("i")));
    assert!(s.init_message.is_some());
    s.pass_on(message, "p".to_string());
    match s.handle_sse_message(answer(text("p")), "f".to_string(), dir(), 2) {
        SseAction::Forward { message: ServerMessage::Response { id, .. }, .. } => {
            assert_eq!(id, text("i"))
        }
        other => panic!("{:?}", other),
    }
    assert_eq!(s.state, ProxyState::WaitingForClientInitialized);
    assert!(matches!(
        s.process_client_request(initialized(), 3),
        ClientAction::SendInitialized(ClientMessage::Notification { .. })
    ));
    assert_eq!(s.state, ProxyState::Connected);
}

#[test]
fn replay_reconnects_and_gives_back_the_buffer() {
    let mut s = proxy();
    assert!(s.initiate_post_reconnect_handshake().is_none());
    assert_eq!(s.state, ProxyState::Connecting);
    s.process_client_request(initialize(text("i")), 1);
    s.process_client_request(list_prompts(text("a")), 1);
    s.process_client_request(list_prompts(text("b")), 1);
    let replay = s.initiate_post_reconnect_handshake().unwrap();
    assert_eq!(s.state, ProxyState::WaitingForServerInitHidden(text("i")));
    match &replay {
        ClientMessage::Request { id, request: RequestBody::Initialize(body) } => {
            assert_eq!(*id, text("i"));
            assert!(format!("{:?}", body).contains("a client"));
        }
        other => panic!("{:?}", other),
    }
    s.pass_on(replay, "p".to_string());
    assert!(matches!(
        s.handle_sse_message(answer(text("p")), "f".to_string(), dir(), 2),
        SseAction::CompleteHandshake
    ));
    assert_eq!(s.state, ProxyState::Connected);
    let ids: Vec<RequestId> = s
        .process_buffered_messages()
        .into_iter()
        .map(|message| match message {
            ClientMessage::Request { id, .. } => id,
            other => panic!("{:?}", other),
        })
        .collect();
    assert_eq!(ids, vec![text("a"), text("b")]);
    assert!(s.in_buf.is_empty());
}
