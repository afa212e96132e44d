//! The way of a client's messages to the backend: what is passed on, what is kept, and what
//! is done with what was kept.
use crate::message::{
    ClientMessage, ClientMessageView, NotificationBody, RequestBody, RequestId, RequestIdView,
};
use crate::model::{AppStateView, ProxyStateView};
use crate::state::{AppState, BufferMode, OfflineAction, ProxyState};
use vstd::prelude::*;

verus! {

/// What to do with a message of the client.
#[derive(Debug)]
pub enum ClientAction {
    /// Nothing: the message answers no known request.
    Skip,
    /// There is no backend.
    Local(OfflineAction),
    /// Send the message to the backend, as [`AppState::pass_on`] has it.
    Send(ClientMessage),
    /// Send the message to the backend, which ends the client's handshake; then send what
    /// was buffered.
    SendInitialized(ClientMessage),
}

/// The identifiers of the requests among some messages, in their order.
pub open spec fn request_ids(messages: Seq<ClientMessageView>) -> Seq<RequestIdView>
    decreases messages.len(),
{
    if messages.len() == 0 {
        Seq::empty()
    } else {
        let before = request_ids(messages.drop_last());
        match messages.last() {
            ClientMessageView::Request { id, .. } => before.push(id),
            _ => before,
        }
    }
}

impl AppStateView {
    /// What is buffered is given up, and further requests are refused.
    pub open spec fn flushed(self) -> AppStateView {
        AppStateView { in_buf: Seq::empty(), buf_mode: BufferMode::Fail, ..self }
    }

    /// The state after a message of the client went to the backend: the client's
    /// `initialize` request is kept for replay and its response waited for, and the
    /// notification that the client is initialized ends the handshake.
    pub open spec fn after_live_message(self, message: ClientMessageView, now: u64) -> AppStateView {
        match (self.state, message) {
            (
                ProxyStateView::WaitingForClientInit,
                ClientMessageView::Request { id, request: RequestBody::Initialize(_) },
            ) => AppStateView {
                init_message: Some(message),
                state: ProxyStateView::WaitingForServerInit(id),
                ..self
            },
            (
                ProxyStateView::WaitingForClientInitialized,
                ClientMessageView::Notification { notification: NotificationBody::Initialized(_) },
            ) => self.connected(now),
            _ => self,
        }
    }

    /// Whether a message of the client ends its handshake.
    pub open spec fn ends_client_handshake(self, message: ClientMessageView) -> bool {
        self.state is WaitingForClientInitialized && message matches ClientMessageView::Notification {
            notification: NotificationBody::Initialized(_),
        }
    }

    /// The `initialize` request that a reconnected backend is sent, and its identifier.
    pub open spec fn replayed_id(self) -> Option<RequestIdView> {
        match self.init_message {
            Some(ClientMessageView::Request { id, request: RequestBody::Initialize(_) }) => Some(id),
            _ => None,
        }
    }

    /// The state after the replay of the client's `initialize` request was started.
    pub open spec fn handshake_started(self) -> AppStateView {
        match self.replayed_id() {
            Some(id) => AppStateView {
                state: ProxyStateView::WaitingForServerInitHidden(id),
                ..self
            },
            None => self,
        }
    }
}

impl AppState {
    /// Gives up what is buffered, and refuses further requests. Returns the requests to
    /// refuse, in the order of their arrival.
    pub fn flush_buffer_with_errors(&mut self) -> (refused: Vec<RequestId>)
        ensures
            final(self)@ == old(self)@.flushed(),
            refused@.map_values(|id: RequestId| id@) == request_ids(old(self)@.in_buf),
            old(self)@.wf() && !(old(self)@.state is Connected) ==> final(self)@.wf(),
    {
        let messages = self.process_buffered_messages();
        self.buf_mode = BufferMode::Fail;
        let ghost views = messages@.map_values(|message: ClientMessage| message@);
        let mut refused: Vec<RequestId> = Vec::new();
        let mut i: usize = 0;
        assert(refused@.map_values(|id: RequestId| id@) =~= request_ids(views.take(0)));
        while i < messages.len()
            invariant
                0 <= i <= messages.len(),
                views == messages@.map_values(|message: ClientMessage| message@),
                refused@.map_values(|id: RequestId| id@) == request_ids(views.take(i as int)),
            decreases messages.len() - i,
        {
            let ghost before = refused@.map_values(|id: RequestId| id@);
            proof {
                assert(views.take(i + 1).drop_last() =~= views.take(i as int));
                assert(views.take(i + 1).last() == messages@[i as int]@);
            }
            match &messages[i] {
                ClientMessage::Request { id, .. } => {
                    refused.push(id.clone());
                    assert(refused@.map_values(|id: RequestId| id@) =~= before.push(id@));
                },
                _ => {},
            }
            i += 1;
        }
        assert(views.take(messages@.len() as int) =~= views);
        refused
    }

    /// Takes what is buffered, in the order of its arrival, to be sent to the backend.
    pub fn process_buffered_messages(&mut self) -> (messages: Vec<ClientMessage>)
        ensures
            final(self)@ == (AppStateView { in_buf: Seq::empty(), ..old(self)@ }),
            messages@.map_values(|message: ClientMessage| message@) == old(self)@.in_buf,
            old(self)@.wf() ==> final(self)@.wf(),
    {
        let mut messages: Vec<ClientMessage> = Vec::new();
        std::mem::swap(&mut messages, &mut self.in_buf);
        assert(self@.in_buf =~= Seq::empty());
        messages
    }

    /// Handles a message of the client: answers are mapped back first and dropped where
    /// they answer no known request; without a backend the proxy deals with the message
    /// itself; else the message is sent.
    pub fn process_client_request(&mut self, message: ClientMessage, now: u64) -> (action:
        ClientAction)
        ensures
            ({
                let mapping = old(self)@.after_client_mapping(message@);
                match old(self)@.mapped_client_message(message@) {
                    None => action is Skip && final(self)@ == mapping,
                    Some(mapped) => if mapping.state.is_offline() {
                        &&& action matches ClientAction::Local(local)
                        &&& local@ == mapping.offline_action(mapped)
                        &&& final(self)@ == mapping.after_offline_message(mapped)
                    } else {
                        &&& final(self)@ == mapping.after_live_message(mapped, now)
                        &&& if mapping.ends_client_handshake(mapped) {
                            action matches ClientAction::SendInitialized(sent) && sent@ == mapped
                        } else {
                            action matches ClientAction::Send(sent) && sent@ == mapped
                        }
                    },
                }
            }),
            old(self)@.wf() ==> final(self)@.wf(),
    {
        let mapped = match self.map_client_response_error_id(message) {
            Some(mapped) => mapped,
            None => return ClientAction::Skip,
        };
        if self.state.is_offline() {
            return match self.maybe_handle_message_while_disconnected(mapped) {
                Ok(local) => ClientAction::Local(local),
                Err(_) => ClientAction::Skip,
            };
        }
        match &mapped {
            ClientMessage::Request { id, request: RequestBody::Initialize(body) } => {
                if matches!(self.state, ProxyState::WaitingForClientInit) {
                    self.init_message = Some(
                        ClientMessage::Request {
                            id: id.clone(),
                            request: RequestBody::Initialize(body.clone()),
                        },
                    );
                    self.state = ProxyState::WaitingForServerInit(id.clone());
                }
            },
            ClientMessage::Notification { notification: NotificationBody::Initialized(_) } => {
                if matches!(self.state, ProxyState::WaitingForClientInitialized) {
                    self.connected(now);
                    return ClientAction::SendInitialized(mapped);
                }
            },
            _ => {},
        }
        ClientAction::Send(mapped)
    }

    /// The message as it goes to the backend: a request goes under `proxy_id`, and its own
    /// identifier, which is returned too, is kept.
    pub fn pass_on(&mut self, message: ClientMessage, proxy_id: String) -> (r: (
        ClientMessage,
        Option<RequestId>,
    ))
        ensures
            match message@ {
                ClientMessageView::Request { id, .. } => {
                    &&& final(self)@ == old(self)@.remember_id(proxy_id@, id)
                    &&& r.0@ == message@.with_id(RequestIdView::Text(proxy_id@))
                    &&& r.1 matches Some(original) && original@ == id
                },
                _ => final(self)@ == old(self)@ && r.0@ == message@ && r.1 is None,
            },
            old(self)@.wf() ==> final(self)@.wf(),
    {
        match message {
            ClientMessage::Request { id, request } => {
                self.remember_id(proxy_id.clone(), id.clone());
                (ClientMessage::Request { id: RequestId::Text(proxy_id), request }, Some(id))
            },
            other => (other, None),
        }
    }

    /// Starts the handshake with a reconnected backend: the client's `initialize` request,
    /// where it is known, to be sent again. Its response will not be shown to the client.
    pub fn initiate_post_reconnect_handshake(&mut self) -> (replay: Option<ClientMessage>)
        ensures
            final(self)@ == old(self)@.handshake_started(),
            match replay {
                Some(message) => {
                    &&& old(self)@.replayed_id() is Some
                    &&& old(self)@.init_message == Some(message@)
                },
                None => old(self)@.replayed_id() is None,
            },
            old(self)@.wf() ==> final(self)@.wf(),
    {
        match &self.init_message {
            Some(ClientMessage::Request { id, request: RequestBody::Initialize(body) }) => {
                let replay = ClientMessage::Request {
                    id: id.clone(),
                    request: RequestBody::Initialize(body.clone()),
                };
                self.state = ProxyState::WaitingForServerInitHidden(id.clone());
                Some(replay)
            },
            _ => None,
        }
    }
}

} // verus!
