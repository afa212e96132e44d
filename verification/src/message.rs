//! The JSON-RPC messages that pass through the proxy.
//!
//! A message holds as plain values what the proxy looks at: its kind, its
//! identifier, the tools of a `tools/list` result and the parts of an
//! `initialize` result. What the proxy only passes on stays in the value of
//! `rmcp` that it arrived in.
use vstd::prelude::*;

verus! {

/// The text of an optional string.
pub open spec fn text_view(text: Option<String>) -> Option<Seq<char>> {
    match text {
        Some(t) => Some(t@),
        None => None,
    }
}

/// The identifier of a request: a number or a text.
#[derive(Debug, PartialEq, Eq)]
pub enum RequestId {
    Number(i64),
    Text(String),
}

/// The model of a [`RequestId`].
pub enum RequestIdView {
    Number(i64),
    Text(Seq<char>),
}

impl View for RequestId {
    type V = RequestIdView;

    open spec fn view(&self) -> RequestIdView {
        match self {
            RequestId::Number(n) => RequestIdView::Number(*n),
            RequestId::Text(t) => RequestIdView::Text(t@),
        }
    }
}

/// The digit of a number below ten.
pub open spec fn digit(n: nat) -> char {
    (('0' as nat) + n) as char
}

/// The decimal digits of a natural number, without leading zeros.
pub open spec fn decimal(n: nat) -> Seq<char>
    decreases n,
{
    if n < 10 {
        seq![digit(n)]
    } else {
        decimal(n / 10).push(digit(n % 10))
    }
}

impl RequestIdView {
    /// The identifier as a text: a number in decimal, with a minus sign where it
    /// is negative; a text as it is.
    pub open spec fn key(self) -> Seq<char> {
        match self {
            RequestIdView::Number(n) => if n < 0 {
                seq!['-'] + decimal((-n) as nat)
            } else {
                decimal(n as nat)
            },
            RequestIdView::Text(t) => t,
        }
    }
}

impl Clone for RequestId {
    fn clone(&self) -> (copy: Self)
        ensures
            copy@ == self@,
    {
        match self {
            RequestId::Number(n) => RequestId::Number(*n),
            RequestId::Text(t) => RequestId::Text(t.clone()),
        }
    }
}

impl RequestId {
    /// Whether two identifiers are the same: both numbers or both texts, of the
    /// same value.
    pub fn same(&self, other: &RequestId) -> (r: bool)
        ensures
            r == (self@ == other@),
    {
        match (self, other) {
            (RequestId::Number(a), RequestId::Number(b)) => *a == *b,
            (RequestId::Text(a), RequestId::Text(b)) => *a == *b,
            _ => false,
        }
    }
}

/// A version of the protocol, as it is written on the wire.
#[derive(Debug, PartialEq, Eq)]
pub struct ProtocolVersion {
    pub text: String,
}

impl View for ProtocolVersion {
    type V = Seq<char>;

    open spec fn view(&self) -> Seq<char> {
        self.text@
    }
}

impl Clone for ProtocolVersion {
    fn clone(&self) -> (copy: Self)
        ensures
            copy@ == self@,
    {
        ProtocolVersion { text: self.text.clone() }
    }
}

/// A request of the client, by what the proxy may do with it itself.
#[derive(Debug)]
pub enum RequestBody {
    Ping(rmcp::model::ClientRequest),
    Initialize(rmcp::model::ClientRequest),
    ListTools(rmcp::model::ClientRequest),
    Other(rmcp::model::ClientRequest),
}

/// A notification of the client.
#[derive(Debug)]
pub enum NotificationBody {
    Initialized(rmcp::model::ClientNotification),
    Other(rmcp::model::ClientNotification),
}

/// A message from the client.
#[derive(Debug)]
pub enum ClientMessage {
    Request { id: RequestId, request: RequestBody },
    Response { id: RequestId, result: rmcp::model::ClientResult },
    Notification { notification: NotificationBody },
    Error { id: RequestId, error: rmcp::model::ErrorData },
}

/// The model of a [`ClientMessage`].
pub enum ClientMessageView {
    Request { id: RequestIdView, request: RequestBody },
    Response { id: RequestIdView, result: rmcp::model::ClientResult },
    Notification { notification: NotificationBody },
    Error { id: RequestIdView, error: rmcp::model::ErrorData },
}

impl View for ClientMessage {
    type V = ClientMessageView;

    open spec fn view(&self) -> ClientMessageView {
        match *self {
            ClientMessage::Request { id, request } => ClientMessageView::Request {
                id: id@,
                request,
            },
            ClientMessage::Response { id, result } => ClientMessageView::Response {
                id: id@,
                result,
            },
            ClientMessage::Notification { notification } => ClientMessageView::Notification {
                notification,
            },
            ClientMessage::Error { id, error } => ClientMessageView::Error { id: id@, error },
        }
    }
}

impl ClientMessageView {
    /// The identifier of a response or an error: the identifier of the request that
    /// it answers.
    pub open spec fn answered_id(self) -> Option<RequestIdView> {
        match self {
            ClientMessageView::Response { id, .. } => Some(id),
            ClientMessageView::Error { id, .. } => Some(id),
            _ => None,
        }
    }

    /// The message with another identifier; a notification has none to change.
    pub open spec fn with_id(self, new_id: RequestIdView) -> ClientMessageView {
        match self {
            ClientMessageView::Request { id, request } => ClientMessageView::Request {
                id: new_id,
                request,
            },
            ClientMessageView::Response { id, result } => ClientMessageView::Response {
                id: new_id,
                result,
            },
            ClientMessageView::Error { id, error } => ClientMessageView::Error {
                id: new_id,
                error,
            },
            ClientMessageView::Notification { notification } => self,
        }
    }

    /// Whether this is an `initialize` request.
    pub open spec fn is_initialize(self) -> bool {
        self matches ClientMessageView::Request { request: RequestBody::Initialize(_), .. }
    }
}

/// The tools that a server offers, and where its next page of tools starts.
#[derive(Debug)]
pub struct ListToolsResult {
    pub tools: Vec<rmcp::model::Tool>,
    pub next_cursor: Option<String>,
}

/// The model of a [`ListToolsResult`].
pub struct ListToolsView {
    pub tools: Seq<rmcp::model::Tool>,
    pub next_cursor: Option<Seq<char>>,
}

impl View for ListToolsResult {
    type V = ListToolsView;

    open spec fn view(&self) -> ListToolsView {
        ListToolsView { tools: self.tools@, next_cursor: text_view(self.next_cursor) }
    }
}

impl Clone for ListToolsResult {
    fn clone(&self) -> (copy: Self)
        ensures
            copy@ == self@,
    {
        let tools = self.tools.clone();
        assert(tools@ =~= self.tools@);
        let next_cursor = match &self.next_cursor {
            Some(cursor) => Some(cursor.clone()),
            None => None,
        };
        ListToolsResult { tools, next_cursor }
    }
}

/// The tools of an optional result.
pub open spec fn tools_view(tools: Option<ListToolsResult>) -> Option<ListToolsView> {
    match tools {
        Some(t) => Some(t@),
        None => None,
    }
}

/// What a server says of its tools.
#[derive(Debug)]
pub struct ToolsCapability {
    pub list_changed: Option<bool>,
}

/// What a server can do: its tools capability, and the value that holds its other
/// capabilities, where it has any.
#[derive(Debug)]
pub struct Capabilities {
    pub tools: Option<ToolsCapability>,
    pub others: Option<rmcp::model::ServerCapabilities>,
}

/// The name and version that a server gives itself.
#[derive(Debug)]
pub struct Implementation {
    pub name: String,
    pub title: Option<String>,
    pub version: String,
    pub icons: Option<Vec<rmcp::model::Icon>>,
    pub website_url: Option<String>,
}

/// The model of an [`Implementation`].
pub struct ImplementationView {
    pub name: Seq<char>,
    pub title: Option<Seq<char>>,
    pub version: Seq<char>,
    pub icons: Option<Vec<rmcp::model::Icon>>,
    pub website_url: Option<Seq<char>>,
}

impl View for Implementation {
    type V = ImplementationView;

    open spec fn view(&self) -> ImplementationView {
        ImplementationView {
            name: self.name@,
            title: text_view(self.title),
            version: self.version@,
            icons: self.icons,
            website_url: text_view(self.website_url),
        }
    }
}

/// The result of an `initialize` request.
#[derive(Debug)]
pub struct InitializeResult {
    pub protocol_version: ProtocolVersion,
    pub capabilities: Capabilities,
    pub server_info: Implementation,
    pub instructions: Option<String>,
}

/// The model of an [`InitializeResult`].
pub struct InitializeResultView {
    pub protocol_version: Seq<char>,
    pub capabilities: Capabilities,
    pub server_info: ImplementationView,
    pub instructions: Option<Seq<char>>,
}

impl View for InitializeResult {
    type V = InitializeResultView;

    open spec fn view(&self) -> InitializeResultView {
        InitializeResultView {
            protocol_version: self.protocol_version@,
            capabilities: self.capabilities,
            server_info: self.server_info@,
            instructions: text_view(self.instructions),
        }
    }
}

/// A result of the server.
#[derive(Debug)]
pub enum ResultBody {
    Empty,
    Initialize(InitializeResult),
    ListTools(ListToolsResult),
    Other(rmcp::model::ServerResult),
}

/// The model of a [`ResultBody`].
pub enum ResultBodyView {
    Empty,
    Initialize(InitializeResultView),
    ListTools(ListToolsView),
    Other(rmcp::model::ServerResult),
}

impl View for ResultBody {
    type V = ResultBodyView;

    open spec fn view(&self) -> ResultBodyView {
        match *self {
            ResultBody::Empty => ResultBodyView::Empty,
            ResultBody::Initialize(result) => ResultBodyView::Initialize(result@),
            ResultBody::ListTools(result) => ResultBodyView::ListTools(result@),
            ResultBody::Other(result) => ResultBodyView::Other(result),
        }
    }
}

/// A message from the server.
#[derive(Debug)]
pub enum ServerMessage {
    Request { id: RequestId, request: rmcp::model::ServerRequest },
    Response { id: RequestId, result: ResultBody },
    Notification { notification: rmcp::model::ServerNotification },
    Error { id: RequestId, error: rmcp::model::ErrorData },
}

/// The model of a [`ServerMessage`].
pub enum ServerMessageView {
    Request { id: RequestIdView, request: rmcp::model::ServerRequest },
    Response { id: RequestIdView, result: ResultBodyView },
    Notification { notification: rmcp::model::ServerNotification },
    Error { id: RequestIdView, error: rmcp::model::ErrorData },
}

impl View for ServerMessage {
    type V = ServerMessageView;

    open spec fn view(&self) -> ServerMessageView {
        match *self {
            ServerMessage::Request { id, request } => ServerMessageView::Request {
                id: id@,
                request,
            },
            ServerMessage::Response { id, result } => ServerMessageView::Response {
                id: id@,
                result: result@,
            },
            ServerMessage::Notification { notification } => ServerMessageView::Notification {
                notification,
            },
            ServerMessage::Error { id, error } => ServerMessageView::Error { id: id@, error },
        }
    }
}

impl ServerMessageView {
    /// The identifier of a response or an error: the identifier of the request that
    /// it answers.
    pub open spec fn answered_id(self) -> Option<RequestIdView> {
        match self {
            ServerMessageView::Response { id, .. } => Some(id),
            ServerMessageView::Error { id, .. } => Some(id),
            _ => None,
        }
    }

    /// The message with another identifier; a notification has none to change.
    pub open spec fn with_id(self, new_id: RequestIdView) -> ServerMessageView {
        match self {
            ServerMessageView::Request { id, request } => ServerMessageView::Request {
                id: new_id,
                request,
            },
            ServerMessageView::Response { id, result } => ServerMessageView::Response {
                id: new_id,
                result,
            },
            ServerMessageView::Error { id, error } => ServerMessageView::Error {
                id: new_id,
                error,
            },
            ServerMessageView::Notification { notification } => self,
        }
    }

    /// The tools of a `tools/list` response.
    pub open spec fn listed_tools(self) -> Option<ListToolsView> {
        match self {
            ServerMessageView::Response { result: ResultBodyView::ListTools(tools), .. } => Some(
                tools,
            ),
            _ => None,
        }
    }

    /// The message with another protocol version where it is the response to an
    /// `initialize` request; any other message as it is.
    pub open spec fn with_protocol_version(self, version: Seq<char>) -> ServerMessageView {
        match self {
            ServerMessageView::Response {
                id,
                result: ResultBodyView::Initialize(result),
            } => ServerMessageView::Response {
                id,
                result: ResultBodyView::Initialize(
                    InitializeResultView { protocol_version: version, ..result },
                ),
            },
            _ => self,
        }
    }
}

} // verus!
