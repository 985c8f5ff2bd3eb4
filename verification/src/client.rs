//! The client: what it has learned from the server, how its connection stands,
//! and what it shows.

use vstd::prelude::*;
use vstd::string::*;
use crate::ident;
use crate::message::{
    ChatState, ClientMessage, ClientMessageView, Line, ServerMessage, ServerMessageView,
};
use crate::text;

verus! {

/// The address of the server's WebSocket, for a page loaded over `protocol`
/// from `host`: encrypted where the page is.
pub fn ws_url(protocol: &str, host: &str) -> (url: String)
    ensures
        url@ == (if protocol@ == "https:"@ {
            "wss:"@
        } else {
            "ws:"@
        }) + "//"@ + host@ + "/ws"@,
{
    let ws_protocol: &str = if protocol.to_owned() == "https:".to_owned() {
        "wss:"
    } else {
        "ws:"
    };
    let mut url: String = text::join(ws_protocol, "//");
    url.append(host);
    url.append("/ws");
    url
}

/// What the connection's tasks have learned.
#[derive(Debug)]
pub struct SharedAsyncState {
    /// The id that the server gave this client.
    pub client_id: Option<u128>,
    /// How the connection stands, in words.
    pub connection_status: String,
    /// The chat, as the server last told it.
    pub chat_state: Option<ChatState>,
}

/// A `SharedAsyncState` with its text as character sequences.
#[verifier::ext_equal]
pub struct SharedView {
    pub client_id: Option<u128>,
    pub status: Seq<char>,
    pub chat: Option<Seq<Line>>,
}

/// The lines of a chat that may not be known yet.
pub open spec fn known_lines(chat: Option<ChatState>) -> Option<Seq<Line>> {
    match chat {
        Some(known) => Some(known@),
        None => None,
    }
}

impl View for SharedAsyncState {
    type V = SharedView;

    open spec fn view(&self) -> SharedView {
        SharedView {
            client_id: self.client_id,
            status: self.connection_status@,
            chat: known_lines(self.chat_state),
        }
    }
}

/// What can happen to the connection as a whole.
#[derive(Debug)]
pub enum LinkEvent {
    /// The client sets out to connect.
    Connecting,
    /// The connection could not be opened, for this reason.
    OpenFailed(String),
    /// The connection is open; its tasks are about to start.
    Opened,
    /// The receiving task has started.
    ReceiverStarted,
    /// The sending task has ended.
    SenderStopped,
    /// The receiving task has ended.
    ReceiverStopped,
}

/// A `LinkEvent` with its text as character sequences.
pub enum LinkEventView {
    Connecting,
    OpenFailed(Seq<char>),
    Opened,
    ReceiverStarted,
    SenderStopped,
    ReceiverStopped,
}

impl View for LinkEvent {
    type V = LinkEventView;

    open spec fn view(&self) -> LinkEventView {
        match *self {
            LinkEvent::Connecting => LinkEventView::Connecting,
            LinkEvent::OpenFailed(reason) => LinkEventView::OpenFailed(reason@),
            LinkEvent::Opened => LinkEventView::Opened,
            LinkEvent::ReceiverStarted => LinkEventView::ReceiverStarted,
            LinkEvent::SenderStopped => LinkEventView::SenderStopped,
            LinkEvent::ReceiverStopped => LinkEventView::ReceiverStopped,
        }
    }
}

/// Whether a status says that the connection could not be opened.
pub open spec fn says_unopened(status: Seq<char>) -> bool {
    "Failed to connect"@.is_prefix_of(status)
}

/// Whether a status says what went wrong.
pub open spec fn says_fault(status: Seq<char>) -> bool {
    "Error:"@.is_prefix_of(status) || says_unopened(status)
}

/// The status after `event`. That a task has ended is no news where the status
/// already says what went wrong.
pub open spec fn status_after(status: Seq<char>, event: LinkEventView) -> Seq<char> {
    match event {
        LinkEventView::Connecting => "Connecting..."@,
        LinkEventView::OpenFailed(reason) => "Failed to connect: "@ + reason,
        LinkEventView::Opened => "Connection established, tasks starting..."@,
        LinkEventView::ReceiverStarted => "Connected (Receiver Active)"@,
        LinkEventView::SenderStopped => if says_fault(status) {
            status
        } else {
            "Disconnected (Sender Stopped)"@
        },
        LinkEventView::ReceiverStopped => if says_fault(status) {
            status
        } else {
            "Disconnected (Receiver Stopped)"@
        },
    }
}

/// What the receiving task can read from the connection.
#[derive(Debug)]
pub enum Frame {
    /// A text that holds this message.
    Message(ServerMessage),
    /// A text that holds no message.
    Undecodable,
    /// A binary frame.
    Bytes,
    /// Nothing: reading failed, for this reason.
    Failed(String),
}

/// A `Frame` with its text as character sequences.
pub enum FrameView {
    Message(ServerMessageView),
    Undecodable,
    Bytes,
    Failed(Seq<char>),
}

impl View for Frame {
    type V = FrameView;

    open spec fn view(&self) -> FrameView {
        match *self {
            Frame::Message(message) => FrameView::Message(message@),
            Frame::Undecodable => FrameView::Undecodable,
            Frame::Bytes => FrameView::Bytes,
            Frame::Failed(reason) => FrameView::Failed(reason@),
        }
    }
}

/// What the client knows after reading `frame`: an assigned id and a new chat
/// are taken over, a failure becomes the status, all else changes nothing.
pub open spec fn after_frame(known: SharedView, frame: FrameView) -> SharedView {
    match frame {
        FrameView::Message(ServerMessageView::AssignedId(id)) => SharedView {
            client_id: Some(id),
            ..known
        },
        FrameView::Message(ServerMessageView::NewChatState(chat)) => SharedView {
            chat: Some(chat),
            ..known
        },
        FrameView::Failed(reason) => SharedView { status: "Error: "@ + reason, ..known },
        _ => known,
    }
}

/// How an attempt to send a message ended.
#[derive(Debug, Clone, Copy, PartialEq, Eq, Structural)]
pub enum SendOutcome {
    /// There is no connection to send over.
    NotConnected,
    /// The message could not be written as text.
    NotEncoded,
    /// The sending task no longer takes messages.
    QueueClosed,
    /// The sending task has the message.
    Queued,
}

impl Default for SharedAsyncState {
    /// Nothing is known, and there is no connection.
    fn default() -> (state: Self)
        ensures
            state@ == (SharedView { client_id: None, status: "Disconnected"@, chat: None }),
    {
        SharedAsyncState {
            client_id: None,
            connection_status: "Disconnected".to_owned(),
            chat_state: None,
        }
    }
}

/// Whether `status` says what went wrong.
fn is_fault(status: &str) -> (answer: bool)
    ensures
        answer == says_fault(status@),
{
    text::starts_with(status, "Error:") || text::starts_with(status, "Failed to connect")
}

impl SharedAsyncState {
    /// Takes note of what has happened to the connection.
    pub fn note(&mut self, event: LinkEvent)
        ensures
            final(self)@ == (SharedView {
                status: status_after(old(self)@.status, event@),
                ..old(self)@
            }),
            final(self).chat_state == old(self).chat_state,
    {
        match event {
            LinkEvent::Connecting => {
                self.connection_status = "Connecting...".to_owned();
            },
            LinkEvent::OpenFailed(reason) => {
                self.connection_status = text::join("Failed to connect: ", reason.as_str());
            },
            LinkEvent::Opened => {
                self.connection_status = "Connection established, tasks starting...".to_owned();
            },
            LinkEvent::ReceiverStarted => {
                self.connection_status = "Connected (Receiver Active)".to_owned();
            },
            LinkEvent::SenderStopped => {
                if !is_fault(self.connection_status.as_str()) {
                    self.connection_status = "Disconnected (Sender Stopped)".to_owned();
                }
            },
            LinkEvent::ReceiverStopped => {
                if !is_fault(self.connection_status.as_str()) {
                    self.connection_status = "Disconnected (Receiver Stopped)".to_owned();
                }
            },
        }
    }

    /// Takes note of what was read from the connection, and says whether to go
    /// on reading.
    pub fn receive(&mut self, frame: Frame) -> (go_on: bool)
        ensures
            final(self)@ == after_frame(old(self)@, frame@),
            go_on == !(frame is Failed),
            final(self).chat_state == match frame {
                Frame::Message(ServerMessage::NewChatState(chat)) => Some(chat),
                _ => old(self).chat_state,
            },
    {
        match frame {
            Frame::Message(ServerMessage::AssignedId(id)) => {
                self.client_id = Some(id);
                true
            },
            Frame::Message(ServerMessage::NewChatState(chat)) => {
                self.chat_state = Some(chat);
                true
            },
            Frame::Message(_) | Frame::Undecodable | Frame::Bytes => true,
            Frame::Failed(reason) => {
                self.connection_status = text::join("Error: ", reason.as_str());
                false
            },
        }
    }

    /// Takes note of how an attempt to send ended: only a sending task that no
    /// longer takes messages is worth a word.
    pub fn note_send(&mut self, outcome: SendOutcome)
        ensures
            final(self)@ == (SharedView {
                status: if outcome is QueueClosed {
                    "Error: WS send channel closed"@
                } else {
                    old(self)@.status
                },
                ..old(self)@
            }),
            final(self).chat_state == old(self).chat_state,
    {
        match outcome {
            SendOutcome::QueueClosed => {
                self.connection_status = "Error: WS send channel closed".to_owned();
            },
            SendOutcome::NotConnected | SendOutcome::NotEncoded | SendOutcome::Queued => {},
        }
    }

    /// The ping to send: it carries the id that the client has, if any.
    pub fn ping(&self) -> (message: ClientMessage)
        ensures
            message@ == ClientMessageView::Ping(self@.client_id),
    {
        ClientMessage::Ping(self.client_id)
    }
}

/// What the user sees and has typed, and the way to the sending task, of type
/// `S`.
#[derive(Debug)]
pub struct MyApp<S> {
    /// The nickname field.
    pub send_nick: String,
    /// The message field.
    pub send_msg: String,
    /// Where messages to send go, once a connection has been opened.
    pub ws_sender: Option<S>,
    /// The id that is shown.
    pub client_id_display: Option<u128>,
    /// The status that is shown.
    pub connection_status_display: String,
    /// The chat that is shown.
    pub chat_state_display: Option<ChatState>,
}

/// A `MyApp` with its text as character sequences; `shown` is what the user
/// sees of the connection.
#[verifier::ext_equal]
pub struct AppView<S> {
    pub nick: Seq<char>,
    pub msg: Seq<char>,
    pub sender: Option<S>,
    pub shown: SharedView,
}

impl<S> View for MyApp<S> {
    type V = AppView<S>;

    open spec fn view(&self) -> AppView<S> {
        AppView {
            nick: self.send_nick@,
            msg: self.send_msg@,
            sender: self.ws_sender,
            shown: SharedView {
                client_id: self.client_id_display,
                status: self.connection_status_display@,
                chat: known_lines(self.chat_state_display),
            },
        }
    }
}

/// The part of the screen that shows the chat.
#[derive(Debug, PartialEq, Eq)]
pub enum ChatPanel {
    /// The chat is not known yet.
    Loading,
    /// Nothing has been said.
    Empty,
    /// These lines, from the top.
    Lines(Vec<String>),
}

/// What the screen shows.
#[derive(Debug, PartialEq, Eq)]
pub struct Screen {
    pub id_label: String,
    pub status_label: String,
    /// Whether to say that a refresh of the page tries to connect again.
    pub refresh_hint: bool,
    /// Whether to offer the ping button, the two fields and the send button.
    pub controls: bool,
    pub chat: ChatPanel,
}

/// How the client's id is shown.
pub open spec fn id_label(id: Option<u128>) -> Seq<char> {
    match id {
        Some(known) => "My Client ID: "@ + ident::id_text(known),
        None => "My Client ID: (Waiting for server...)"@,
    }
}

/// How a chat line is shown.
pub open spec fn shown_line(line: Line) -> Seq<char> {
    line.0 + ": "@ + line.1
}

/// Whether `panel` is what shows `chat`.
pub open spec fn shows_chat(panel: ChatPanel, chat: Option<Seq<Line>>) -> bool {
    match chat {
        None => panel is Loading,
        Some(lines) => if lines.len() == 0 {
            panel is Empty
        } else {
            &&& panel matches ChatPanel::Lines(rows)
            &&& rows@.len() == lines.len()
            &&& forall|i: int| 0 <= i < lines.len() ==> #[trigger] rows@[i]@ == shown_line(lines[i])
        },
    }
}

impl<S> Default for MyApp<S> {
    /// The client as it starts, with something in both fields to try out.
    fn default() -> (app: Self)
        ensures
            app@ == (AppView::<S> {
                nick: "john"@,
                msg: "hello"@,
                sender: None,
                shown: SharedView { client_id: None, status: "Disconnected"@, chat: None },
            }),
    {
        let shared = SharedAsyncState::default();
        MyApp {
            send_nick: "john".to_owned(),
            send_msg: "hello".to_owned(),
            ws_sender: None,
            client_id_display: shared.client_id,
            connection_status_display: shared.connection_status,
            chat_state_display: shared.chat_state,
        }
    }
}

impl<S> MyApp<S> {
    /// Brings what is shown up to date with what the connection's tasks know.
    pub fn refresh(&mut self, shared: &SharedAsyncState)
        ensures
            final(self)@ == (AppView { shown: shared@, ..old(self)@ }),
            final(self).chat_state_display is Some == shared.chat_state is Some,
            shared.chat_state is Some ==> final(self).chat_state_display->0.messages@
                == shared.chat_state->0.messages@,
    {
        self.client_id_display = shared.client_id;
        self.connection_status_display = shared.connection_status.clone();
        self.chat_state_display = match &shared.chat_state {
            Some(chat) => Some(chat.clone()),
            None => None,
        };
    }

    /// Takes note of how the attempt to open the connection ended: from now on
    /// messages can be sent, or there is a reason why not.
    pub fn note_open(&mut self, shared: &mut SharedAsyncState, outcome: Result<S, String>)
        ensures
            outcome matches Ok(sender) ==> final(self)@ == (AppView {
                sender: Some(sender),
                ..old(self)@
            }),
            outcome is Err ==> final(self)@ == old(self)@,
            final(shared)@ == (SharedView {
                status: status_after(
                    old(shared)@.status,
                    match outcome {
                        Ok(_) => LinkEventView::Opened,
                        Err(reason) => LinkEventView::OpenFailed(reason@),
                    },
                ),
                ..old(shared)@
            }),
            final(self).chat_state_display == old(self).chat_state_display,
            final(shared).chat_state == old(shared).chat_state,
    {
        match outcome {
            Ok(sender) => {
                self.ws_sender = Some(sender);
                shared.note(LinkEvent::Opened);
            },
            Err(reason) => {
                shared.note(LinkEvent::OpenFailed(reason));
            },
        }
    }

    /// What to show.
    pub fn screen(&self) -> (screen: Screen)
        ensures
            screen.id_label@ == id_label(self@.shown.client_id),
            screen.status_label@ == "Status: "@ + self@.shown.status,
            screen.refresh_hint == (self@.sender is None && !says_unopened(self@.shown.status)),
            screen.controls == (self@.sender is Some),
            shows_chat(screen.chat, self@.shown.chat),
    {
        let id_label: String = match self.client_id_display {
            Some(id) => {
                let text: String = ident::format_id(id);
                text::join("My Client ID: ", text.as_str())
            },
            None => "My Client ID: (Waiting for server...)".to_owned(),
        };
        let status: &str = self.connection_status_display.as_str();
        Screen {
            id_label,
            status_label: text::join("Status: ", status),
            refresh_hint: self.ws_sender.is_none() && !text::starts_with(status, "Failed to connect"),
            controls: self.ws_sender.is_some(),
            chat: self.chat_panel(),
        }
    }

    fn chat_panel(&self) -> (panel: ChatPanel)
        ensures
            shows_chat(panel, self@.shown.chat),
    {
        match &self.chat_state_display {
            None => ChatPanel::Loading,
            Some(chat) => {
                if chat.messages.len() == 0 {
                    return ChatPanel::Empty;
                }
                let mut rows: Vec<String> = Vec::new();
                let mut i: usize = 0;
                while i < chat.messages.len()
                    invariant
                        i <= chat.messages.len(),
                        rows@.len() == i,
                        forall|k: int|
                            0 <= k < i ==> #[trigger] rows@[k]@ == shown_line(chat@[k]),
                    decreases chat.messages.len() - i,
                {
                    let mut row: String = text::join(chat.messages[i].0.as_str(), ": ");
                    row.append(chat.messages[i].1.as_str());
                    rows.push(row);
                    i += 1;
                }
                ChatPanel::Lines(rows)
            },
        }
    }

    /// Takes what is typed as a chat line to send, and empties the message
    /// field. Where either field is blank there is nothing to send, and both
    /// stay as they are.
    pub fn submit(&mut self) -> (message: Option<ClientMessage>)
        ensures
            (message is None) == (text::blank(old(self)@.nick) || text::blank(old(self)@.msg)),
            message is None ==> final(self)@ == old(self)@,
            message matches Some(sent) ==> {
                &&& sent@ == ClientMessageView::Message((old(self)@.nick, old(self)@.msg))
                &&& final(self)@ == (AppView { msg: Seq::empty(), ..old(self)@ })
            },
            final(self).chat_state_display == old(self).chat_state_display,
    {
        if text::is_blank(self.send_nick.as_str()) || text::is_blank(self.send_msg.as_str()) {
            return None;
        }
        let sent = ClientMessage::Message((self.send_nick.clone(), self.send_msg.clone()));
        self.send_msg = String::new();
        Some(sent)
    }
}

} // verus!
