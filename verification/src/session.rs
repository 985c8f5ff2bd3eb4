//! The server's side of one connection.
//!
//! A session decides and never waits: it is told what has happened and says
//! what to do next. While a message is on its way to the client, the only thing
//! that can happen is that the sending ends, well or badly.

use vstd::prelude::*;
use crate::message::{
    ClientMessage, ClientMessageView, Line, ServerMessage, ServerMessageView,
};
use crate::text;

verus! {

/// How far a session has come.
#[derive(Debug, Clone, Copy, PartialEq, Eq, Structural)]
pub enum Phase {
    /// The client's id is on its way to the client.
    Assigning,
    /// The chat history is on its way to a client that knows its id.
    Greeting,
    /// Waiting for the client to speak, or for news of the chat.
    Listening,
    /// An answer, or news, is on its way to the client.
    Replying,
    /// The client is gone.
    Closed,
}

/// What can happen to a session.
#[derive(Debug)]
pub enum Event {
    /// The message on its way was handed over.
    Sent,
    /// The message on its way could not be handed over.
    SendFailed,
    /// The client sent a text that holds this message.
    Received(ClientMessage),
    /// The client sent a text that holds no message, for this reason.
    Malformed(String),
    /// The client sent a binary frame.
    BinaryFrame,
    /// The client sent a WebSocket ping.
    PingFrame,
    /// The client sent a WebSocket pong.
    PongFrame,
    /// The client sent a close frame.
    CloseFrame,
    /// Reading from the connection failed.
    ReadFailed,
    /// The connection is at its end.
    Ended,
    /// The server said this to all its clients.
    Broadcast(ServerMessage),
}

/// An `Event` with its text as character sequences.
pub enum EventView {
    Sent,
    SendFailed,
    Received(ClientMessageView),
    Malformed(Seq<char>),
    BinaryFrame,
    PingFrame,
    PongFrame,
    CloseFrame,
    ReadFailed,
    Ended,
    Broadcast(ServerMessageView),
}

impl View for Event {
    type V = EventView;

    open spec fn view(&self) -> EventView {
        match *self {
            Event::Sent => EventView::Sent,
            Event::SendFailed => EventView::SendFailed,
            Event::Received(message) => EventView::Received(message@),
            Event::Malformed(reason) => EventView::Malformed(reason@),
            Event::BinaryFrame => EventView::BinaryFrame,
            Event::PingFrame => EventView::PingFrame,
            Event::PongFrame => EventView::PongFrame,
            Event::CloseFrame => EventView::CloseFrame,
            Event::ReadFailed => EventView::ReadFailed,
            Event::Ended => EventView::Ended,
            Event::Broadcast(message) => EventView::Broadcast(message@),
        }
    }
}

/// What a session wants done.
#[derive(Debug)]
pub enum Action {
    /// Send this message to the client.
    Send(ServerMessage),
    /// Send the chat history to the client, then follow the broadcasts
    /// (see `GameState::answer`).
    SendHistory,
    /// Record this chat line (nickname and message), broadcast the news, and
    /// wait for the next event (see `GameState::answer`). The line is recorded
    /// first; until the news is broadcast, other sessions may go on.
    Post(String, String),
    /// Wait for the next event.
    Listen,
    /// Forget the client.
    Disconnect,
}

/// An `Action` with its text as character sequences.
pub enum ActionView {
    Send(ServerMessageView),
    SendHistory,
    Post(Line),
    Listen,
    Disconnect,
}

impl View for Action {
    type V = ActionView;

    open spec fn view(&self) -> ActionView {
        match *self {
            Action::Send(message) => ActionView::Send(message@),
            Action::SendHistory => ActionView::SendHistory,
            Action::Post(nick, msg) => ActionView::Post((nick@, msg@)),
            Action::Listen => ActionView::Listen,
            Action::Disconnect => ActionView::Disconnect,
        }
    }
}

/// What is left to do once the chat history has been consulted.
#[derive(Debug)]
pub enum Outgoing {
    /// Send this message to the client.
    Send(ServerMessage),
    /// Say this to all clients, before anything else is done for this client,
    /// and wait for the next event. The history may have gone on by then.
    Broadcast(ServerMessage),
    /// Wait for the next event.
    Listen,
    /// Forget the client.
    Disconnect,
}

/// An `Outgoing` with its text as character sequences.
pub enum OutgoingView {
    Send(ServerMessageView),
    Broadcast(ServerMessageView),
    Listen,
    Disconnect,
}

impl View for Outgoing {
    type V = OutgoingView;

    open spec fn view(&self) -> OutgoingView {
        match *self {
            Outgoing::Send(message) => OutgoingView::Send(message@),
            Outgoing::Broadcast(message) => OutgoingView::Broadcast(message@),
            Outgoing::Listen => OutgoingView::Listen,
            Outgoing::Disconnect => OutgoingView::Disconnect,
        }
    }
}

/// Whether a message is on its way to the client.
pub open spec fn is_sending(phase: Phase) -> bool {
    phase is Assigning || phase is Greeting || phase is Replying
}

/// Whether `event` tells how a sending ended.
pub open spec fn ends_sending(event: EventView) -> bool {
    event is Sent || event is SendFailed
}

/// Whether `event` can happen in `phase`.
pub open spec fn expected(phase: Phase, event: EventView) -> bool {
    if ends_sending(event) {
        is_sending(phase)
    } else {
        phase is Listening
    }
}

/// What the client is told of a text that holds no message.
pub open spec fn refusal(reason: Seq<char>) -> ServerMessageView {
    ServerMessageView::Error("Invalid message format: "@ + reason)
}

/// The phase that follows, and what is to be done.
pub open spec fn reaction(phase: Phase, event: EventView) -> (Phase, ActionView) {
    match event {
        EventView::Sent => if phase is Assigning {
            (Phase::Greeting, ActionView::SendHistory)
        } else {
            (Phase::Listening, ActionView::Listen)
        },
        EventView::SendFailed => if phase is Greeting {
            (Phase::Listening, ActionView::Listen)
        } else {
            (Phase::Closed, ActionView::Disconnect)
        },
        EventView::Received(ClientMessageView::Ping(_)) => (
            Phase::Replying,
            ActionView::Send(ServerMessageView::Pong),
        ),
        EventView::Received(ClientMessageView::Message(line)) => (
            Phase::Listening,
            ActionView::Post(line),
        ),
        EventView::Malformed(reason) => (Phase::Replying, ActionView::Send(refusal(reason))),
        EventView::BinaryFrame | EventView::PingFrame | EventView::PongFrame => (
            Phase::Listening,
            ActionView::Listen,
        ),
        EventView::CloseFrame | EventView::ReadFailed | EventView::Ended => (
            Phase::Closed,
            ActionView::Disconnect,
        ),
        EventView::Broadcast(message) => if message is NewChatState {
            (Phase::Replying, ActionView::Send(message))
        } else {
            (Phase::Listening, ActionView::Listen)
        },
    }
}

/// One client's connection, as the server sees it.
#[derive(Debug)]
pub struct Session {
    client_id: u128,
    phase: Phase,
}

impl Session {
    /// The id under which the server knows the client.
    pub closed spec fn spec_client_id(&self) -> u128 {
        self.client_id
    }

    /// How far the session has come.
    pub closed spec fn spec_phase(&self) -> Phase {
        self.phase
    }

    /// Opens the session of the client with the given id. The first thing to do
    /// is to tell the client its id.
    pub fn open(client_id: u128) -> (opened: (Session, Action))
        ensures
            opened.0.client_id() == client_id,
            opened.0.phase() == Phase::Assigning,
            opened.1@ == ActionView::Send(ServerMessageView::AssignedId(client_id)),
    {
        let session = Session { client_id, phase: Phase::Assigning };
        (session, Action::Send(ServerMessage::AssignedId(client_id)))
    }

    #[verifier::when_used_as_spec(spec_client_id)]
    pub fn client_id(&self) -> (id: u128)
        ensures
            id == self.client_id(),
    {
        self.client_id
    }

    #[verifier::when_used_as_spec(spec_phase)]
    pub fn phase(&self) -> (phase: Phase)
        ensures
            phase == self.phase(),
    {
        self.phase
    }

    /// Whether `event` can happen to the session as it stands.
    pub fn expects(&self, event: &Event) -> (answer: bool)
        ensures
            answer == expected(self.phase(), event@),
    {
        match event {
            Event::Sent | Event::SendFailed => match self.phase {
                Phase::Assigning | Phase::Greeting | Phase::Replying => true,
                Phase::Listening | Phase::Closed => false,
            },
            _ => match self.phase {
                Phase::Listening => true,
                _ => false,
            },
        }
    }

    /// Takes note of what has happened and decides what to do.
    pub fn step(&mut self, event: Event) -> (action: Action)
        requires
            expected(old(self).phase(), event@),
        ensures
            final(self).client_id() == old(self).client_id(),
            (final(self).phase(), action@) == reaction(old(self).phase(), event@),
    {
        match event {
            Event::Sent => {
                if self.phase == Phase::Assigning {
                    self.phase = Phase::Greeting;
                    Action::SendHistory
                } else {
                    self.phase = Phase::Listening;
                    Action::Listen
                }
            },
            Event::SendFailed => {
                if self.phase == Phase::Greeting {
                    self.phase = Phase::Listening;
                    Action::Listen
                } else {
                    self.phase = Phase::Closed;
                    Action::Disconnect
                }
            },
            Event::Received(ClientMessage::Ping(_)) => {
                self.phase = Phase::Replying;
                Action::Send(ServerMessage::Pong)
            },
            Event::Received(ClientMessage::Message((nick, msg))) => Action::Post(nick, msg),
            Event::Malformed(reason) => {
                self.phase = Phase::Replying;
                let told: String = text::join("Invalid message format: ", reason.as_str());
                Action::Send(ServerMessage::Error(told))
            },
            Event::BinaryFrame | Event::PingFrame | Event::PongFrame => Action::Listen,
            Event::CloseFrame | Event::ReadFailed | Event::Ended => {
                self.phase = Phase::Closed;
                Action::Disconnect
            },
            Event::Broadcast(ServerMessage::NewChatState(chat)) => {
                self.phase = Phase::Replying;
                Action::Send(ServerMessage::NewChatState(chat))
            },
            Event::Broadcast(_) => Action::Listen,
        }
    }
}

} // verus!
