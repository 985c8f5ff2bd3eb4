//! The messages that clients and the server exchange.

use vstd::prelude::*;

verus! {

/// One chat line as the contracts see it: who wrote it, and what was written.
pub type Line = (Seq<char>, Seq<char>);

/// The lines that a list of (nickname, message) pairs stands for.
pub open spec fn lines(entries: Seq<(String, String)>) -> Seq<Line> {
    Seq::new(entries.len(), |i: int| (entries[i].0@, entries[i].1@))
}

/// The chat as clients see it: (nickname, message) pairs, oldest first.
#[derive(Debug, PartialEq, Eq)]
pub struct ChatState {
    pub messages: Vec<(String, String)>,
}

impl View for ChatState {
    type V = Seq<Line>;

    open spec fn view(&self) -> Seq<Line> {
        lines(self.messages@)
    }
}

impl Clone for ChatState {
    /// The copy shows the same lines in the same order.
    fn clone(&self) -> (copy: Self)
        ensures
            copy@ == self@,
            copy.messages@ == self.messages@,
    {
        ChatState { messages: copy_entries(&self.messages) }
    }
}

/// Copies a list of chat entries.
pub(crate) fn copy_entries(entries: &Vec<(String, String)>) -> (copy: Vec<(String, String)>)
    ensures
        copy@ == entries@,
{
    let mut copy: Vec<(String, String)> = Vec::with_capacity(entries.len());
    let mut i: usize = 0;
    while i < entries.len()
        invariant
            i <= entries.len(),
            copy@ == entries@.take(i as int),
        decreases entries.len() - i,
    {
        copy.push((entries[i].0.clone(), entries[i].1.clone()));
        i += 1;
    }
    copy
}

/// What a client says to the server.
#[derive(Debug, PartialEq, Eq)]
pub enum ClientMessage {
    /// A request for a `Pong`, with the id that the client believes it has.
    Ping(Option<u128>),
    /// A chat line: nickname and message.
    Message((String, String)),
}

/// A `ClientMessage` with its text as character sequences.
pub enum ClientMessageView {
    Ping(Option<u128>),
    Message(Line),
}

impl View for ClientMessage {
    type V = ClientMessageView;

    open spec fn view(&self) -> ClientMessageView {
        match *self {
            ClientMessage::Ping(id) => ClientMessageView::Ping(id),
            ClientMessage::Message(entry) => ClientMessageView::Message((entry.0@, entry.1@)),
        }
    }
}

impl Clone for ClientMessage {
    /// The copy says the same.
    fn clone(&self) -> (copy: Self)
        ensures
            copy@ == self@,
    {
        match self {
            ClientMessage::Ping(id) => ClientMessage::Ping(*id),
            ClientMessage::Message(entry) => ClientMessage::Message(
                (entry.0.clone(), entry.1.clone()),
            ),
        }
    }
}

/// What the server says to a client.
#[derive(Debug, PartialEq, Eq)]
pub enum ServerMessage {
    /// The answer to a `Ping`.
    Pong,
    /// The id under which the server keeps this client.
    AssignedId(u128),
    /// The chat as it now stands.
    NewChatState(ChatState),
    /// Why the last text from the client was refused.
    Error(String),
}

/// A `ServerMessage` with its text as character sequences.
pub enum ServerMessageView {
    Pong,
    AssignedId(u128),
    NewChatState(Seq<Line>),
    Error(Seq<char>),
}

impl View for ServerMessage {
    type V = ServerMessageView;

    open spec fn view(&self) -> ServerMessageView {
        match *self {
            ServerMessage::Pong => ServerMessageView::Pong,
            ServerMessage::AssignedId(id) => ServerMessageView::AssignedId(id),
            ServerMessage::NewChatState(chat) => ServerMessageView::NewChatState(chat@),
            ServerMessage::Error(reason) => ServerMessageView::Error(reason@),
        }
    }
}

impl Clone for ServerMessage {
    /// The copy says the same.
    fn clone(&self) -> (copy: Self)
        ensures
            copy@ == self@,
    {
        match self {
            ServerMessage::Pong => ServerMessage::Pong,
            ServerMessage::AssignedId(id) => ServerMessage::AssignedId(*id),
            ServerMessage::NewChatState(chat) => ServerMessage::NewChatState(chat.clone()),
            ServerMessage::Error(reason) => ServerMessage::Error(reason.clone()),
        }
    }
}

} // verus!
