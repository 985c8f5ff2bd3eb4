//! The chat history that the server keeps.

use vstd::prelude::*;
use crate::message;
use crate::message::{ChatState, Line, ServerMessage, ServerMessageView};
use crate::session::{Action, ActionView, Outgoing, OutgoingView};

verus! {

/// How many chat lines the server remembers.
pub const HISTORY_LIMIT: usize = 100;

/// The history after one more line: the line goes to the end, and when that is
/// one line too many, the oldest goes.
pub open spec fn recorded(history: Seq<Line>, line: Line) -> Seq<Line> {
    let longer = history.push(line);
    if longer.len() > HISTORY_LIMIT {
        longer.drop_first()
    } else {
        longer
    }
}

/// The history after a session's action, and what is left to do: a greeting is
/// the history as it stands, a posted line is recorded and the history with it
/// goes to all clients, and every other action is handed on and changes nothing.
pub open spec fn answered(history: Seq<Line>, action: ActionView) -> (Seq<Line>, OutgoingView) {
    match action {
        ActionView::SendHistory => (
            history,
            OutgoingView::Send(ServerMessageView::NewChatState(history)),
        ),
        ActionView::Post(line) => (
            recorded(history, line),
            OutgoingView::Broadcast(ServerMessageView::NewChatState(recorded(history, line))),
        ),
        ActionView::Send(message) => (history, OutgoingView::Send(message)),
        ActionView::Listen => (history, OutgoingView::Listen),
        ActionView::Disconnect => (history, OutgoingView::Disconnect),
    }
}

/// What the server knows of the chat. Its view is the history, oldest line first.
#[derive(Debug)]
pub struct GameState {
    chat_messages: Vec<(String, String)>,
}

impl View for GameState {
    type V = Seq<Line>;

    closed spec fn view(&self) -> Seq<Line> {
        message::lines(self.chat_messages@)
    }
}

impl Default for GameState {
    /// A chat in which nothing has been said.
    fn default() -> (state: Self)
        ensures
            state@ == Seq::<Line>::empty(),
            state.wf(),
    {
        GameState { chat_messages: Vec::new() }
    }
}

impl Clone for GameState {
    /// The copy remembers the same lines.
    fn clone(&self) -> (copy: Self)
        ensures
            copy@ == self@,
    {
        GameState { chat_messages: message::copy_entries(&self.chat_messages) }
    }
}

impl GameState {
    /// The history is within its limit.
    pub open spec fn wf(&self) -> bool {
        self@.len() <= HISTORY_LIMIT
    }

    /// Records a chat line and returns the news of it for every client: the
    /// whole history as it stands with the new line.
    pub fn post(&mut self, nick: String, msg: String) -> (news: ServerMessage)
        ensures
            final(self)@ == recorded(old(self)@, (nick@, msg@)),
            news@ == ServerMessageView::NewChatState(final(self)@),
            old(self).wf() ==> final(self).wf(),
    {
        self.chat_messages.push((nick, msg));
        assert(message::lines(self.chat_messages@) == old(self)@.push((nick@, msg@)));
        if self.chat_messages.len() > HISTORY_LIMIT {
            let ghost longer = self.chat_messages@;
            self.chat_messages.remove(0);
            assert(message::lines(self.chat_messages@) == message::lines(longer).drop_first());
        }
        self.news()
    }

    /// Does a session's action as far as the history has a part in it, and says
    /// what is left to do.
    pub fn answer(&mut self, action: Action) -> (out: Outgoing)
        ensures
            (final(self)@, out@) == answered(old(self)@, action@),
            action matches Action::Send(message) ==> out == Outgoing::Send(message),
            old(self).wf() ==> final(self).wf(),
    {
        match action {
            Action::SendHistory => Outgoing::Send(self.news()),
            Action::Post(nick, msg) => Outgoing::Broadcast(self.post(nick, msg)),
            Action::Send(message) => Outgoing::Send(message),
            Action::Listen => Outgoing::Listen,
            Action::Disconnect => Outgoing::Disconnect,
        }
    }

    /// The news that greets a new client: the whole history.
    pub fn news(&self) -> (news: ServerMessage)
        ensures
            news@ == ServerMessageView::NewChatState(self@),
    {
        ServerMessage::NewChatState(ChatState { messages: message::copy_entries(&self.chat_messages) })
    }
}

} // verus!
