//! What holds of the registry, of a session, of a client, and of both ends of a
//! connection together.

use vstd::prelude::*;
use crate::client;
use crate::client::{ChatPanel, FrameView, LinkEventView, SharedView};
use crate::history;
use crate::message::{ClientMessageView, Line, ServerMessageView};
use crate::registry;
use crate::registry::ConnectedClient;
use crate::session;
use crate::session::{ActionView, EventView, Phase};

verus! {

// The registry.

/// A client that joins under a free id and leaves again is forgotten: the
/// clients are those from before.
pub proof fn law_leaving_undoes_joining(clients: Map<u128, ConnectedClient>, id: u128)
    requires
        !clients.contains_key(id),
    ensures
        registry::with_client(clients, id).remove(id) == clients,
{
    assert(registry::with_client(clients, id).remove(id) =~= clients);
}

/// Whoever joins or leaves, the other clients stay as they are.
pub proof fn law_others_stay(clients: Map<u128, ConnectedClient>, id: u128, other: u128)
    requires
        other != id,
    ensures
        registry::with_client(clients, id).contains_key(other) == clients.contains_key(other),
        clients.remove(id).contains_key(other) == clients.contains_key(other),
        clients.contains_key(other) ==> registry::with_client(clients, id)[other] == clients[other]
            && clients.remove(id)[other] == clients[other],
{
}

// One session.

/// What is to be done and the phase that follows always go together: a message
/// goes out exactly if the session then waits for the sending to end, and the
/// client is forgotten exactly if the session is over.
pub proof fn law_action_fits_phase(phase: Phase, event: EventView)
    requires
        session::expected(phase, event),
    ensures
        ({
            let (next, action) = session::reaction(phase, event);
            &&& session::is_sending(next) <==> (action is Send || action is SendHistory)
            &&& next is Listening <==> (action is Listen || action is Post)
            &&& next is Closed <==> action is Disconnect
        }),
{
}

/// A session ends exactly if the client closes the connection, reading fails,
/// the connection is at its end, or a message other than the greeting cannot be
/// handed over.
pub proof fn law_when_a_session_ends(phase: Phase, event: EventView)
    requires
        session::expected(phase, event),
    ensures
        session::reaction(phase, event).0 is Closed <==> (event is CloseFrame || event is ReadFailed
            || event is Ended || (event is SendFailed && !(phase is Greeting))),
{
}

/// Until it is over a session always has something to wait for, and after that
/// nothing.
pub proof fn law_only_closed_sessions_stop(phase: Phase)
    ensures
        (exists|event: EventView| session::expected(phase, event)) <==> !(phase is Closed),
{
    if session::is_sending(phase) {
        assert(session::expected(phase, EventView::Sent));
    } else if phase is Listening {
        assert(session::expected(phase, EventView::PingFrame));
    }
}

/// A listening session waits for everything but the end of a sending: for every
/// message of the client, whatever it says, for every other text and frame, for
/// every end of the connection, and for every broadcast.
pub proof fn law_listening_sessions_take_everything(
    said: ClientMessageView,
    reason: Seq<char>,
    news: ServerMessageView,
)
    ensures
        session::expected(Phase::Listening, EventView::Received(said)),
        session::expected(Phase::Listening, EventView::Malformed(reason)),
        session::expected(Phase::Listening, EventView::BinaryFrame),
        session::expected(Phase::Listening, EventView::PingFrame),
        session::expected(Phase::Listening, EventView::PongFrame),
        session::expected(Phase::Listening, EventView::CloseFrame),
        session::expected(Phase::Listening, EventView::ReadFailed),
        session::expected(Phase::Listening, EventView::Ended),
        session::expected(Phase::Listening, EventView::Broadcast(news)),
        !session::expected(Phase::Listening, EventView::Sent),
        !session::expected(Phase::Listening, EventView::SendFailed),
{
}

/// While a message is on its way, its sending can end well or badly, and nothing
/// else can happen.
pub proof fn law_sending_sessions_wait_for_the_end(phase: Phase, event: EventView)
    requires
        phase == Phase::Assigning || phase == Phase::Greeting || phase == Phase::Replying,
    ensures
        session::expected(phase, event) <==> event == EventView::Sent || event
            == EventView::SendFailed,
{
}

/// A session answers with a pong exactly if the client sent a ping, whatever id
/// the ping carries.
pub proof fn law_pong_answers_ping(phase: Phase, event: EventView)
    requires
        session::expected(phase, event),
    ensures
        session::reaction(phase, event).1 == ActionView::Send(ServerMessageView::Pong) <==> (
        event matches EventView::Received(message) && message is Ping),
{
}

/// A line is posted exactly if the client sent it, and as the client sent it.
pub proof fn law_posts_are_the_clients_words(phase: Phase, event: EventView, line: Line)
    requires
        session::expected(phase, event),
    ensures
        session::reaction(phase, event).1 == ActionView::Post(line) <==> event
            == EventView::Received(ClientMessageView::Message(line)),
{
}

/// A text that holds no message is answered with the reason, and the session
/// goes on once the answer is handed over.
pub proof fn law_refusal_keeps_the_session(reason: Seq<char>)
    ensures
        session::reaction(Phase::Listening, EventView::Malformed(reason)) == (
            Phase::Replying,
            ActionView::Send(session::refusal(reason)),
        ),
        session::reaction(Phase::Replying, EventView::Sent) == (
            Phase::Listening,
            ActionView::Listen,
        ),
{
}

/// Of what the server says to all, a session hands on the state of the chat,
/// unchanged, and nothing else.
pub proof fn law_only_chat_news_is_handed_on(message: ServerMessageView)
    ensures
        session::reaction(Phase::Listening, EventView::Broadcast(message)).1 == (
        if message is NewChatState {
            ActionView::Send(message)
        } else {
            ActionView::Listen
        }),
{
}

/// The phase of a session after `events`, from its opening.
pub open spec fn phase_after(events: Seq<EventView>) -> Phase
    decreases events.len(),
{
    if events.len() == 0 {
        Phase::Assigning
    } else {
        session::reaction(phase_after(events.drop_last()), events.last()).0
    }
}

/// Whether `events` can happen to a session, in this order, from its opening.
pub open spec fn possible(events: Seq<EventView>) -> bool
    decreases events.len(),
{
    events.len() > 0 ==> {
        &&& possible(events.drop_last())
        &&& session::expected(phase_after(events.drop_last()), events.last())
    }
}

/// In every course of a session the id goes out first and the history second:
/// the history is sent exactly when the id has just been handed over, which is
/// the first thing that happens, and nothing else is sent until the greeting is
/// done with.
pub proof fn law_greeting_comes_first(events: Seq<EventView>, event: EventView)
    requires
        possible(events),
        session::expected(phase_after(events), event),
    ensures
        session::reaction(phase_after(events), event).1 is SendHistory <==> (events.len() == 0
            && event is Sent),
        events.len() == 0 ==> session::ends_sending(event),
        session::reaction(phase_after(events), event).1 is Send ==> events.len() >= 2,
{
    lemma_first_phases(events);
}

/// Only before the first event is the id on its way, and only after a good
/// first event is the greeting.
proof fn lemma_first_phases(events: Seq<EventView>)
    requires
        possible(events),
    ensures
        phase_after(events) is Assigning <==> events.len() == 0,
        phase_after(events) is Greeting ==> events.len() == 1,
        events.len() == 1 ==> phase_after(events) is Greeting || phase_after(events) is Closed,
    decreases events.len(),
{
    if events.len() > 0 {
        lemma_first_phases(events.drop_last());
    }
}

// The client.

/// What a client knows after reading `frames`, from `known`.
pub open spec fn after_frames(known: SharedView, frames: Seq<FrameView>) -> SharedView
    decreases frames.len(),
{
    if frames.len() == 0 {
        known
    } else {
        client::after_frame(after_frames(known, frames.drop_last()), frames.last())
    }
}

/// The server has the last word: whatever a client read before, the chat that
/// it knows is the one that the server told it last.
pub proof fn law_chat_is_what_the_server_said_last(
    known: SharedView,
    frames: Seq<FrameView>,
    k: int,
    chat: Seq<Line>,
)
    requires
        0 <= k < frames.len(),
        frames[k] == FrameView::Message(ServerMessageView::NewChatState(chat)),
        forall|j: int|
            k < j < frames.len() ==> !(#[trigger] frames[j] matches FrameView::Message(message)
                && message is NewChatState),
    ensures
        after_frames(known, frames).chat == Some(chat),
    decreases frames.len(),
{
    if k < frames.len() - 1 {
        assert(frames.drop_last()[k] == frames[k]);
        assert forall|j: int| k < j < frames.len() - 1 implies !(#[trigger] frames.drop_last()[j]
            matches FrameView::Message(message) && message is NewChatState) by {
            assert(frames.drop_last()[j] == frames[j]);
        }
        law_chat_is_what_the_server_said_last(known, frames.drop_last(), k, chat);
        let last = frames[frames.len() - 1];
        assert(!(last matches FrameView::Message(message) && message is NewChatState));
    }
}

/// A client's chat and id change by the server's word alone.
pub proof fn law_only_the_server_changes_the_chat(known: SharedView, frame: FrameView)
    ensures
        client::after_frame(known, frame).chat != known.chat ==> (frame matches FrameView::Message(
            message,
        ) && message is NewChatState),
        client::after_frame(known, frame).client_id != known.client_id ==> (
        frame matches FrameView::Message(message) && message is AssignedId),
{
}

/// A pong or a refusal changes nothing that the client knows.
pub proof fn law_answers_change_nothing(known: SharedView, reason: Seq<char>)
    ensures
        client::after_frame(known, FrameView::Message(ServerMessageView::Pong)) == known,
        client::after_frame(known, FrameView::Message(ServerMessageView::Error(reason))) == known,
{
}

// Server and client together.

/// The client learns the id under which the server keeps it.
pub proof fn law_client_learns_its_id(known: SharedView, id: u128)
    ensures
        client::after_frame(known, FrameView::Message(ServerMessageView::AssignedId(id)))
            == (SharedView { client_id: Some(id), ..known }),
{
}

/// A new client is shown the server's history as it stands.
pub proof fn law_greeting_shows_the_history(known: SharedView, history: Seq<Line>)
    ensures
        client::after_frame(known, FrameView::Message(ServerMessageView::NewChatState(history)))
            == (SharedView { chat: Some(history), ..known }),
{
}

/// What one client posts, every client whose session hears the news sees: the
/// session hands the news on, the client then knows exactly the server's history
/// as it was with the line, and the line is the last on its screen.
pub proof fn law_a_post_reaches_who_hears_it(
    history: Seq<Line>,
    line: Line,
    known: SharedView,
    panel: ChatPanel,
)
    requires
        client::shows_chat(panel, Some(history::recorded(history, line))),
    ensures
        ({
            let news = ServerMessageView::NewChatState(history::recorded(history, line));
            &&& session::reaction(Phase::Listening, EventView::Broadcast(news)) == (
                Phase::Replying,
                ActionView::Send(news),
            )
            &&& client::after_frame(known, FrameView::Message(news)) == (SharedView {
                chat: Some(history::recorded(history, line)),
                ..known
            })
        }),
        panel matches ChatPanel::Lines(rows) && rows@.len() > 0 && rows@.last()@
            == client::shown_line(line),
{
    let now = history::recorded(history, line);
    assert(now.len() > 0 && now.last() == line);
}

// The connection's status.

/// The status after `events`, from `status`.
pub open spec fn status_after_all(status: Seq<char>, events: Seq<LinkEventView>) -> Seq<char>
    decreases events.len(),
{
    if events.len() == 0 {
        status
    } else {
        client::status_after(status_after_all(status, events.drop_last()), events.last())
    }
}

/// Every failure leaves a status that says what went wrong, and none of the
/// other statuses does.
pub proof fn law_failures_are_faults(status: Seq<char>, known: SharedView, reason: Seq<char>)
    ensures
        client::says_unopened(client::status_after(status, LinkEventView::OpenFailed(reason))),
        client::says_fault(client::after_frame(known, FrameView::Failed(reason)).status),
        client::says_fault("Error: WS send channel closed"@),
        !client::says_fault("Disconnected"@),
        !client::says_fault(client::status_after(status, LinkEventView::Connecting)),
        !client::says_fault(client::status_after(status, LinkEventView::Opened)),
        !client::says_fault(client::status_after(status, LinkEventView::ReceiverStarted)),
        !client::says_fault("Disconnected (Sender Stopped)"@),
        !client::says_fault("Disconnected (Receiver Stopped)"@),
{
    reveal_strlit("Error:");
    reveal_strlit("Error: ");
    reveal_strlit("Failed to connect");
    reveal_strlit("Failed to connect: ");
    reveal_strlit("Error: WS send channel closed");
    reveal_strlit("Disconnected");
    reveal_strlit("Connecting...");
    reveal_strlit("Connection established, tasks starting...");
    reveal_strlit("Connected (Receiver Active)");
    reveal_strlit("Disconnected (Sender Stopped)");
    reveal_strlit("Disconnected (Receiver Stopped)");
    lemma_other_start("Disconnected"@);
    lemma_other_start("Connecting..."@);
    lemma_other_start("Connection established, tasks starting..."@);
    lemma_other_start("Connected (Receiver Active)"@);
    lemma_other_start("Disconnected (Sender Stopped)"@);
    lemma_other_start("Disconnected (Receiver Stopped)"@);
}

/// A status that begins with another letter says nothing of a fault.
proof fn lemma_other_start(status: Seq<char>)
    requires
        status.len() > 0,
        status[0] != 'E' && status[0] != 'F',
    ensures
        !client::says_fault(status),
{
    reveal_strlit("Error:");
    reveal_strlit("Failed to connect");
    if "Error:"@.is_prefix_of(status) {
        assert("Error:"@[0] == status.subrange(0, "Error:"@.len() as int)[0]);
    }
    if "Failed to connect"@.is_prefix_of(status) {
        assert("Failed to connect"@[0] == status.subrange(
            0,
            "Failed to connect"@.len() as int,
        )[0]);
    }
}

/// A status that says what went wrong outlives the end of the connection's
/// tasks, in whatever order they end.
pub proof fn law_fault_outlives_the_tasks(status: Seq<char>, events: Seq<LinkEventView>)
    requires
        client::says_fault(status),
        forall|i: int|
            0 <= i < events.len() ==> #[trigger] events[i] is SenderStopped
                || events[i] is ReceiverStopped,
    ensures
        status_after_all(status, events) == status,
    decreases events.len(),
{
    if events.len() > 0 {
        assert forall|i: int| 0 <= i < events.len() - 1 implies #[trigger] events.drop_last()[i]
            is SenderStopped || events.drop_last()[i] is ReceiverStopped by {
            assert(events.drop_last()[i] == events[i]);
        }
        law_fault_outlives_the_tasks(status, events.drop_last());
        assert(events[events.len() - 1] == events.last());
    }
}

} // verus!
