//! The whole server at work: its clients, their sessions, the chat history and
//! the broadcasts, and what holds of them whatever happens.
//!
//! The sessions run side by side, and every step here is one that the others
//! cannot divide. Recording a posted line is one such step, announcing it to all
//! clients is another: between the two, other sessions may record lines,
//! announce theirs, or greet a client. So may they between the end of a session
//! and the removal of its client from the registry.

use vstd::prelude::*;
use crate::client::{FrameView, SharedView};
use crate::history;
use crate::history::HISTORY_LIMIT;
use crate::laws;
use crate::message::{ClientMessageView, Line, ServerMessageView};
use crate::registry;
use crate::registry::ConnectedClient;
use crate::session;
use crate::session::{EventView, OutgoingView, Phase};

verus! {

/// What can happen to the server.
pub enum SystemEvent {
    /// A connection is opened, and its client filed under `id`.
    Opened { connection: nat, id: u128 },
    /// Something happens on a connection; a posted line is recorded.
    Happened { connection: nat, event: EventView },
    /// The news of the line that a connection's session recorded is broadcast.
    Announced { connection: nat },
    /// A connection's session hears what was broadcast, counted from the first
    /// broadcast ever.
    Heard { connection: nat, index: nat },
    /// The client of a session that is over is taken out of the registry.
    Forgotten { connection: nat },
}

/// News for all clients.
pub struct News {
    pub message: ServerMessageView,
    /// How many lines had been posted when the chat was as the news says.
    pub as_of: nat,
}

/// A connection from its opening until its client is forgotten.
pub struct Connection {
    /// The id of the client.
    pub id: u128,
    /// How far the session has come.
    pub phase: Phase,
    /// The first broadcast that the session can still hear.
    pub next: nat,
    /// News that the session has yet to broadcast.
    pub pending: Option<News>,
}

/// A message that a session gave out to be sent to its client.
pub struct Sent {
    pub message: ServerMessageView,
    /// For the state of a chat: how many lines had been posted when that was
    /// its state.
    pub as_of: Option<nat>,
    /// For a broadcast that is handed on: which one.
    pub heard: Option<nat>,
}

/// The server as a whole.
pub struct System {
    /// The registry.
    pub clients: Map<u128, ConnectedClient>,
    /// The connections whose clients are not forgotten.
    pub sessions: Map<nat, Connection>,
    /// The chat history.
    pub history: Seq<Line>,
    /// How many lines were ever posted.
    pub posts: nat,
    /// All that was ever broadcast, in order.
    pub broadcasts: Seq<News>,
    /// All that was ever given out to be sent on each connection, in order.
    pub sent: Map<nat, Seq<Sent>>,
}

/// The server before anything has happened.
pub open spec fn at_start() -> System {
    System {
        clients: Map::empty(),
        sessions: Map::empty(),
        history: Seq::empty(),
        posts: 0,
        broadcasts: Seq::empty(),
        sent: Map::empty(),
    }
}

/// Whether `event` can happen. A connection is opened once. Then what happens on
/// it is what its session waits for; but news that the session has yet to
/// broadcast goes first, and where the session is over, all that is left is to
/// forget the client. A session hears each broadcast at most once, in order,
/// from its subscription on; it may miss some.
pub open spec fn can_happen(system: System, event: SystemEvent) -> bool {
    match event {
        SystemEvent::Opened { connection, id } => !system.sent.contains_key(connection),
        SystemEvent::Happened { connection, event } => {
            &&& system.sessions.contains_key(connection)
            &&& system.sessions[connection].pending is None
            &&& session::expected(system.sessions[connection].phase, event)
            &&& !(event is Broadcast)
        },
        SystemEvent::Announced { connection } => {
            &&& system.sessions.contains_key(connection)
            &&& system.sessions[connection].pending is Some
        },
        SystemEvent::Heard { connection, index } => {
            &&& system.sessions.contains_key(connection)
            &&& system.sessions[connection].pending is None
            &&& session::expected(
                system.sessions[connection].phase,
                EventView::Broadcast(system.broadcasts[index as int].message),
            )
            &&& system.sessions[connection].next <= index < system.broadcasts.len()
        },
        SystemEvent::Forgotten { connection } => {
            &&& system.sessions.contains_key(connection)
            &&& system.sessions[connection].phase is Closed
        },
    }
}

/// The server after `event` on a connection, once what the session wants done
/// has been done, but for the broadcast of a line that it posts, which is then
/// pending. A chat that is sent is its state as of `as_of` posts; `heard` is the
/// broadcast that `event` is, if it is one. From then on the session can hear
/// the broadcasts from `next` on; where the greeting is done with, it
/// subscribes, and hears those still to come.
pub open spec fn reacted(
    system: System,
    connection: nat,
    event: EventView,
    as_of: nat,
    heard: Option<nat>,
    next: nat,
) -> System {
    let live = system.sessions[connection];
    let (phase, action) = session::reaction(live.phase, event);
    let (history, out) = history::answered(system.history, action);
    let position = if live.phase is Greeting {
        system.broadcasts.len()
    } else {
        next
    };
    let posts = if out is Broadcast {
        system.posts + 1
    } else {
        system.posts
    };
    let pending = match out {
        OutgoingView::Broadcast(message) => Some(News { message, as_of: posts }),
        _ => None,
    };
    System {
        sessions: system.sessions.insert(
            connection,
            Connection { id: live.id, phase, next: position, pending },
        ),
        history,
        posts,
        sent: match out {
            OutgoingView::Send(message) => system.sent.insert(
                connection,
                system.sent[connection].push(
                    Sent {
                        message,
                        as_of: if message is NewChatState {
                            Some(as_of)
                        } else {
                            None
                        },
                        heard,
                    },
                ),
            ),
            _ => system.sent,
        },
        ..system
    }
}

/// The server after `event`.
pub open spec fn system_next(system: System, event: SystemEvent) -> System {
    match event {
        SystemEvent::Opened { connection, id } => System {
            clients: registry::with_client(system.clients, id),
            sessions: system.sessions.insert(
                connection,
                Connection { id, phase: Phase::Assigning, next: 0, pending: None },
            ),
            sent: system.sent.insert(
                connection,
                seq![
                    Sent {
                        message: ServerMessageView::AssignedId(id),
                        as_of: None,
                        heard: None,
                    },
                ],
            ),
            ..system
        },
        SystemEvent::Happened { connection, event } => reacted(
            system,
            connection,
            event,
            system.posts,
            None,
            system.sessions[connection].next,
        ),
        SystemEvent::Announced { connection } => {
            let live = system.sessions[connection];
            System {
                sessions: system.sessions.insert(connection, Connection { pending: None, ..live }),
                broadcasts: system.broadcasts.push(live.pending->0),
                ..system
            }
        },
        SystemEvent::Heard { connection, index } => reacted(
            system,
            connection,
            EventView::Broadcast(system.broadcasts[index as int].message),
            system.broadcasts[index as int].as_of,
            Some(index),
            index + 1,
        ),
        SystemEvent::Forgotten { connection } => System {
            clients: system.clients.remove(system.sessions[connection].id),
            sessions: system.sessions.remove(connection),
            ..system
        },
    }
}

/// The server after `events`, from its start.
pub open spec fn system_after(events: Seq<SystemEvent>) -> System
    decreases events.len(),
{
    if events.len() == 0 {
        at_start()
    } else {
        system_next(system_after(events.drop_last()), events.last())
    }
}

/// Whether `events` can happen, in this order, from the server's start.
pub open spec fn possible(events: Seq<SystemEvent>) -> bool
    decreases events.len(),
{
    events.len() > 0 ==> {
        &&& possible(events.drop_last())
        &&& can_happen(system_after(events.drop_last()), events.last())
    }
}

/// Whether no line was recorded while the news of another had yet to be
/// broadcast.
pub open spec fn prompt(events: Seq<SystemEvent>) -> bool
    decreases events.len(),
{
    events.len() > 0 ==> {
        &&& prompt(events.drop_last())
        &&& said(events) != said(events.drop_last()) ==> forall|c: nat| #[trigger]
            system_after(events.drop_last()).sessions.contains_key(c) ==> system_after(
                events.drop_last(),
            ).sessions[c].pending is None
    }
}

/// Whether the news of the lines was broadcast in the order in which they were
/// posted.
pub open spec fn announced_in_order(system: System) -> bool {
    forall|i: int, j: int|
        0 <= i < j < system.broadcasts.len() ==> #[trigger] system.broadcasts[i].as_of
            < #[trigger] system.broadcasts[j].as_of
}

/// Whether no id was drawn while another client had it.
pub open spec fn ids_differ(events: Seq<SystemEvent>) -> bool
    decreases events.len(),
{
    events.len() > 0 ==> {
        &&& ids_differ(events.drop_last())
        &&& events.last() matches SystemEvent::Opened { connection, id } ==> !system_after(
            events.drop_last(),
        ).clients.contains_key(id)
    }
}

/// The chat lines that clients sent in `events`, in the order in which they were
/// recorded.
pub open spec fn said(events: Seq<SystemEvent>) -> Seq<Line>
    decreases events.len(),
{
    if events.len() == 0 {
        Seq::empty()
    } else {
        match events.last() {
            SystemEvent::Happened {
                connection: _,
                event: EventView::Received(ClientMessageView::Message(line)),
            } => said(events.drop_last()).push(line),
            _ => said(events.drop_last()),
        }
    }
}

/// The last `limit` of `lines`, or all where they are no more.
pub open spec fn latest(lines: Seq<Line>, limit: int) -> Seq<Line> {
    if lines.len() > limit {
        lines.skip(lines.len() - limit)
    } else {
        lines
    }
}

/// The state of the chat once the first `count` lines of those in `events` had
/// been posted.
pub open spec fn chat_as_of(events: Seq<SystemEvent>, count: nat) -> Seq<Line> {
    latest(said(events).take(count as int), HISTORY_LIMIT as int)
}

/// Whether the server's history has at some time in `events` been `chat`.
pub open spec fn was_the_history(events: Seq<SystemEvent>, chat: Seq<Line>) -> bool {
    exists|k: int|
        0 <= k <= events.len() && chat == #[trigger] system_after(events.take(k)).history
}

/// Whatever happens, the history is the most recent of the lines that clients
/// sent, in the order in which they were recorded, and no more than the limit.
pub proof fn law_history_is_what_was_said_last(events: Seq<SystemEvent>)
    ensures
        system_after(events).history == latest(said(events), HISTORY_LIMIT as int),
        system_after(events).history.len() <= HISTORY_LIMIT,
    decreases events.len(),
{
    if events.len() > 0 {
        let before = events.drop_last();
        law_history_is_what_was_said_last(before);
        if let SystemEvent::Happened {
            connection: _,
            event: EventView::Received(ClientMessageView::Message(line)),
        } = events.last() {
            let limit = HISTORY_LIMIT as int;
            assert(history::recorded(latest(said(before), limit), line) =~= latest(
                said(before).push(line),
                limit,
            ));
        }
    }
}

/// Any listening client may post any line at any time, once its last line has
/// been announced: the line is then the last of the history, and its news is
/// next to be broadcast.
pub proof fn law_listening_clients_may_post(
    events: Seq<SystemEvent>,
    connection: nat,
    line: Line,
)
    requires
        possible(events),
        system_after(events).sessions.contains_key(connection),
        system_after(events).sessions[connection].phase == Phase::Listening,
        system_after(events).sessions[connection].pending is None,
    ensures
        ({
            let post = SystemEvent::Happened {
                connection,
                event: EventView::Received(ClientMessageView::Message(line)),
            };
            let after = system_after(events.push(post));
            &&& possible(events.push(post))
            &&& after.history.len() > 0
            &&& after.history.last() == line
            &&& after.sessions[connection].phase == Phase::Listening
            &&& can_happen(after, SystemEvent::Announced { connection })
        }),
{
    let post = SystemEvent::Happened {
        connection,
        event: EventView::Received(ClientMessageView::Message(line)),
    };
    assert(events.push(post).drop_last() =~= events);
}

/// Whether the registry holds exactly the clients of the connections in
/// `sessions`, each filed under its own id, with one connection for each.
pub open spec fn registry_fits(system: System) -> bool {
    &&& registry::well_filed(system.clients)
    &&& forall|connection: nat| #[trigger]
        system.sessions.contains_key(connection) ==> system.clients.contains_key(
            system.sessions[connection].id,
        )
    &&& forall|id: u128| #[trigger]
        system.clients.contains_key(id) ==> exists|connection: nat|
            #![trigger system.sessions.contains_key(connection)]
            system.sessions.contains_key(connection) && system.sessions[connection].id == id
    &&& forall|one: nat, other: nat|
        #![trigger system.sessions.contains_key(one), system.sessions.contains_key(other)]
        system.sessions.contains_key(one) && system.sessions.contains_key(other) && one != other
            ==> system.sessions[one].id != system.sessions[other].id
}

/// Whatever happens, the registry holds exactly the clients that have connected
/// and are not forgotten, as long as no id was drawn while another client had
/// it.
pub proof fn law_registry_holds_the_connected_clients(events: Seq<SystemEvent>)
    requires
        possible(events),
        ids_differ(events),
    ensures
        registry_fits(system_after(events)),
    decreases events.len(),
{
    if events.len() > 0 {
        law_registry_holds_the_connected_clients(events.drop_last());
        lemma_sendings_fit(events.drop_last());
        let before = system_after(events.drop_last());
        let after = system_after(events);
        assert forall|id: u128| #[trigger] after.clients.contains_key(id) implies exists|
            connection: nat,
        |
            #![trigger after.sessions.contains_key(connection)]
            after.sessions.contains_key(connection) && after.sessions[connection].id == id by {
            match events.last() {
                SystemEvent::Opened { connection, id: new } => {
                    if id == new {
                        assert(after.sessions.contains_key(connection));
                    } else {
                        assert(before.clients.contains_key(id));
                        let c = choose|c: nat|
                            #![trigger before.sessions.contains_key(c)]
                            before.sessions.contains_key(c) && before.sessions[c].id == id;
                        assert(after.sessions.contains_key(c));
                    }
                },
                _ => {
                    assert(before.clients.contains_key(id));
                    let c = choose|c: nat|
                        #![trigger before.sessions.contains_key(c)]
                        before.sessions.contains_key(c) && before.sessions[c].id == id;
                    assert(after.sessions.contains_key(c));
                },
            }
        }
    }
}

/// A client is forgotten only once its session is over, and after that nothing
/// else can happen on its connection.
pub proof fn law_clients_are_forgotten_when_over(
    events: Seq<SystemEvent>,
    connection: nat,
    event: EventView,
    index: nat,
)
    requires
        possible(events),
        system_after(events).sessions.contains_key(connection),
    ensures
        ({
            let system = system_after(events);
            let over = system.sessions[connection].phase is Closed;
            &&& can_happen(system, SystemEvent::Forgotten { connection }) <==> over
            &&& over ==> !can_happen(system, SystemEvent::Happened { connection, event })
            &&& over ==> !can_happen(system, SystemEvent::Heard { connection, index })
            &&& over ==> !can_happen(system, SystemEvent::Announced { connection })
        }),
{
    lemma_sendings_fit(events);
}

// What is sent.

/// Whether `record`, all that was given out to be sent on a connection, is in
/// order: the id first, the greeting second, no id after that; every chat is
/// what its mark says, of the lines `spoken`; and all chats after the greeting
/// are broadcasts, in the order in which they were heard.
spec fn record_fits(record: Seq<Sent>, spoken: Seq<Line>, broadcasts: Seq<News>) -> bool {
    &&& record.len() > 0
    &&& record[0].message is AssignedId
    &&& forall|i: int| 1 <= i < record.len() ==> !(#[trigger] record[i].message is AssignedId)
    &&& record.len() >= 2 ==> record[1].message is NewChatState && record[1].heard is None
    &&& forall|i: int|
        0 <= i < record.len() ==> (#[trigger] record[i].message is NewChatState
            <==> record[i].as_of is Some)
    &&& forall|i: int|
        0 <= i < record.len() ==> (#[trigger] record[i].as_of matches Some(count) ==> count
            <= spoken.len() && record[i].message == ServerMessageView::NewChatState(
            latest(spoken.take(count as int), HISTORY_LIMIT as int),
        ))
    &&& forall|i: int|
        2 <= i < record.len() ==> (#[trigger] record[i].message is NewChatState
            <==> record[i].heard is Some)
    &&& forall|i: int|
        0 <= i < record.len() ==> (#[trigger] record[i].heard matches Some(index) ==> index
            < broadcasts.len() && record[i].as_of == Some(broadcasts[index as int].as_of))
    &&& forall|i: int, j: int|
        0 <= i < j < record.len() && #[trigger] record[i].heard is Some
            && #[trigger] record[j].heard is Some ==> record[i].heard->0 < record[j].heard->0
}

/// Whether a connection fits its record: it can hear nothing that it has heard.
spec fn connection_fits(live: Connection, record: Seq<Sent>, broadcasts: nat) -> bool {
    &&& record[0].message == ServerMessageView::AssignedId(live.id)
    &&& live.phase is Assigning ==> record.len() == 1
    &&& live.phase is Greeting ==> record.len() == 2
    &&& live.phase is Listening || live.phase is Replying ==> record.len() >= 2
    &&& live.next <= broadcasts
    &&& forall|i: int|
        0 <= i < record.len() && #[trigger] record[i].heard is Some ==> record[i].heard->0
            < live.next
    &&& !(live.phase is Listening) ==> live.pending is None
}

/// Whether news is what its mark says, of the lines `spoken`.
spec fn news_fits(news: News, spoken: Seq<Line>) -> bool {
    &&& 1 <= news.as_of <= spoken.len()
    &&& news.message == ServerMessageView::NewChatState(
        latest(spoken.take(news.as_of as int), HISTORY_LIMIT as int),
    )
}

/// Whether the news of the line posted as number `count` has been broadcast.
pub open spec fn announced(system: System, count: nat) -> bool {
    exists|i: int|
        0 <= i < system.broadcasts.len() && #[trigger] system.broadcasts[i].as_of == count
}

/// Whether the news of the line posted as number `count` is yet to be broadcast,
/// on the connection where the line came from.
pub open spec fn pending_on(system: System, connection: nat, count: nat) -> bool {
    &&& system.sessions.contains_key(connection)
    &&& system.sessions[connection].pending matches Some(news)
    &&& news.as_of == count
}

spec fn sendings_fit(system: System, spoken: Seq<Line>) -> bool {
    &&& system.history == latest(spoken, HISTORY_LIMIT as int)
    &&& system.posts == spoken.len()
    &&& forall|i: int|
        0 <= i < system.broadcasts.len() ==> news_fits(#[trigger] system.broadcasts[i], spoken)
    &&& forall|c: nat| #[trigger]
        system.sent.contains_key(c) ==> record_fits(system.sent[c], spoken, system.broadcasts)
    &&& forall|c: nat| #[trigger]
        system.sessions.contains_key(c) ==> {
            &&& system.sent.contains_key(c)
            &&& connection_fits(system.sessions[c], system.sent[c], system.broadcasts.len())
            &&& system.sessions[c].pending matches Some(news) ==> news_fits(news, spoken)
        }
}

proof fn lemma_sendings_fit(events: Seq<SystemEvent>)
    requires
        possible(events),
    ensures
        sendings_fit(system_after(events), said(events)),
    decreases events.len(),
{
    if events.len() > 0 {
        let before = system_after(events.drop_last());
        let spoken = said(events.drop_last());
        lemma_sendings_fit(events.drop_last());
        law_history_is_what_was_said_last(events);
        let after = system_after(events);
        let now = said(events);
        assert forall|count: int| 0 <= count <= spoken.len() implies #[trigger] now.take(count)
            == spoken.take(count) by {
            assert(now.take(count) =~= spoken.take(count));
        }
        assert(now.take(now.len() as int) =~= now);
        assert(spoken.take(spoken.len() as int) =~= spoken);
        assert forall|i: int| 0 <= i < after.broadcasts.len() implies news_fits(
            #[trigger] after.broadcasts[i],
            now,
        ) by {
            if i < before.broadcasts.len() {
                assert(news_fits(before.broadcasts[i], spoken));
            }
        }
        assert forall|c: nat| #[trigger] after.sent.contains_key(c) implies record_fits(
            after.sent[c],
            now,
            after.broadcasts,
        ) by {
            if before.sent.contains_key(c) {
                assert(record_fits(before.sent[c], spoken, before.broadcasts));
            }
        }
        assert forall|c: nat| #[trigger] after.sessions.contains_key(c) implies {
            &&& after.sent.contains_key(c)
            &&& connection_fits(after.sessions[c], after.sent[c], after.broadcasts.len())
            &&& after.sessions[c].pending matches Some(news) ==> news_fits(news, now)
        } by {
            if before.sessions.contains_key(c) {
                assert(before.sent.contains_key(c));
                assert(connection_fits(
                    before.sessions[c],
                    before.sent[c],
                    before.broadcasts.len(),
                ));
            }
        }
    }
}

/// The marks of all news, broadcast or pending, differ, and they are all the
/// numbers of lines posted.
proof fn lemma_marks(events: Seq<SystemEvent>)
    requires
        possible(events),
    ensures
        ({
            let system = system_after(events);
            &&& forall|i: int, j: int|
                0 <= i < j < system.broadcasts.len() ==> #[trigger] system.broadcasts[i].as_of
                    != #[trigger] system.broadcasts[j].as_of
            &&& forall|i: int, c: nat|
                0 <= i < system.broadcasts.len() && #[trigger] system.sessions.contains_key(c)
                    && system.sessions[c].pending is Some
                    ==> #[trigger] system.broadcasts[i].as_of
                    != system.sessions[c].pending->0.as_of
            &&& forall|c: nat, d: nat|
                c != d && #[trigger] system.sessions.contains_key(c)
                    && #[trigger] system.sessions.contains_key(d)
                    && system.sessions[c].pending is Some && system.sessions[d].pending is Some
                    ==> system.sessions[c].pending->0.as_of != system.sessions[d].pending->0.as_of
            &&& forall|count: nat|
                1 <= count <= system.posts ==> #[trigger] announced(system, count) || exists|
                    c: nat,
                |
                    pending_on(system, c, count)
        }),
    decreases events.len(),
{
    if events.len() > 0 {
        let before = system_after(events.drop_last());
        let after = system_after(events);
        lemma_marks(events.drop_last());
        lemma_sendings_fit(events.drop_last());
        assert forall|count: nat| 1 <= count <= after.posts implies #[trigger] announced(
            after,
            count,
        ) || exists|c: nat| pending_on(after, c, count) by {
            if count > before.posts {
                if let SystemEvent::Happened { connection, event } = events.last() {
                    assert(pending_on(after, connection, count));
                }
            } else if announced(before, count) {
                let i = choose|i: int|
                    0 <= i < before.broadcasts.len() && #[trigger] before.broadcasts[i].as_of
                        == count;
                assert(after.broadcasts[i].as_of == count);
            } else {
                let c = choose|c: nat| pending_on(before, c, count);
                if events.last() == (SystemEvent::Announced { connection: c }) {
                    assert(after.broadcasts[before.broadcasts.len() as int].as_of == count);
                } else {
                    assert(pending_on(after, c, count));
                }
            }
        }
    }
}

/// For every number of lines posted there was a time when just these had been.
proof fn lemma_every_count_was_reached(events: Seq<SystemEvent>, count: nat)
    requires
        count <= said(events).len(),
    ensures
        was_the_history(events, chat_as_of(events, count)),
    decreases events.len(),
{
    if count == said(events).len() {
        law_history_is_what_was_said_last(events);
        assert(said(events).take(count as int) =~= said(events));
        assert(events.take(events.len() as int) =~= events);
    } else {
        let before = events.drop_last();
        lemma_every_count_was_reached(before, count);
        assert(said(before).take(count as int) =~= said(events).take(count as int));
        let chat = chat_as_of(events, count);
        let k = choose|k: int|
            0 <= k <= before.len() && chat == #[trigger] system_after(before.take(k)).history;
        assert(before.take(k) =~= events.take(k));
        assert(chat == system_after(events.take(k)).history);
    }
}

/// All that is ever broadcast is the state of the chat, as the history was after
/// as many posts as the mark says; no two broadcasts are of the same post.
pub proof fn law_broadcasts_are_histories(events: Seq<SystemEvent>, i: int)
    requires
        possible(events),
        0 <= i < system_after(events).broadcasts.len(),
    ensures
        ({
            let broadcasts = system_after(events).broadcasts;
            let count = broadcasts[i].as_of;
            &&& 1 <= count <= said(events).len()
            &&& broadcasts[i].message == ServerMessageView::NewChatState(
                chat_as_of(events, count),
            )
            &&& was_the_history(events, chat_as_of(events, count))
            &&& forall|j: int|
                0 <= j < broadcasts.len() && j != i ==> #[trigger] broadcasts[j].as_of != count
        }),
{
    lemma_sendings_fit(events);
    lemma_marks(events);
    let news = system_after(events).broadcasts[i];
    assert(news_fits(news, said(events)));
    lemma_every_count_was_reached(events, news.as_of);
}

/// No post goes unannounced: the news of every line posted has been broadcast,
/// or is about to be on the connection where the line came from, which then can
/// do nothing else first.
pub proof fn law_every_post_is_announced(events: Seq<SystemEvent>, count: nat)
    requires
        possible(events),
        1 <= count <= said(events).len(),
    ensures
        announced(system_after(events), count) || exists|c: nat|
            #[trigger] pending_on(system_after(events), c, count) && can_happen(
                system_after(events),
                SystemEvent::Announced { connection: c },
            ),
        forall|c: nat, event: EventView|
            #[trigger] pending_on(system_after(events), c, count) ==> !#[trigger] can_happen(
                system_after(events),
                SystemEvent::Happened { connection: c, event },
            ),
        forall|c: nat, index: nat|
            #[trigger] pending_on(system_after(events), c, count) ==> !#[trigger] can_happen(
                system_after(events),
                SystemEvent::Heard { connection: c, index },
            ),
        forall|c: nat| #[trigger]
            pending_on(system_after(events), c, count) ==> !can_happen(
                system_after(events),
                SystemEvent::Forgotten { connection: c },
            ),
{
    lemma_sendings_fit(events);
    lemma_marks(events);
    if !announced(system_after(events), count) {
        let c = choose|c: nat| pending_on(system_after(events), c, count);
        assert(pending_on(system_after(events), c, count) && can_happen(
            system_after(events),
            SystemEvent::Announced { connection: c },
        ));
    }
}

/// The greeting is the history as it stands when the id has been handed over.
pub proof fn law_greeting_is_the_history(events: Seq<SystemEvent>, connection: nat)
    requires
        possible(events),
        system_after(events).sessions.contains_key(connection),
        system_after(events).sessions[connection].phase is Assigning,
    ensures
        ({
            let event = SystemEvent::Happened { connection, event: EventView::Sent };
            let greeted = system_next(system_after(events), event);
            &&& can_happen(system_after(events), event)
            &&& greeted.sent[connection].len() == 2
            &&& greeted.sent[connection][1].message == ServerMessageView::NewChatState(
                system_after(events).history,
            )
            &&& greeted.history == system_after(events).history
        }),
{
    lemma_sendings_fit(events);
}

/// On every connection the first message is the client's id and the second the
/// greeting with the chat; no other id follows.
pub proof fn law_id_then_greeting(events: Seq<SystemEvent>, connection: nat)
    requires
        possible(events),
        system_after(events).sent.contains_key(connection),
    ensures
        ({
            let record = system_after(events).sent[connection];
            &&& record.len() > 0
            &&& record[0].message is AssignedId
            &&& system_after(events).sessions.contains_key(connection) ==> record[0].message
                == ServerMessageView::AssignedId(system_after(events).sessions[connection].id)
            &&& record.len() >= 2 ==> record[1].message is NewChatState
            &&& forall|i: int|
                1 <= i < record.len() ==> !(#[trigger] record[i].message is AssignedId)
        }),
{
    lemma_sendings_fit(events);
}

/// The server has the say: every chat that goes out on a connection, the
/// greeting too, is one that the server's history has been: that after as many
/// posts as its mark says.
pub proof fn law_clients_are_told_histories(events: Seq<SystemEvent>, connection: nat, i: int)
    requires
        possible(events),
        system_after(events).sent.contains_key(connection),
        0 <= i < system_after(events).sent[connection].len(),
    ensures
        ({
            let told = system_after(events).sent[connection][i];
            &&& told.message is NewChatState <==> told.as_of is Some
            &&& told.as_of matches Some(count) ==> {
                &&& count <= said(events).len()
                &&& told.message == ServerMessageView::NewChatState(chat_as_of(events, count))
                &&& was_the_history(events, chat_as_of(events, count))
            }
        }),
{
    lemma_sendings_fit(events);
    let told = system_after(events).sent[connection][i];
    if let Some(count) = told.as_of {
        lemma_every_count_was_reached(events, count);
    }
}

/// After the greeting no chat goes out twice on a connection: no two are of the
/// same post. Where the news is broadcast in the order of the posts, each is
/// newer than those before it.
pub proof fn law_news_is_not_repeated(events: Seq<SystemEvent>, connection: nat, i: int, j: int)
    requires
        possible(events),
        system_after(events).sent.contains_key(connection),
        2 <= i < j < system_after(events).sent[connection].len(),
        system_after(events).sent[connection][i].message is NewChatState,
        system_after(events).sent[connection][j].message is NewChatState,
    ensures
        ({
            let record = system_after(events).sent[connection];
            &&& record[i].as_of is Some
            &&& record[j].as_of is Some
            &&& record[i].as_of->0 != record[j].as_of->0
            &&& announced_in_order(system_after(events)) ==> record[i].as_of->0
                < record[j].as_of->0
        }),
{
    lemma_sendings_fit(events);
    lemma_marks(events);
    let system = system_after(events);
    let record = system.sent[connection];
    assert(record_fits(record, said(events), system.broadcasts));
    assert(record[i].heard is Some && record[j].heard is Some);
    let one = record[i].heard->0 as int;
    let other = record[j].heard->0 as int;
    assert(system.broadcasts[one].as_of != system.broadcasts[other].as_of);
}

/// Where no line is recorded before the news of the last is broadcast, the
/// broadcasts are in the order of the posts, at most the last is pending, and
/// nothing heard is older than the greeting.
proof fn lemma_prompt(events: Seq<SystemEvent>)
    requires
        possible(events),
        prompt(events),
    ensures
        ({
            let system = system_after(events);
            let count = system.broadcasts.len();
            &&& count <= system.posts <= count + 1
            &&& forall|i: int|
                0 <= i < count ==> #[trigger] system.broadcasts[i].as_of == i + 1
            &&& forall|c: nat| #[trigger]
                system.sessions.contains_key(c) && system.sessions[c].pending is Some
                    ==> system.sessions[c].pending->0.as_of == count + 1
            &&& forall|c: nat| #[trigger]
                system.sent.contains_key(c) ==> forall|i: int|
                    2 <= i < system.sent[c].len() && #[trigger] system.sent[c][i].heard is Some
                        ==> system.sent[c][1].as_of->0 <= system.sent[c][i].heard->0 + 1
            &&& forall|c: nat| #[trigger]
                system.sessions.contains_key(c) && (system.sessions[c].phase is Listening
                    || system.sessions[c].phase is Replying) ==> system.sent[c][1].as_of->0
                    <= system.sessions[c].next + 1
        }),
    decreases events.len(),
{
    if events.len() > 0 {
        let before = system_after(events.drop_last());
        let after = system_after(events);
        lemma_prompt(events.drop_last());
        lemma_sendings_fit(events.drop_last());
        lemma_sendings_fit(events);
        lemma_marks(events.drop_last());
        let count = before.broadcasts.len();
        if after.posts != before.posts {
            assert(said(events).len() == said(events.drop_last()).len() + 1);
            assert(before.posts == count) by {
                if before.posts == count + 1 {
                    assert(!announced(before, before.posts));
                    let c = choose|c: nat| pending_on(before, c, before.posts);
                    assert(before.sessions.contains_key(c));
                }
            }
        }
        assert forall|c: nat| #[trigger]
            after.sessions.contains_key(c) && after.sessions[c].pending is Some implies
            after.sessions[c].pending->0.as_of == after.broadcasts.len() + 1 by {
            if let SystemEvent::Announced { connection } = events.last() {
                assert(before.sessions.contains_key(connection));
                assert(before.sessions.contains_key(c));
            }
        }
        assert forall|c: nat| #[trigger] after.sent.contains_key(c) implies forall|i: int|
            2 <= i < after.sent[c].len() && #[trigger] after.sent[c][i].heard is Some
                ==> after.sent[c][1].as_of->0 <= after.sent[c][i].heard->0 + 1 by {
            assert forall|i: int|
                2 <= i < after.sent[c].len() && #[trigger] after.sent[c][i].heard is Some implies
                after.sent[c][1].as_of->0 <= after.sent[c][i].heard->0 + 1 by {
                if before.sent.contains_key(c) {
                    if i < before.sent[c].len() {
                        assert(after.sent[c][i] == before.sent[c][i]);
                    } else {
                        assert(before.sessions.contains_key(c));
                    }
                }
            }
        }
        assert forall|c: nat| #[trigger]
            after.sessions.contains_key(c) && (after.sessions[c].phase is Listening
                || after.sessions[c].phase is Replying) implies after.sent[c][1].as_of->0
            <= after.sessions[c].next + 1 by {
            if before.sessions.contains_key(c) {
                assert(record_fits(before.sent[c], said(events.drop_last()), before.broadcasts));
                if before.sessions[c].phase is Greeting {
                    assert(before.sent[c][1].message is NewChatState);
                }
            }
        }
    }
}

/// What goes out on a connection never goes back in time, where no line is
/// recorded before the news of the last is broadcast: no chat is older than one
/// sent before it, and after the greeting each is newer.
pub proof fn law_chats_sent_get_newer(
    events: Seq<SystemEvent>,
    connection: nat,
    i: int,
    j: int,
)
    requires
        possible(events),
        prompt(events),
        system_after(events).sent.contains_key(connection),
        0 <= i < j < system_after(events).sent[connection].len(),
        system_after(events).sent[connection][i].message is NewChatState,
        system_after(events).sent[connection][j].message is NewChatState,
    ensures
        ({
            let record = system_after(events).sent[connection];
            &&& record[i].as_of is Some
            &&& record[j].as_of is Some
            &&& record[i].as_of->0 <= record[j].as_of->0
            &&& i >= 2 ==> record[i].as_of->0 < record[j].as_of->0
        }),
{
    lemma_sendings_fit(events);
    lemma_prompt(events);
    let system = system_after(events);
    let record = system.sent[connection];
    assert(record_fits(record, said(events), system.broadcasts));
    assert(i >= 1);
    assert(record[j].heard is Some);
    if i >= 2 {
        assert(record[i].heard is Some);
    }
}

/// The frames that a client reads when of the messages in `record` those at
/// `places` reach it.
pub open spec fn frames_read(record: Seq<Sent>, places: Seq<int>) -> Seq<FrameView> {
    Seq::new(places.len(), |i: int| FrameView::Message(record[places[i]].message))
}

/// Whether `places` are places in `record`, in order.
pub open spec fn in_order(record: Seq<Sent>, places: Seq<int>) -> bool {
    &&& forall|i: int| 0 <= i < places.len() ==> 0 <= #[trigger] places[i] < record.len()
    &&& forall|i: int, j: int| 0 <= i < j < places.len() ==> places[i] < places[j]
}

/// The place of the last chat among `places`.
spec fn last_chat(record: Seq<Sent>, places: Seq<int>) -> Option<int>
    decreases places.len(),
{
    if places.len() == 0 {
        None
    } else if record[places.last()].message is NewChatState {
        Some(places.last())
    } else {
        last_chat(record, places.drop_last())
    }
}

proof fn lemma_last_chat_is_known(record: Seq<Sent>, places: Seq<int>, known: SharedView)
    requires
        in_order(record, places),
    ensures
        last_chat(record, places) is None ==> laws::after_frames(
            known,
            frames_read(record, places),
        ).chat == known.chat,
        last_chat(record, places) matches Some(place) ==> {
            &&& places.contains(place)
            &&& record[place].message is NewChatState
            &&& laws::after_frames(known, frames_read(record, places)).chat == Some(
                record[place].message->NewChatState_0,
            )
        },
    decreases places.len(),
{
    let frames = frames_read(record, places);
    if places.len() > 0 {
        assert(frames.drop_last() =~= frames_read(record, places.drop_last()));
        assert(places.contains(places.last()));
        lemma_last_chat_is_known(record, places.drop_last(), known);
        if let Some(place) = last_chat(record, places.drop_last()) {
            let i = choose|i: int| 0 <= i < places.len() - 1 && places.drop_last()[i] == place;
            assert(places[i] == place);
        }
    }
}

proof fn lemma_last_chat_moves_on(record: Seq<Sent>, places: Seq<int>, m: int)
    requires
        in_order(record, places),
        0 <= m <= places.len(),
        last_chat(record, places.take(m)) is Some,
    ensures
        last_chat(record, places) is Some,
        last_chat(record, places.take(m))->0 <= last_chat(record, places)->0,
    decreases places.len(),
{
    if m == places.len() {
        assert(places.take(m) =~= places);
    } else {
        let shorter = places.drop_last();
        assert(shorter.take(m) =~= places.take(m));
        lemma_last_chat_moves_on(record, shorter, m);
        lemma_last_chat_is_known(record, shorter, SharedView {
            client_id: None,
            status: Seq::empty(),
            chat: None,
        });
        let i = choose|i: int|
            0 <= i < shorter.len() && shorter[i] == last_chat(record, shorter)->0;
        assert(places[i] < places.last());
    }
}

/// What a client knows of the chat never goes back in time, where no line is
/// recorded before the news of the last is broadcast: whichever of the messages
/// sent on its connection reach it, in order, what it knows after the first `n`
/// of them is the state of the chat after at least as many posts as what it knew
/// after the first `m`.
pub proof fn law_client_never_goes_back(
    events: Seq<SystemEvent>,
    connection: nat,
    places: Seq<int>,
    known: SharedView,
    m: int,
    n: int,
)
    requires
        possible(events),
        prompt(events),
        system_after(events).sent.contains_key(connection),
        in_order(system_after(events).sent[connection], places),
        0 <= m <= n <= places.len(),
        known.chat is None,
    ensures
        ({
            let record = system_after(events).sent[connection];
            let older = laws::after_frames(known, frames_read(record, places.take(m))).chat;
            let newer = laws::after_frames(known, frames_read(record, places.take(n))).chat;
            older is Some ==> exists|one: nat, other: nat|
                {
                    &&& one <= other <= said(events).len()
                    &&& older == Some(#[trigger] chat_as_of(events, one))
                    &&& newer == Some(#[trigger] chat_as_of(events, other))
                }
        }),
{
    lemma_sendings_fit(events);
    let record = system_after(events).sent[connection];
    assert(record_fits(record, said(events), system_after(events).broadcasts));
    let first = places.take(m);
    let more = places.take(n);
    lemma_last_chat_is_known(record, first, known);
    lemma_last_chat_is_known(record, more, known);
    if last_chat(record, first) is Some {
        assert(more.take(m) =~= first);
        lemma_last_chat_moves_on(record, more, m);
        let i = last_chat(record, first)->0;
        let j = last_chat(record, more)->0;
        assert(record[i].as_of is Some && record[j].as_of is Some);
        let one = record[i].as_of->0;
        let other = record[j].as_of->0;
        if i < j {
            law_chats_sent_get_newer(events, connection, i, j);
        }
        assert(one <= other);
        assert(record[i].message == ServerMessageView::NewChatState(chat_as_of(events, one)));
        assert(record[j].message == ServerMessageView::NewChatState(chat_as_of(events, other)));
    }
}

/// A client and the server agree: a client that was told the state of the chat
/// as it stands, and nothing of it since, knows exactly the most recent lines
/// that all clients together sent.
pub proof fn law_client_agrees_with_server(
    events: Seq<SystemEvent>,
    known: SharedView,
    frames: Seq<FrameView>,
    k: int,
)
    requires
        0 <= k < frames.len(),
        frames[k] == FrameView::Message(
            ServerMessageView::NewChatState(system_after(events).history),
        ),
        forall|j: int|
            k < j < frames.len() ==> !(#[trigger] frames[j] matches FrameView::Message(message)
                && message is NewChatState),
    ensures
        laws::after_frames(known, frames).chat == Some(
            latest(said(events), HISTORY_LIMIT as int),
        ),
{
    law_history_is_what_was_said_last(events);
    laws::law_chat_is_what_the_server_said_last(known, frames, k, system_after(events).history);
}

} // verus!
