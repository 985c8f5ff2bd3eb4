//! What each operation does, said of its arguments and its results alone.
//!
//! A law here speaks of a call that has returned: `call_ensures(f, args, result)`
//! says that calling `f` with `args` can give `result`. Behind a `&mut` argument,
//! `old` is the value before the call and `final` the value after it.

use vstd::prelude::*;
use crate::client;
use crate::client::{
    ChatPanel, Frame, LinkEvent, MyApp, Screen, SendOutcome, SharedAsyncState,
};
use crate::config;
use crate::history::GameState;
use crate::ident;
use crate::message::{ChatState, ClientMessage, ServerMessage};
use crate::registry::{ClientRegistry, ConnectedClient};
use crate::session::{Action, Event, Outgoing, Phase, Session};
use crate::text;

verus! {

// Messages.

/// A copied chat has the same entries.
pub proof fn law_chat_copy(chat: ChatState, copy: ChatState)
    requires
        call_ensures(<ChatState as Clone>::clone, (&chat,), copy),
    ensures
        copy.messages@.len() == chat.messages@.len(),
        forall|i: int|
            0 <= i < chat.messages@.len() ==> (#[trigger] copy.messages@[i]).0@
                == chat.messages@[i].0@ && copy.messages@[i].1@ == chat.messages@[i].1@,
{
}

/// A copied client message says the same.
pub proof fn law_client_message_copy(message: ClientMessage, copy: ClientMessage)
    requires
        call_ensures(<ClientMessage as Clone>::clone, (&message,), copy),
    ensures
        message matches ClientMessage::Ping(id) ==> copy == ClientMessage::Ping(id),
        message matches ClientMessage::Message(entry) ==> {
            &&& copy matches ClientMessage::Message(same)
            &&& same.0@ == entry.0@
            &&& same.1@ == entry.1@
        },
{
}

/// A copied server message says the same.
pub proof fn law_server_message_copy(message: ServerMessage, copy: ServerMessage)
    requires
        call_ensures(<ServerMessage as Clone>::clone, (&message,), copy),
    ensures
        message is Pong ==> copy is Pong,
        message matches ServerMessage::AssignedId(id) ==> copy == ServerMessage::AssignedId(id),
        message matches ServerMessage::Error(reason) ==> {
            &&& copy matches ServerMessage::Error(same)
            &&& same@ == reason@
        },
        message matches ServerMessage::NewChatState(chat) ==> {
            &&& copy matches ServerMessage::NewChatState(same)
            &&& same.messages@.len() == chat.messages@.len()
            &&& forall|i: int|
                0 <= i < chat.messages@.len() ==> (#[trigger] same.messages@[i]).0@
                    == chat.messages@[i].0@ && same.messages@[i].1@ == chat.messages@[i].1@
        },
{
    if let ServerMessage::NewChatState(chat) = message {
        let same = copy->NewChatState_0;
        assert(same@ == chat@);
        assert forall|i: int| 0 <= i < chat.messages@.len() implies (
        #[trigger] same.messages@[i]).0@ == chat.messages@[i].0@ && same.messages@[i].1@
            == chat.messages@[i].1@ by {
            assert(same@[i] == chat@[i]);
        }
    }
}

// The chat history.

/// In a new chat nothing has been said.
pub proof fn law_new_history(state: GameState)
    requires
        call_ensures(<GameState as Default>::default, (), state),
    ensures
        state@.len() == 0,
{
}

/// A copied history is the same history.
pub proof fn law_history_copy(state: GameState, copy: GameState)
    requires
        call_ensures(<GameState as Clone>::clone, (&state,), copy),
    ensures
        copy@ == state@,
{
}

/// The news is a chat with one entry for each line of the history, in order.
pub proof fn law_news(state: GameState, news: ServerMessage)
    requires
        call_ensures(GameState::news, (&state,), news),
    ensures
        news matches ServerMessage::NewChatState(chat) && {
            &&& chat.messages@.len() == state@.len()
            &&& forall|i: int|
                0 <= i < state@.len() ==> (#[trigger] chat.messages@[i]).0@ == state@[i].0
                    && chat.messages@[i].1@ == state@[i].1
        },
{
    let chat = news->NewChatState_0;
    assert forall|i: int| 0 <= i < state@.len() implies (#[trigger] chat.messages@[i]).0@
        == state@[i].0 && chat.messages@[i].1@ == state@[i].1 by {
        assert(chat@[i] == state@[i]);
    }
}

/// A posted line is the last of the history. Up to a hundred lines all those
/// before it stay where they were; beyond that the oldest goes, and the others
/// move up by one. The news is the history so far.
pub proof fn law_post(state: &mut GameState, nick: String, msg: String, news: ServerMessage)
    requires
        call_ensures(GameState::post, (state, nick, msg), news),
    ensures
        final(state)@.len() > 0,
        final(state)@.last() == (nick@, msg@),
        old(state)@.len() < 100 ==> {
            &&& final(state)@.len() == old(state)@.len() + 1
            &&& forall|i: int|
                0 <= i < old(state)@.len() ==> #[trigger] final(state)@[i] == old(state)@[i]
        },
        old(state)@.len() >= 100 ==> {
            &&& final(state)@.len() == old(state)@.len()
            &&& forall|i: int|
                0 <= i < old(state)@.len() - 1 ==> #[trigger] final(state)@[i]
                    == old(state)@[i + 1]
        },
        news matches ServerMessage::NewChatState(chat) && {
            &&& chat.messages@.len() == final(state)@.len()
            &&& forall|i: int|
                0 <= i < final(state)@.len() ==> (#[trigger] chat.messages@[i]).0@
                    == final(state)@[i].0 && chat.messages@[i].1@ == final(state)@[i].1
        },
{
    let chat = news->NewChatState_0;
    assert forall|i: int| 0 <= i < final(state)@.len() implies (#[trigger] chat.messages@[i]).0@
        == final(state)@[i].0 && chat.messages@[i].1@ == final(state)@[i].1 by {
        assert(chat@[i] == final(state)@[i]);
    }
}

/// Asked to send the history, the history stays, and all of it is sent to the
/// client.
pub proof fn law_answer_to_send_history(state: &mut GameState, action: Action, out: Outgoing)
    requires
        call_ensures(GameState::answer, (state, action), out),
        action is SendHistory,
    ensures
        final(state)@ == old(state)@,
        out matches Outgoing::Send(ServerMessage::NewChatState(chat)) && {
            &&& chat.messages@.len() == old(state)@.len()
            &&& forall|i: int|
                0 <= i < old(state)@.len() ==> (#[trigger] chat.messages@[i]).0@
                    == old(state)@[i].0 && chat.messages@[i].1@ == old(state)@[i].1
        },
{
    let message = out->Send_0;
    let chat = message->NewChatState_0;
    assert(message@ is NewChatState);
    assert forall|i: int| 0 <= i < old(state)@.len() implies (#[trigger] chat.messages@[i]).0@
        == old(state)@[i].0 && chat.messages@[i].1@ == old(state)@[i].1 by {
        assert(chat@[i] == old(state)@[i]);
    }
}

/// Asked to post a line, the line becomes the last of the history, the others
/// stay but for the oldest beyond a hundred, and all of it is broadcast.
pub proof fn law_answer_to_post(
    state: &mut GameState,
    action: Action,
    nick: String,
    msg: String,
    out: Outgoing,
)
    requires
        call_ensures(GameState::answer, (state, action), out),
        action == Action::Post(nick, msg),
    ensures
        final(state)@.len() > 0,
        final(state)@.last() == (nick@, msg@),
        old(state)@.len() < 100 ==> {
            &&& final(state)@.len() == old(state)@.len() + 1
            &&& forall|i: int|
                0 <= i < old(state)@.len() ==> #[trigger] final(state)@[i] == old(state)@[i]
        },
        old(state)@.len() >= 100 ==> {
            &&& final(state)@.len() == old(state)@.len()
            &&& forall|i: int|
                0 <= i < old(state)@.len() - 1 ==> #[trigger] final(state)@[i]
                    == old(state)@[i + 1]
        },
        out matches Outgoing::Broadcast(ServerMessage::NewChatState(chat)) && {
            &&& chat.messages@.len() == final(state)@.len()
            &&& forall|i: int|
                0 <= i < final(state)@.len() ==> (#[trigger] chat.messages@[i]).0@
                    == final(state)@[i].0 && chat.messages@[i].1@ == final(state)@[i].1
        },
{
    let message = out->Broadcast_0;
    let chat = message->NewChatState_0;
    assert(message@ is NewChatState);
    assert forall|i: int| 0 <= i < final(state)@.len() implies (#[trigger] chat.messages@[i]).0@
        == final(state)@[i].0 && chat.messages@[i].1@ == final(state)@[i].1 by {
        assert(chat@[i] == final(state)@[i]);
    }
}

/// Asked for anything else, the history stays and the request is handed on.
pub proof fn law_answer_to_the_rest(state: &mut GameState, action: Action, out: Outgoing)
    requires
        call_ensures(GameState::answer, (state, action), out),
        !(action is SendHistory),
        !(action is Post),
    ensures
        final(state)@ == old(state)@,
        action matches Action::Send(message) ==> out == Outgoing::Send(message),
        action is Listen ==> out is Listen,
        action is Disconnect ==> out is Disconnect,
{
}

// The registry.

/// A new registry is empty.
pub proof fn law_new_registry(registry: ClientRegistry)
    requires
        call_ensures(<ClientRegistry as Default>::default, (), registry),
    ensures
        forall|id: u128| !(#[trigger] registry@.contains_key(id)),
        registry@.len() == 0,
{
}

/// An inserted client is there, under its id, and nothing else has changed.
pub proof fn law_insert(registry: &mut ClientRegistry, id: u128, result: ())
    requires
        call_ensures(ClientRegistry::insert, (registry, id), result),
    ensures
        final(registry)@.contains_key(id),
        final(registry)@[id].id == id,
        forall|other: u128|
            other != id ==> #[trigger] final(registry)@.contains_key(other) == old(registry)@.contains_key(other) && final(registry)@[other] == old(registry)@[other],
{
}

/// An enrolled client is there, under the id that it gets, and no other client
/// is touched. The id is one that was drawn, and so a random UUID; where what was
/// drawn is not in use, the client is one more.
pub proof fn law_enroll(registry: &mut ClientRegistry, id: u128)
    requires
        call_ensures(ClientRegistry::enroll, (registry,), id),
        old(registry)@.dom().finite(),
    ensures
        ident::drawn(id),
        (id >> 76u128) & 0xf == 4,
        (id >> 62u128) & 0x3 == 2,
        final(registry)@.contains_key(id),
        final(registry)@[id].id == id,
        forall|other: u128|
            other != id ==> #[trigger] final(registry)@.contains_key(other) == old(registry)@.contains_key(other) && final(registry)@[other] == old(registry)@[other],
        !old(registry)@.contains_key(id) ==> final(registry)@.len() == old(registry)@.len() + 1,
{
}

/// The id of an enrolled client is what drawing an id gave.
pub(crate) proof fn law_enrolled_id_was_drawn(registry: &mut ClientRegistry, id: u128)
    requires
        call_ensures(ClientRegistry::enroll, (registry,), id),
    ensures
        call_ensures(ident::new_id, (), id),
{
}

/// Clients enrolled one after the other both get ids that were drawn. Where what
/// is drawn is not in use, the ids differ, the registry holds both clients, and
/// when one of them leaves the other stays.
pub proof fn law_enrolled_clients_differ(
    first: &mut ClientRegistry,
    one: u128,
    second: &mut ClientRegistry,
    other: u128,
    third: &mut ClientRegistry,
    result: (),
)
    requires
        old(first)@.dom().finite(),
        call_ensures(ClientRegistry::enroll, (first,), one),
        !old(first)@.contains_key(one),
        *old(second) == *final(first),
        call_ensures(ClientRegistry::enroll, (second,), other),
        !old(second)@.contains_key(other),
        *old(third) == *final(second),
        call_ensures(ClientRegistry::remove, (third, other), result),
    ensures
        ident::drawn(one) && ident::drawn(other),
        one != other,
        final(second)@.len() == old(first)@.len() + 2,
        final(second)@.contains_key(one) && final(second)@.contains_key(other),
        final(third)@.contains_key(one),
        final(third)@.len() == old(first)@.len() + 1,
{
}

/// A removed client is gone, and nothing else has changed.
pub proof fn law_remove(registry: &mut ClientRegistry, id: u128, result: ())
    requires
        call_ensures(ClientRegistry::remove, (registry, id), result),
    ensures
        !final(registry)@.contains_key(id),
        forall|other: u128|
            other != id ==> #[trigger] final(registry)@.contains_key(other) == old(registry)@.contains_key(other) && (old(registry)@.contains_key(other) ==> final(registry)@[other] == old(registry)@[other]),
{
}

/// The count is the number of ids that are taken.
pub proof fn law_count(registry: ClientRegistry, count: usize)
    requires
        call_ensures(ClientRegistry::len, (&registry,), count),
    ensures
        count == registry@.dom().len(),
{
}

// A session.

/// A session opens with the id that it was given, and the first thing that it
/// wants done is to send that id.
pub proof fn law_open(client_id: u128, opened: (Session, Action))
    requires
        call_ensures(Session::open, (client_id,), opened),
    ensures
        opened.0.client_id() == client_id,
        opened.0.phase() is Assigning,
        opened.1 == Action::Send(ServerMessage::AssignedId(client_id)),
{
    assert(opened.1@ is Send);
    assert((opened.1->Send_0)@ is AssignedId);
}

/// A session goes by the id that it was opened with, whatever it is told.
pub proof fn law_session_reports_its_id(
    client_id: u128,
    opened: (Session, Action),
    session: &mut Session,
    event: Event,
    action: Action,
    first: u128,
    later: u128,
)
    requires
        call_ensures(Session::open, (client_id,), opened),
        call_ensures(Session::client_id, (&opened.0,), first),
        *old(session) == opened.0,
        call_ensures(Session::step, (session, event), action),
        call_ensures(Session::client_id, (&*final(session),), later),
    ensures
        first == client_id,
        later == client_id,
{
}

/// The phase that a session reports is the one that it is in.
pub proof fn law_session_reports_its_phase(session: Session, phase: Phase)
    requires
        call_ensures(Session::phase, (&session,), phase),
    ensures
        phase == session.phase(),
{
}

/// A listening session can take whatever the client sends, whatever is
/// broadcast and every way in which the connection can end, whatever text they
/// hold; a sending session can take the end of the sending. Nothing else is
/// expected, and of a closed session nothing at all.
pub proof fn law_expects(session: Session, event: Event, answer: bool)
    requires
        call_ensures(Session::expects, (&session, &event), answer),
    ensures
        session.phase() is Listening ==> answer == (event is Received || event is Malformed
            || event is BinaryFrame || event is PingFrame || event is PongFrame
            || event is CloseFrame || event is ReadFailed || event is Ended || event is Broadcast),
        session.phase() is Assigning || session.phase() is Greeting || session.phase() is Replying
            ==> answer == (event is Sent || event is SendFailed),
        session.phase() is Closed ==> !answer,
{
}

/// Whatever a session expects, it can be told of.
pub proof fn law_expected_events_can_be_told(session: &mut Session, event: Event)
    requires
        call_ensures(Session::expects, (&*session, &event), true),
    ensures
        call_requires(Session::step, (session, event)),
{
}

/// No event changes whose session it is.
pub proof fn law_step_keeps_the_client(session: &mut Session, event: Event, action: Action)
    requires
        call_ensures(Session::step, (session, event), action),
    ensures
        final(session).client_id() == old(session).client_id(),
{
}

/// When a sending has ended well, the history follows the id, and after anything
/// else the session listens.
pub proof fn law_step_sent(session: &mut Session, event: Event, action: Action)
    requires
        call_ensures(Session::step, (session, event), action),
        event is Sent,
    ensures
        old(session).phase() is Assigning ==> action is SendHistory && final(session).phase()
            is Greeting,
        old(session).phase() is Greeting ==> action is Listen && final(session).phase()
            is Listening,
        old(session).phase() is Replying ==> action is Listen && final(session).phase()
            is Listening,
{
    assert(action@ is SendHistory == action is SendHistory);
}

/// When a sending has failed, the session is over, unless it was the greeting.
pub proof fn law_step_send_failed(session: &mut Session, event: Event, action: Action)
    requires
        call_ensures(Session::step, (session, event), action),
        event is SendFailed,
    ensures
        old(session).phase() is Assigning ==> action is Disconnect && final(session).phase()
            is Closed,
        old(session).phase() is Greeting ==> action is Listen && final(session).phase()
            is Listening,
        old(session).phase() is Replying ==> action is Disconnect && final(session).phase()
            is Closed,
{
    assert(action@ is Listen == action is Listen);
}

/// A ping is answered with a pong, whatever id it carries.
pub proof fn law_step_ping(
    session: &mut Session,
    event: Event,
    id: Option<u128>,
    action: Action,
)
    requires
        call_ensures(Session::step, (session, event), action),
        event == Event::Received(ClientMessage::Ping(id)),
    ensures
        action == Action::Send(ServerMessage::Pong),
        final(session).phase() is Replying,
{
    assert(action@ is Send);
    assert((action->Send_0)@ is Pong);
}

/// A chat line is to be posted as it came, and the session goes on listening.
pub proof fn law_step_message(
    session: &mut Session,
    event: Event,
    entry: (String, String),
    action: Action,
)
    requires
        call_ensures(Session::step, (session, event), action),
        event == Event::Received(ClientMessage::Message(entry)),
    ensures
        action matches Action::Post(nick, msg) && nick@ == entry.0@ && msg@ == entry.1@,
        final(session).phase() is Listening,
{
    assert(event@ is Received);
    assert(action@ is Post);
}

/// A text that holds no message is answered with the reason, in full, behind
/// words that say what is wrong.
pub proof fn law_step_malformed(
    session: &mut Session,
    event: Event,
    reason: String,
    action: Action,
)
    requires
        call_ensures(Session::step, (session, event), action),
        event == Event::Malformed(reason),
    ensures
        action matches Action::Send(ServerMessage::Error(told)) && told@
            == "Invalid message format: "@ + reason@,
        final(session).phase() is Replying,
{
    assert(event@ is Malformed);
    assert(action@ is Send);
    assert((action->Send_0)@ is Error);
}

/// Binary frames and the WebSocket's own pings and pongs are passed over.
pub proof fn law_step_other_frames(session: &mut Session, event: Event, action: Action)
    requires
        call_ensures(Session::step, (session, event), action),
        event is BinaryFrame || event is PingFrame || event is PongFrame,
    ensures
        action is Listen,
        final(session).phase() is Listening,
{
    assert(action@ is Listen);
}

/// When the client closes, reading fails or the connection is at its end, the
/// session is over and the client is to be forgotten.
pub proof fn law_step_end(session: &mut Session, event: Event, action: Action)
    requires
        call_ensures(Session::step, (session, event), action),
        event is CloseFrame || event is ReadFailed || event is Ended,
    ensures
        action is Disconnect,
        final(session).phase() is Closed,
{
    assert(action@ is Disconnect);
}

/// A chat that is broadcast is sent on as it is; anything else that is broadcast
/// is passed over.
pub proof fn law_step_broadcast(
    session: &mut Session,
    event: Event,
    message: ServerMessage,
    action: Action,
)
    requires
        call_ensures(Session::step, (session, event), action),
        event == Event::Broadcast(message),
    ensures
        message matches ServerMessage::NewChatState(chat) ==> {
            &&& action matches Action::Send(ServerMessage::NewChatState(same))
            &&& same.messages@.len() == chat.messages@.len()
            &&& forall|i: int|
                0 <= i < chat.messages@.len() ==> (#[trigger] same.messages@[i]).0@
                    == chat.messages@[i].0@ && same.messages@[i].1@ == chat.messages@[i].1@
            &&& final(session).phase() is Replying
        },
        !(message is NewChatState) ==> action is Listen && final(session).phase() is Listening,
{
    assert(event@ == crate::session::EventView::Broadcast(message@));
    if let ServerMessage::NewChatState(chat) = message {
        assert(action@ is Send);
        let sent = action->Send_0;
        assert(sent@ is NewChatState);
        let same = sent->NewChatState_0;
        assert(same@ == chat@);
        assert forall|i: int| 0 <= i < chat.messages@.len() implies (
        #[trigger] same.messages@[i]).0@ == chat.messages@[i].0@ && same.messages@[i].1@
            == chat.messages@[i].1@ by {
            assert(same@[i] == chat@[i]);
        }
    } else {
        assert(!(message@ is NewChatState));
        assert(action@ is Listen);
    }
}

// Settings and text.

/// No port is read from an empty text.
pub proof fn law_port_of_nothing(s: &str, port: Option<u16>)
    requires
        call_ensures(config::parse_port, (s,), port),
        s@.len() == 0,
    ensures
        port is None,
{
}

/// A further digit makes the port ten times what it was, and the digit more, as
/// long as that has 16 bits. A text that held no port holds none with the digit
/// either, unless it was empty or a lone plus sign: then the digit is the port.
pub proof fn law_port_with_a_digit_more(
    s: &str,
    t: &str,
    digit: char,
    before: Option<u16>,
    after: Option<u16>,
)
    requires
        call_ensures(config::parse_port, (s,), before),
        call_ensures(config::parse_port, (t,), after),
        t@ == s@.push(digit),
        '0' <= digit <= '9',
    ensures
        before matches Some(port) ==> after == (if 10 * port + (digit as int - 48) <= 65535 {
            Some((10 * port + (digit as int - 48)) as u16)
        } else {
            None::<u16>
        }),
        before is None && (s@.len() == 0 || s@ == seq!['+']) ==> after == Some(
            (digit as int - 48) as u16,
        ),
        before is None && s@.len() > 0 && s@ != seq!['+'] ==> after is None,
{
    let had = config::unsigned_part(s@);
    let has = config::unsigned_part(t@);
    if s@.len() == 0 || s@ == seq!['+'] {
        assert(has =~= seq![digit]);
        assert(has.drop_last() =~= Seq::<char>::empty());
        assert(config::numeral_value(has.drop_last()) == 0);
        assert(config::is_numeral(has));
    } else {
        assert(t@[0] == s@[0]);
        assert(has =~= had.push(digit));
        assert(has.drop_last() =~= had);
        assert(config::numeral_value(has) == 10 * config::numeral_value(had) + (digit as int
            - 48));
        assert(config::is_numeral(had) ==> config::is_numeral(has)) by {
            if config::is_numeral(had) {
                assert forall|i: int| 0 <= i < has.len() implies config::is_digit(
                    #[trigger] has[i],
                ) by {
                    if i < had.len() {
                        assert(config::is_digit(had[i]));
                    }
                }
            }
        }
        assert(had.len() > 0) by {
            if had.len() == 0 {
                assert(s@ =~= seq!['+']);
            }
        }
        assert(config::is_numeral(has) ==> config::is_numeral(had)) by {
            if config::is_numeral(has) {
                assert forall|i: int| 0 <= i < had.len() implies config::is_digit(
                    #[trigger] had[i],
                ) by {
                    assert(config::is_digit(has[i]));
                }
            }
        }
    }
}

/// No port is read from a text that ends in anything but a digit.
pub proof fn law_port_ends_in_a_digit(s: &str, port: Option<u16>)
    requires
        call_ensures(config::parse_port, (s,), port),
        s@.len() > 0,
        !('0' <= s@.last() <= '9'),
    ensures
        port is None,
{
    let digits = config::unsigned_part(s@);
    if digits.len() > 0 {
        assert(!config::is_digit(digits[digits.len() - 1]));
    }
}

/// The port to listen on is the one that can be read from the setting, and 3000
/// where there is none.
pub proof fn law_port_to_listen_on(s: &str, named: Option<u16>, set: u16, unset: u16)
    requires
        call_ensures(config::parse_port, (s,), named),
        call_ensures(config::resolve_port, (Some(s),), set),
        call_ensures(config::resolve_port, (None::<&str>,), unset),
    ensures
        named is Some ==> named == Some(set),
        named is None ==> set == 3000,
        unset == 3000,
{
}

/// The log filter is the setting, where there is one.
pub proof fn law_log_filter(setting: Option<String>, filter: String)
    requires
        call_ensures(config::log_filter, (setting,), filter),
    ensures
        setting is Some ==> filter@ == (setting->0)@,
        setting is None ==> filter@ == "server=debug,tower_http=debug"@,
{
}

/// White space is these 25 characters.
pub proof fn law_white_space(c: char, answer: bool)
    requires
        call_ensures(text::is_white_space, (c,), answer),
    ensures
        answer == ({
            let code = c as u32;
            ||| 9 <= code <= 13
            ||| code == 32
            ||| code == 133
            ||| code == 160
            ||| code == 5760
            ||| 8192 <= code <= 8202
            ||| code == 8232
            ||| code == 8233
            ||| code == 8239
            ||| code == 8287
            ||| code == 12288
        }),
{
}

/// An empty text is blank; another is if it is blank without its last character
/// and that is white space.
pub proof fn law_blank(s: &str, t: &str, c: char, before: bool, after: bool, space: bool)
    requires
        call_ensures(text::is_blank, (s,), before),
        call_ensures(text::is_blank, (t,), after),
        call_ensures(text::is_white_space, (c,), space),
        t@ == s@.push(c),
    ensures
        s@.len() == 0 ==> before,
        after == (before && space),
{
    assert(t@[s@.len() as int] == c);
    assert(forall|i: int| 0 <= i < s@.len() ==> s@[i] == #[trigger] t@[i]);
    if after {
        assert forall|i: int| 0 <= i < s@.len() implies text::white_space(#[trigger] s@[i]) by {
            assert(text::white_space(t@[i]));
        }
    }
}

/// A text begins with another exactly if it is that text with something, or
/// nothing, behind it.
pub proof fn law_starts_with(s: &str, prefix: &str, answer: bool)
    requires
        call_ensures(text::starts_with, (s, prefix), answer),
    ensures
        answer <==> exists|rest: Seq<char>| s@ == #[trigger] (prefix@ + rest),
{
    if answer {
        assert(s@ =~= prefix@ + s@.skip(prefix@.len() as int));
    }
    if exists|rest: Seq<char>| s@ == #[trigger] (prefix@ + rest) {
        let rest = choose|rest: Seq<char>| s@ == #[trigger] (prefix@ + rest);
        assert(s@.subrange(0, prefix@.len() as int) =~= prefix@);
    }
}

/// Joined texts stand one behind the other.
pub proof fn law_join(head: &str, tail: &str, joined: String)
    requires
        call_ensures(text::join, (head, tail), joined),
    ensures
        joined@.len() == head@.len() + tail@.len(),
        joined@.take(head@.len() as int) == head@,
        joined@.skip(head@.len() as int) == tail@,
{
}

// The client's connection.

/// The address is on the page's host, and encrypted exactly if the page is.
pub proof fn law_url(protocol: &str, host: &str, url: String)
    requires
        call_ensures(client::ws_url, (protocol, host), url),
    ensures
        protocol@ == "https:"@ ==> url@ == "wss:"@ + "//"@ + host@ + "/ws"@,
        protocol@ != "https:"@ ==> url@ == "ws:"@ + "//"@ + host@ + "/ws"@,
{
}

/// At first nothing is known, and there is no connection.
pub proof fn law_new_shared(shared: SharedAsyncState)
    requires
        call_ensures(<SharedAsyncState as Default>::default, (), shared),
    ensures
        shared.client_id is None,
        shared.chat_state is None,
        shared.connection_status@ == "Disconnected"@,
{
    assert(shared@.chat is None);
}

/// Every step of connecting has its status, whatever the status was before; a
/// failure gives its reason in full. The id and the chat stay.
pub proof fn law_note_connecting(shared: &mut SharedAsyncState, event: LinkEvent, result: ())
    requires
        call_ensures(SharedAsyncState::note, (shared, event), result),
    ensures
        final(shared).client_id == old(shared).client_id,
        final(shared).chat_state == old(shared).chat_state,
        event is Connecting ==> final(shared).connection_status@ == "Connecting..."@,
        event matches LinkEvent::OpenFailed(reason) ==> final(shared).connection_status@
            == "Failed to connect: "@ + reason@,
        event is Opened ==> final(shared).connection_status@
            == "Connection established, tasks starting..."@,
        event is ReceiverStarted ==> final(shared).connection_status@
            == "Connected (Receiver Active)"@,
{
    assert(final(shared)@.client_id == old(shared)@.client_id);
    assert(final(shared)@.status == final(shared).connection_status@);
}

/// When a task has ended, the status says so, unless it begins with the words
/// for what went wrong: then it stays. The id and the chat stay.
pub proof fn law_note_stopped(shared: &mut SharedAsyncState, event: LinkEvent, result: ())
    requires
        call_ensures(SharedAsyncState::note, (shared, event), result),
        event is SenderStopped || event is ReceiverStopped,
    ensures
        final(shared).client_id == old(shared).client_id,
        final(shared).chat_state == old(shared).chat_state,
        ({
            let before = old(shared).connection_status@;
            let after = final(shared).connection_status@;
            let wrong = "Error:"@.is_prefix_of(before) || "Failed to connect"@.is_prefix_of(before);
            &&& wrong ==> after == before
            &&& !wrong && event is SenderStopped ==> after == "Disconnected (Sender Stopped)"@
            &&& !wrong && event is ReceiverStopped ==> after == "Disconnected (Receiver Stopped)"@
        }),
{
    assert(final(shared)@.client_id == old(shared)@.client_id);
    assert(final(shared)@.status == final(shared).connection_status@);
}

/// Once a task has ended, no status says that the client is connected.
pub proof fn law_stopped_is_not_connected(
    shared: &mut SharedAsyncState,
    event: LinkEvent,
    result: (),
)
    requires
        call_ensures(SharedAsyncState::note, (shared, event), result),
        event is SenderStopped || event is ReceiverStopped,
    ensures
        !"Connect"@.is_prefix_of(final(shared).connection_status@),
{
    law_note_stopped(shared, event, result);
    reveal_strlit("Connect");
    reveal_strlit("Error:");
    reveal_strlit("Failed to connect");
    reveal_strlit("Disconnected (Sender Stopped)");
    reveal_strlit("Disconnected (Receiver Stopped)");
    let status = final(shared).connection_status@;
    if "Connect"@.is_prefix_of(status) {
        assert("Connect"@[0] == status.subrange(0, 7)[0]);
        if "Error:"@.is_prefix_of(status) {
            assert("Error:"@[0] == status.subrange(0, 6)[0]);
        }
        if "Failed to connect"@.is_prefix_of(status) {
            assert("Failed to connect"@[0] == status.subrange(0, 17)[0]);
        }
    }
}

/// An assigned id is taken over, and a chat with all its entries; then nothing
/// else changes. Reading goes on.
pub proof fn law_receive_news(shared: &mut SharedAsyncState, frame: Frame, go_on: bool)
    requires
        call_ensures(SharedAsyncState::receive, (shared, frame), go_on),
    ensures
        frame matches Frame::Message(ServerMessage::AssignedId(id)) ==> {
            &&& go_on
            &&& final(shared).client_id == Some(id)
            &&& final(shared).chat_state == old(shared).chat_state
            &&& final(shared).connection_status@ == old(shared).connection_status@
        },
        frame matches Frame::Message(ServerMessage::NewChatState(chat)) ==> {
            &&& go_on
            &&& final(shared).client_id == old(shared).client_id
            &&& final(shared).chat_state == Some(chat)
            &&& final(shared).connection_status@ == old(shared).connection_status@
        },
{
    assert(final(shared)@.client_id == final(shared).client_id);
    assert(final(shared)@.status == final(shared).connection_status@);
}

/// A pong, an error from the server, an undecodable text and a binary frame
/// change nothing. Reading goes on.
pub proof fn law_receive_the_rest(shared: &mut SharedAsyncState, frame: Frame, go_on: bool)
    requires
        call_ensures(SharedAsyncState::receive, (shared, frame), go_on),
        frame is Undecodable || frame is Bytes || (frame matches Frame::Message(message) && (
        message is Pong || message is Error)),
    ensures
        go_on,
        final(shared).client_id == old(shared).client_id,
        final(shared).chat_state == old(shared).chat_state,
        final(shared).connection_status@ == old(shared).connection_status@,
{
    assert(final(shared)@.client_id == final(shared).client_id);
    assert(final(shared)@.status == final(shared).connection_status@);
}

/// When reading fails, the status gives the reason in full, and reading stops.
pub proof fn law_receive_failure(
    shared: &mut SharedAsyncState,
    frame: Frame,
    reason: String,
    go_on: bool,
)
    requires
        call_ensures(SharedAsyncState::receive, (shared, frame), go_on),
        frame == Frame::Failed(reason),
    ensures
        !go_on,
        final(shared).connection_status@ == "Error: "@ + reason@,
        final(shared).client_id == old(shared).client_id,
        final(shared).chat_state == old(shared).chat_state,
{
    assert(frame@ == crate::client::FrameView::Failed(reason@));
    assert(final(shared)@.client_id == final(shared).client_id);
    assert(final(shared)@.status == final(shared).connection_status@);
}

/// That the sending task takes no messages becomes the status; every other end
/// of an attempt to send leaves the status. The id and the chat stay.
pub proof fn law_note_send(shared: &mut SharedAsyncState, outcome: SendOutcome, result: ())
    requires
        call_ensures(SharedAsyncState::note_send, (shared, outcome), result),
    ensures
        outcome is QueueClosed ==> final(shared).connection_status@
            == "Error: WS send channel closed"@,
        outcome is NotConnected || outcome is NotEncoded || outcome is Queued ==> final(shared).connection_status@ == old(shared).connection_status@,
        final(shared).client_id == old(shared).client_id,
        final(shared).chat_state == old(shared).chat_state,
{
    assert(final(shared)@.client_id == final(shared).client_id);
    assert(final(shared)@.status == final(shared).connection_status@);
}

/// A ping carries the id that the client has, if any.
pub proof fn law_ping(shared: SharedAsyncState, message: ClientMessage)
    requires
        call_ensures(SharedAsyncState::ping, (&shared,), message),
    ensures
        message == ClientMessage::Ping(shared.client_id),
{
    assert(message@ is Ping);
}

// The client's screen.

/// The client starts without a connection, with a name and a greeting typed in.
pub proof fn law_new_app<S>(app: MyApp<S>)
    requires
        call_ensures(<MyApp<S> as Default>::default, (), app),
    ensures
        app.send_nick@ == "john"@,
        app.send_msg@ == "hello"@,
        app.ws_sender is None,
        app.client_id_display is None,
        app.connection_status_display@ == "Disconnected"@,
        app.chat_state_display is None,
{
    assert(app@.sender == app.ws_sender);
    assert(app@.shown.chat is None);
}

/// A refresh takes over the id, the status and the whole chat, and leaves what
/// is typed and the way to the sending task.
pub proof fn law_refresh<S>(app: &mut MyApp<S>, shared: SharedAsyncState, result: ())
    requires
        call_ensures(MyApp::<S>::refresh, (app, &shared), result),
    ensures
        final(app).client_id_display == shared.client_id,
        final(app).connection_status_display@ == shared.connection_status@,
        shared.chat_state is None ==> final(app).chat_state_display is None,
        shared.chat_state matches Some(chat) ==> {
            &&& final(app).chat_state_display matches Some(shown)
            &&& shown.messages@ == chat.messages@
        },
        final(app).send_nick@ == old(app).send_nick@,
        final(app).send_msg@ == old(app).send_msg@,
        final(app).ws_sender == old(app).ws_sender,
{
    assert(final(app)@.shown.client_id == shared@.client_id);
    assert(final(app)@.shown.status == shared@.status);
    assert(final(app)@.nick == old(app)@.nick);
    assert(final(app)@.msg == old(app)@.msg);
    assert(final(app)@.sender == old(app)@.sender);
}

/// An open connection gives the way to the sending task and a status that says
/// so; a failed one gives a status with the reason in full, and no way. All else
/// stays.
pub proof fn law_note_open<S>(
    app: &mut MyApp<S>,
    shared: &mut SharedAsyncState,
    outcome: Result<S, String>,
    result: (),
)
    requires
        call_ensures(MyApp::<S>::note_open, (app, shared, outcome), result),
    ensures
        outcome matches Ok(sender) ==> {
            &&& final(app).ws_sender == Some(sender)
            &&& final(shared).connection_status@ == "Connection established, tasks starting..."@
        },
        outcome matches Err(reason) ==> {
            &&& final(app).ws_sender == old(app).ws_sender
            &&& final(shared).connection_status@ == "Failed to connect: "@ + reason@
        },
        final(app).send_nick@ == old(app).send_nick@,
        final(app).send_msg@ == old(app).send_msg@,
        final(app).client_id_display == old(app).client_id_display,
        final(app).connection_status_display@ == old(app).connection_status_display@,
        final(app).chat_state_display == old(app).chat_state_display,
        final(shared).client_id == old(shared).client_id,
        final(shared).chat_state == old(shared).chat_state,
{
    assert(final(app)@.sender == final(app).ws_sender);
    assert(final(app)@.nick == old(app)@.nick);
    assert(final(app)@.msg == old(app)@.msg);
    assert(final(app)@.shown == old(app)@.shown);
    assert(final(shared)@.status == final(shared).connection_status@);
    assert(final(shared)@.client_id == old(shared)@.client_id);
}

/// A client without an id shows that it waits for one.
pub proof fn law_screen_without_id<S>(app: MyApp<S>, screen: Screen)
    requires
        call_ensures(MyApp::<S>::screen, (&app,), screen),
        app.client_id_display is None,
    ensures
        screen.id_label@ == "My Client ID: (Waiting for server...)"@,
{
    assert(app@.shown.client_id is None);
}

/// A client with an id shows it, whatever it is: 32 hex digits in lower case, the
/// most significant first, in groups of 8, 4, 4, 4 and 12 with hyphens between.
pub proof fn law_screen_with_id<S>(app: MyApp<S>, id: u128, screen: Screen)
    requires
        call_ensures(MyApp::<S>::screen, (&app,), screen),
        app.client_id_display == Some(id),
    ensures
        screen.id_label@.len() == 50,
        screen.id_label@.take(14) == "My Client ID: "@,
        screen.id_label@[22] == '-',
        screen.id_label@[27] == '-',
        screen.id_label@[32] == '-',
        screen.id_label@[37] == '-',
        forall|at: int|
            14 <= at < 50 && at != 22 && at != 27 && at != 32 && at != 37 ==> ({
                let place = at - 14 - (if at > 37 {
                    4int
                } else if at > 32 {
                    3
                } else if at > 27 {
                    2
                } else if at > 22 {
                    1
                } else {
                    0
                });
                let digit = (id >> ((4 * (31 - place)) as u128)) & 0xf;
                #[trigger] screen.id_label@[at] as int == if digit < 10 {
                    48 + digit
                } else {
                    87 + digit
                }
            }),
{
    reveal_strlit("My Client ID: ");
    ident::lemma_id_text(id);
    let label = screen.id_label@;
    assert(app@.shown.client_id == Some(id));
    assert(label == "My Client ID: "@ + ident::id_text(id));
    assert(label.take(14) =~= "My Client ID: "@);
    assert forall|at: int|
        14 <= at < 50 && at != 22 && at != 27 && at != 32 && at != 37 implies ({
        let place = at - 14 - (if at > 37 {
            4int
        } else if at > 32 {
            3
        } else if at > 27 {
            2
        } else if at > 22 {
            1
        } else {
            0
        });
        let digit = (id >> ((4 * (31 - place)) as u128)) & 0xf;
        #[trigger] label[at] as int == if digit < 10 {
            48 + digit
        } else {
            87 + digit
        }
    }) by {
        let place = at - 14 - (if at > 37 {
            4int
        } else if at > 32 {
            3
        } else if at > 27 {
            2
        } else if at > 22 {
            1
        } else {
            0
        });
        assert(ident::digit_position(place) == at - 14);
        assert(label[at] == ident::id_digit(id, place));
        ident::lemma_digit_value(id, (4 * (31 - place)) as u128);
    }
}

/// Two clients show the same label exactly if they have the same id, or both
/// have none.
pub proof fn law_id_labels_differ<S>(
    one: MyApp<S>,
    other: MyApp<S>,
    one_screen: Screen,
    other_screen: Screen,
)
    requires
        call_ensures(MyApp::<S>::screen, (&one,), one_screen),
        call_ensures(MyApp::<S>::screen, (&other,), other_screen),
    ensures
        one_screen.id_label@ == other_screen.id_label@ <==> one.client_id_display
            == other.client_id_display,
{
    reveal_strlit("My Client ID: ");
    reveal_strlit("My Client ID: (Waiting for server...)");
    assert(one@.shown.client_id == one.client_id_display);
    assert(other@.shown.client_id == other.client_id_display);
    if let Some(a) = one.client_id_display {
        ident::lemma_id_text(a);
        if let Some(b) = other.client_id_display {
            ident::lemma_id_text(b);
            if one_screen.id_label@ == other_screen.id_label@ {
                assert(ident::id_text(a) =~= one_screen.id_label@.skip(14));
                assert(ident::id_text(b) =~= other_screen.id_label@.skip(14));
                ident::lemma_id_text_tells_the_id(a, b);
            }
        } else {
            assert(one_screen.id_label@.len() == 50 && other_screen.id_label@.len() == 37);
        }
    } else if let Some(b) = other.client_id_display {
        ident::lemma_id_text(b);
        assert(one_screen.id_label@.len() == 37 && other_screen.id_label@.len() == 50);
    }
}

/// The status is shown in full. The hint is given exactly if there is no way to
/// send and the status does not begin with the words for a connection that could
/// not be opened; the controls are offered exactly if there is a way to send.
pub proof fn law_screen_status<S>(app: MyApp<S>, screen: Screen)
    requires
        call_ensures(MyApp::<S>::screen, (&app,), screen),
    ensures
        screen.status_label@ == "Status: "@ + app.connection_status_display@,
        screen.refresh_hint <==> app.ws_sender is None && !"Failed to connect"@.is_prefix_of(
            app.connection_status_display@,
        ),
        screen.controls <==> app.ws_sender is Some,
{
    assert(app@.shown.status == app.connection_status_display@);
    assert(app@.sender == app.ws_sender);
}

/// A chat that is not known is loading, and one without entries is empty.
pub proof fn law_screen_without_lines<S>(app: MyApp<S>, screen: Screen)
    requires
        call_ensures(MyApp::<S>::screen, (&app,), screen),
    ensures
        app.chat_state_display is None ==> screen.chat is Loading,
        app.chat_state_display matches Some(chat) ==> (screen.chat is Empty
            <==> chat.messages@.len() == 0) && !(screen.chat is Loading),
{
    if let Some(chat) = app.chat_state_display {
        assert(app@.shown.chat == Some(chat@));
        assert(chat@.len() == chat.messages@.len());
    } else {
        assert(app@.shown.chat is None);
    }
}

/// Every entry of a chat has its row, in order: the nickname, a colon, a space
/// and the message, all in full, however long they are.
pub proof fn law_screen_rows<S>(app: MyApp<S>, chat: ChatState, screen: Screen)
    requires
        call_ensures(MyApp::<S>::screen, (&app,), screen),
        app.chat_state_display == Some(chat),
        chat.messages@.len() > 0,
    ensures
        screen.chat matches ChatPanel::Lines(rows) && {
            &&& rows@.len() == chat.messages@.len()
            &&& forall|i: int|
                0 <= i < rows@.len() ==> ({
                    let nick = chat.messages@[i].0@;
                    let msg = chat.messages@[i].1@;
                    let row = (#[trigger] rows@[i])@;
                    &&& row.len() == nick.len() + 2 + msg.len()
                    &&& row.take(nick.len() as int) == nick
                    &&& row[nick.len() as int] == ':'
                    &&& row[nick.len() as int + 1] == ' '
                    &&& row.skip(nick.len() as int + 2) == msg
                })
        },
{
    reveal_strlit(": ");
    assert(app@.shown.chat == Some(chat@));
    assert(chat@.len() == chat.messages@.len());
    let rows = screen.chat->Lines_0;
    assert forall|i: int| 0 <= i < rows@.len() implies ({
        let nick = chat.messages@[i].0@;
        let msg = chat.messages@[i].1@;
        let row = (#[trigger] rows@[i])@;
        &&& row.len() == nick.len() + 2 + msg.len()
        &&& row.take(nick.len() as int) == nick
        &&& row[nick.len() as int] == ':'
        &&& row[nick.len() as int + 1] == ' '
        &&& row.skip(nick.len() as int + 2) == msg
    }) by {
        let nick = chat.messages@[i].0@;
        let msg = chat.messages@[i].1@;
        let row = rows@[i]@;
        assert(chat@[i] == (nick, msg));
        assert(row == nick + ": "@ + msg);
        assert(row.take(nick.len() as int) =~= nick);
        assert(row.skip(nick.len() as int + 2) =~= msg);
    }
}

/// What is typed is sent as it is exactly if neither field is blank; then the
/// message field is emptied, and otherwise both stay. All else stays.
pub proof fn law_submit<S>(
    app: &mut MyApp<S>,
    message: Option<ClientMessage>,
    nick: &str,
    nick_blank: bool,
    msg: &str,
    msg_blank: bool,
)
    requires
        call_ensures(MyApp::<S>::submit, (app,), message),
        nick@ == old(app).send_nick@,
        msg@ == old(app).send_msg@,
        call_ensures(text::is_blank, (nick,), nick_blank),
        call_ensures(text::is_blank, (msg,), msg_blank),
    ensures
        message is Some <==> !nick_blank && !msg_blank,
        message matches Some(sent) ==> {
            &&& sent matches ClientMessage::Message(entry)
            &&& entry.0@ == old(app).send_nick@
            &&& entry.1@ == old(app).send_msg@
            &&& final(app).send_msg@.len() == 0
        },
        message is None ==> final(app).send_msg@ == old(app).send_msg@,
        final(app).send_nick@ == old(app).send_nick@,
        final(app).ws_sender == old(app).ws_sender,
        final(app).client_id_display == old(app).client_id_display,
        final(app).connection_status_display@ == old(app).connection_status_display@,
        final(app).chat_state_display == old(app).chat_state_display,
{
    assert(old(app)@.nick == nick@ && old(app)@.msg == msg@);
    assert(final(app)@.nick == old(app)@.nick);
    assert(final(app)@.sender == old(app)@.sender);
    assert(final(app)@.shown == old(app)@.shown);
    assert(final(app)@.msg == final(app).send_msg@);
    if let Some(sent) = message {
        assert(sent@ is Message);
    }
}

} // verus!
