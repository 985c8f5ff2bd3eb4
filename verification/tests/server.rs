use avinet::history::{GameState, HISTORY_LIMIT};
use avinet::message::{ChatState, ClientMessage, ServerMessage};
use avinet::registry::ClientRegistry;
use avinet::session::{Action, Event, Outgoing, Phase, Session};

fn entry(nick: &str, msg: &str) -> (String, String) {
    (nick.to_string(), msg.to_string())
}

fn chat_of(message: ServerMessage) -> Vec<(String, String)> {
    match message {
        ServerMessage::NewChatState(chat) => chat.messages,
        other => panic!("not a chat state: {:?}", other),
    }
}

fn listening(id: u128) -> Session {
    let (mut session, _) = Session::open(id);
    session.step(Event::Sent);
    session.step(Event::Sent);
    session
}

fn sent(action: Action) -> ServerMessage {
    match action {
        Action::Send(message) => message,
        other => panic!("nothing to send: {:?}", other),
    }
}

#[test]
fn new_history_is_empty() {
    assert_eq!(chat_of(GameState::default().news()), vec![]);
}

#[test]
fn posts_are_kept_in_order() {
    let mut state = GameState::default();
    assert_eq!(chat_of(state.post("ann".to_string(), "hi".to_string())), vec![entry("ann", "hi")]);
    let both = vec![entry("ann", "hi"), entry("bob", "hey")];
    assert_eq!(chat_of(state.post("bob".to_string(), "hey".to_string())), both);
    assert_eq!(chat_of(state.news()), both);
    assert_eq!(chat_of(state.clone().news()), both);
}

#[test]
fn history_keeps_the_last_hundred_lines() {
    assert_eq!(HISTORY_LIMIT, 100);
    let mut state = GameState::default();
    for i in 0..100 {
        state.post("n".to_string(), format!("{}", i));
    }
    let full = chat_of(state.news());
    assert_eq!(full.len(), 100);
    assert_eq!(full[0], entry("n", "0"));
    let after = chat_of(state.post("n".to_string(), "100".to_string()));
    assert_eq!(after.len(), 100);
    assert_eq!(after[0], entry("n", "1"));
    assert_eq!(after[99], entry("n", "100"));
    for i in 101..250 {
        state.post("n".to_string(), format!("{}", i));
    }
    let late = chat_of(state.news());
    assert_eq!(late.len(), 100);
    assert_eq!(late[0], entry("n", "150"));
    assert_eq!(late[99], entry("n", "249"));
}

#[test]
fn greeting_is_the_history_as_it_stands() {
    let mut state = GameState::default();
    state.post("ann".to_string(), "hi".to_string());
    match state.answer(Action::SendHistory) {
        Outgoing::Send(greeting) => assert_eq!(chat_of(greeting), vec![entry("ann", "hi")]),
        other => panic!("{:?}", other),
    }
    assert_eq!(chat_of(state.news()), vec![entry("ann", "hi")]);
}

#[test]
fn a_post_is_recorded_and_broadcast() {
    let mut state = GameState::default();
    match state.answer(Action::Post("ann".to_string(), "hi".to_string())) {
        Outgoing::Broadcast(news) => assert_eq!(chat_of(news), vec![entry("ann", "hi")]),
        other => panic!("{:?}", other),
    }
    assert_eq!(chat_of(state.news()), vec![entry("ann", "hi")]);
}

#[test]
fn other_actions_are_handed_on() {
    let mut state = GameState::default();
    match state.answer(Action::Send(ServerMessage::Pong)) {
        Outgoing::Send(message) => assert_eq!(message, ServerMessage::Pong),
        other => panic!("{:?}", other),
    }
    assert!(matches!(state.answer(Action::Listen), Outgoing::Listen));
    assert!(matches!(state.answer(Action::Disconnect), Outgoing::Disconnect));
    assert_eq!(chat_of(state.news()), vec![]);
}

fn posted(state: &mut GameState, msg: &str) -> ServerMessage {
    match state.answer(Action::Post("a".to_string(), msg.to_string())) {
        Outgoing::Broadcast(news) => news,
        other => panic!("{:?}", other),
    }
}

fn greeted(state: &mut GameState, session: &mut Session) -> usize {
    let greeting = match state.answer(session.step(Event::Sent)) {
        Outgoing::Send(greeting) => chat_of(greeting).len(),
        other => panic!("{:?}", other),
    };
    session.step(Event::Sent);
    greeting
}

fn told(state: &mut GameState, session: &mut Session, news: ServerMessage) -> usize {
    let chat = match state.answer(session.step(Event::Broadcast(news))) {
        Outgoing::Send(message) => chat_of(message).len(),
        other => panic!("{:?}", other),
    };
    session.step(Event::Sent);
    chat
}

#[test]
fn chats_get_newer_when_each_post_is_announced_at_once() {
    let mut state = GameState::default();
    posted(&mut state, "0");
    let (mut session, _) = Session::open(1);
    let mut lengths = vec![greeted(&mut state, &mut session)];
    for msg in ["1", "2", "3"] {
        let news = posted(&mut state, msg);
        lengths.push(told(&mut state, &mut session, news));
    }
    assert_eq!(lengths, vec![1, 2, 3, 4]);
}

#[test]
fn news_announced_late_is_handed_on_as_it_was() {
    let mut state = GameState::default();
    let (mut session, _) = Session::open(1);
    let mut lengths = vec![greeted(&mut state, &mut session)];
    let first = posted(&mut state, "0");
    let second = posted(&mut state, "1");
    lengths.push(told(&mut state, &mut session, second));
    lengths.push(told(&mut state, &mut session, first));
    let third = posted(&mut state, "2");
    lengths.push(told(&mut state, &mut session, third));
    assert_eq!(lengths, vec![0, 2, 1, 3]);
}

#[test]
fn greeting_can_be_ahead_of_the_news() {
    let mut state = GameState::default();
    let news = posted(&mut state, "0");
    let (mut session, _) = Session::open(1);
    let greeting = greeted(&mut state, &mut session);
    assert_eq!(greeting, 1);
    assert_eq!(told(&mut state, &mut session, news), 1);
}

#[test]
fn enrolled_clients_get_random_ids() {
    let mut registry = ClientRegistry::default();
    let one = registry.enroll();
    let other = registry.enroll();
    assert_ne!(one, other);
    assert_eq!(registry.len(), 2);
    assert_eq!((one >> 76) & 0xf, 4);
    assert_eq!((one >> 62) & 0x3, 2);
    assert_eq!(uuid::Uuid::from_u128(one).get_version_num(), 4);
}

#[test]
fn leaving_undoes_joining() {
    let mut registry = ClientRegistry::default();
    assert_eq!(registry.len(), 0);
    registry.insert(7);
    registry.insert(8);
    registry.insert(8);
    assert_eq!(registry.len(), 2);
    registry.remove(9);
    assert_eq!(registry.len(), 2);
    registry.remove(8);
    assert_eq!(registry.len(), 1);
    registry.remove(7);
    assert_eq!(registry.len(), 0);
}

#[test]
fn session_tells_id_then_history() {
    let (mut session, first) = Session::open(42);
    assert_eq!(sent(first), ServerMessage::AssignedId(42));
    assert_eq!(session.phase(), Phase::Assigning);
    assert_eq!(session.client_id(), 42);
    assert!(matches!(session.step(Event::Sent), Action::SendHistory));
    assert_eq!(session.phase(), Phase::Greeting);
    assert!(matches!(session.step(Event::Sent), Action::Listen));
    assert_eq!(session.phase(), Phase::Listening);
    assert_eq!(session.client_id(), 42);
}

#[test]
fn session_ends_if_the_id_cannot_be_sent() {
    let (mut session, _) = Session::open(42);
    assert!(matches!(session.step(Event::SendFailed), Action::Disconnect));
    assert_eq!(session.phase(), Phase::Closed);
}

#[test]
fn session_outlives_a_failed_greeting() {
    let (mut session, _) = Session::open(42);
    session.step(Event::Sent);
    assert!(matches!(session.step(Event::SendFailed), Action::Listen));
    assert_eq!(session.phase(), Phase::Listening);
}

#[test]
fn ping_is_answered_with_pong() {
    for id in [None, Some(42), Some(43)] {
        let mut session = listening(42);
        let action = session.step(Event::Received(ClientMessage::Ping(id)));
        assert_eq!(sent(action), ServerMessage::Pong);
        assert_eq!(session.phase(), Phase::Replying);
        assert!(matches!(session.step(Event::Sent), Action::Listen));
    }
}

#[test]
fn failed_reply_ends_the_session() {
    let mut session = listening(42);
    session.step(Event::Received(ClientMessage::Ping(None)));
    assert!(matches!(session.step(Event::SendFailed), Action::Disconnect));
}

#[test]
fn messages_are_posted_as_they_came() {
    let mut session = listening(42);
    match session.step(Event::Received(ClientMessage::Message(entry(" ann ", "")))) {
        Action::Post(nick, msg) => {
            assert_eq!(nick, " ann ");
            assert_eq!(msg, "");
        }
        other => panic!("{:?}", other),
    }
    assert_eq!(session.phase(), Phase::Listening);
}

#[test]
fn malformed_text_is_refused_with_the_reason() {
    let mut session = listening(42);
    let action = session.step(Event::Malformed("expected value at line 1 column 1".to_string()));
    assert_eq!(
        sent(action),
        ServerMessage::Error(
            "Invalid message format: expected value at line 1 column 1".to_string()
        )
    );
    assert!(matches!(session.step(Event::Sent), Action::Listen));
}

#[test]
fn other_frames_are_ignored() {
    let mut session = listening(42);
    assert!(matches!(session.step(Event::BinaryFrame), Action::Listen));
    assert!(matches!(session.step(Event::PingFrame), Action::Listen));
    assert!(matches!(session.step(Event::PongFrame), Action::Listen));
    assert_eq!(session.phase(), Phase::Listening);
}

#[test]
fn close_failure_and_end_disconnect() {
    assert!(matches!(listening(1).step(Event::CloseFrame), Action::Disconnect));
    assert!(matches!(listening(1).step(Event::ReadFailed), Action::Disconnect));
    assert!(matches!(listening(1).step(Event::Ended), Action::Disconnect));
}

#[test]
fn only_chat_news_is_handed_on() {
    let mut session = listening(42);
    let news = ServerMessage::NewChatState(ChatState { messages: vec![entry("a", "b")] });
    assert_eq!(sent(session.step(Event::Broadcast(news.clone()))), news);
    session.step(Event::Sent);
    for other in [
        ServerMessage::Pong,
        ServerMessage::AssignedId(1),
        ServerMessage::Error("no".to_string()),
    ] {
        assert!(matches!(session.step(Event::Broadcast(other)), Action::Listen));
    }
}

#[test]
fn sessions_expect_one_kind_of_event() {
    let (mut session, _) = Session::open(42);
    assert!(session.expects(&Event::Sent));
    assert!(session.expects(&Event::SendFailed));
    assert!(!session.expects(&Event::Ended));
    session.step(Event::Sent);
    session.step(Event::Sent);
    assert!(!session.expects(&Event::Sent));
    assert!(session.expects(&Event::Ended));
    session.step(Event::Ended);
    assert!(!session.expects(&Event::Sent));
    assert!(!session.expects(&Event::Ended));
}

#[test]
fn cloned_messages_say_the_same() {
    let said = ClientMessage::Message(entry("a", "b"));
    assert_eq!(said.clone(), said);
    let ping = ClientMessage::Ping(Some(3));
    assert_eq!(ping.clone(), ping);
    let refused = ServerMessage::Error("why".to_string());
    assert_eq!(refused.clone(), refused);
    assert_eq!(ServerMessage::Pong.clone(), ServerMessage::Pong);
    assert_eq!(ServerMessage::AssignedId(5).clone(), ServerMessage::AssignedId(5));
}
