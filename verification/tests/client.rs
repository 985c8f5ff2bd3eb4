use avinet::client::{
    ws_url, ChatPanel, Frame, LinkEvent, MyApp, SendOutcome, SharedAsyncState,
};
use avinet::history::GameState;
use avinet::message::{ChatState, ClientMessage, ServerMessage};
use avinet::session::{Event, Outgoing, Session};

fn chat(entries: &[(&str, &str)]) -> ChatState {
    ChatState {
        messages: entries.iter().map(|(n, m)| (n.to_string(), m.to_string())).collect(),
    }
}

fn status(state: &SharedAsyncState) -> &str {
    state.connection_status.as_str()
}

#[test]
fn url_follows_the_page() {
    assert_eq!(ws_url("https:", "example.org"), "wss://example.org/ws");
    assert_eq!(ws_url("http:", "localhost:3000"), "ws://localhost:3000/ws");
    assert_eq!(ws_url("https", "h"), "ws://h/ws");
}

#[test]
fn client_starts_disconnected() {
    let shared = SharedAsyncState::default();
    assert_eq!(shared.client_id, None);
    assert_eq!(status(&shared), "Disconnected");
    assert_eq!(shared.chat_state, None);
    let app = MyApp::<u8>::default();
    assert_eq!(app.send_nick, "john");
    assert_eq!(app.send_msg, "hello");
    assert_eq!(app.ws_sender, None);
    assert_eq!(app.connection_status_display, "Disconnected");
}

#[test]
fn status_follows_the_connection() {
    let mut shared = SharedAsyncState::default();
    let mut app = MyApp::<u8>::default();
    shared.note(LinkEvent::Connecting);
    assert_eq!(status(&shared), "Connecting...");
    app.note_open(&mut shared, Ok(7));
    assert_eq!(app.ws_sender, Some(7));
    assert_eq!(status(&shared), "Connection established, tasks starting...");
    shared.note(LinkEvent::ReceiverStarted);
    assert_eq!(status(&shared), "Connected (Receiver Active)");
    shared.note(LinkEvent::SenderStopped);
    assert_eq!(status(&shared), "Disconnected (Sender Stopped)");
    shared.note(LinkEvent::ReceiverStopped);
    assert_eq!(status(&shared), "Disconnected (Receiver Stopped)");
}

#[test]
fn failed_opening_is_remembered() {
    let mut shared = SharedAsyncState::default();
    let mut app = MyApp::<u8>::default();
    app.note_open(&mut shared, Err("no route".to_string()));
    assert_eq!(app.ws_sender, None);
    assert_eq!(status(&shared), "Failed to connect: no route");
    shared.note(LinkEvent::SenderStopped);
    shared.note(LinkEvent::ReceiverStopped);
    assert_eq!(status(&shared), "Failed to connect: no route");
    app.refresh(&shared);
    assert!(!app.screen().refresh_hint);
}

#[test]
fn failed_read_outlives_the_tasks() {
    let mut shared = SharedAsyncState::default();
    assert!(!shared.receive(Frame::Failed("gone".to_string())));
    assert_eq!(status(&shared), "Error: gone");
    shared.note(LinkEvent::ReceiverStopped);
    shared.note(LinkEvent::SenderStopped);
    assert_eq!(status(&shared), "Error: gone");
}

#[test]
fn only_a_closed_queue_changes_the_status() {
    let mut shared = SharedAsyncState::default();
    shared.note_send(SendOutcome::NotConnected);
    shared.note_send(SendOutcome::NotEncoded);
    shared.note_send(SendOutcome::Queued);
    assert_eq!(status(&shared), "Disconnected");
    shared.note_send(SendOutcome::QueueClosed);
    assert_eq!(status(&shared), "Error: WS send channel closed");
}

#[test]
fn client_takes_over_what_the_server_says() {
    let mut shared = SharedAsyncState::default();
    assert_eq!(shared.ping(), ClientMessage::Ping(None));
    assert!(shared.receive(Frame::Message(ServerMessage::AssignedId(9))));
    assert_eq!(shared.client_id, Some(9));
    assert_eq!(shared.ping(), ClientMessage::Ping(Some(9)));
    assert!(shared.receive(Frame::Message(ServerMessage::NewChatState(chat(&[("a", "b")])))));
    assert!(shared.receive(Frame::Message(ServerMessage::NewChatState(chat(&[("c", "d")])))));
    assert!(shared.receive(Frame::Message(ServerMessage::Pong)));
    assert!(shared.receive(Frame::Message(ServerMessage::Error("x".to_string()))));
    assert!(shared.receive(Frame::Undecodable));
    assert!(shared.receive(Frame::Bytes));
    assert_eq!(shared.chat_state, Some(chat(&[("c", "d")])));
    assert_eq!(shared.client_id, Some(9));
    assert_eq!(status(&shared), "Disconnected");
}

#[test]
fn screen_before_and_after_connecting() {
    let mut app = MyApp::<u8>::default();
    let mut shared = SharedAsyncState::default();
    let before = app.screen();
    assert_eq!(before.id_label, "My Client ID: (Waiting for server...)");
    assert_eq!(before.status_label, "Status: Disconnected");
    assert!(before.refresh_hint);
    assert!(!before.controls);
    assert_eq!(before.chat, ChatPanel::Loading);

    app.note_open(&mut shared, Ok(7));
    shared.receive(Frame::Message(ServerMessage::AssignedId(
        0x67e55044_10b1_426f_9247_bb680e5fe0c8,
    )));
    shared.receive(Frame::Message(ServerMessage::NewChatState(chat(&[]))));
    app.refresh(&shared);
    let after = app.screen();
    assert_eq!(after.id_label, "My Client ID: 67e55044-10b1-426f-9247-bb680e5fe0c8");
    assert_eq!(after.status_label, "Status: Connection established, tasks starting...");
    assert!(!after.refresh_hint);
    assert!(after.controls);
    assert_eq!(after.chat, ChatPanel::Empty);
}

#[test]
fn ids_are_shown_with_all_their_digits() {
    let mut app = MyApp::<u8>::default();
    let mut shared = SharedAsyncState::default();
    shared.client_id = Some(1);
    app.refresh(&shared);
    assert_eq!(app.screen().id_label, "My Client ID: 00000000-0000-0000-0000-000000000001");
}

#[test]
fn chat_lines_show_nick_and_message() {
    let mut app = MyApp::<u8>::default();
    let mut shared = SharedAsyncState::default();
    shared.chat_state = Some(chat(&[("ann", "hi"), ("bob", "")]));
    app.refresh(&shared);
    assert_eq!(
        app.screen().chat,
        ChatPanel::Lines(vec!["ann: hi".to_string(), "bob: ".to_string()])
    );
}

#[test]
fn submitting_empties_the_message_field() {
    let mut app = MyApp::<u8>::default();
    app.send_nick = " ann".to_string();
    app.send_msg = "hi there ".to_string();
    assert_eq!(
        app.submit(),
        Some(ClientMessage::Message((" ann".to_string(), "hi there ".to_string())))
    );
    assert_eq!(app.send_nick, " ann");
    assert_eq!(app.send_msg, "");
    assert_eq!(app.submit(), None);
}

#[test]
fn blank_fields_are_not_sent() {
    for (nick, msg) in [("", "x"), ("x", ""), (" \t", "x"), ("x", "\n\u{3000}"), ("", "")] {
        let mut app = MyApp::<u8>::default();
        app.send_nick = nick.to_string();
        app.send_msg = msg.to_string();
        assert_eq!(app.submit(), None);
        assert_eq!(app.send_nick, nick);
        assert_eq!(app.send_msg, msg);
    }
}

#[test]
fn a_post_reaches_another_client() {
    let mut author = MyApp::<u8>::default();
    let mut server = GameState::default();
    let mut session = Session::open(1).0;
    session.step(Event::Sent);
    session.step(Event::Sent);
    let post = session.step(Event::Received(author.submit().unwrap()));
    let news = match server.answer(post) {
        Outgoing::Broadcast(news) => news,
        other => panic!("{:?}", other),
    };
    let forwarded = match server.answer(session.step(Event::Broadcast(news))) {
        Outgoing::Send(message) => message,
        other => panic!("{:?}", other),
    };
    let mut shared = SharedAsyncState::default();
    let mut reader = MyApp::<u8>::default();
    shared.receive(Frame::Message(forwarded));
    reader.refresh(&shared);
    assert_eq!(reader.screen().chat, ChatPanel::Lines(vec!["john: hello".to_string()]));
}
